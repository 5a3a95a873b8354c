use vstd::prelude::*;
use crate::oracle::PriceAccount;
use crate::state::Pubkey;

verus! {

/// What initialization reads of the accounts it is handed.
pub struct InitializeVault {
    /// Address of the mint account handed in.
    pub mint_account: Pubkey,
    /// Decimals recorded in that mint account.
    pub mint_decimals: u8,
    /// The vault's derived signing authority and the offset it was found at.
    pub vault_authority: Pubkey,
    pub vault_authority_bump: u8,
    /// Owner recorded in the vault's token account.
    pub vault_ata_owner: Pubkey,
}

/// What a deposit reads of the accounts it is handed.
pub struct DepositCollateral {
    pub depositor: Pubkey,
    pub vault_authority: Pubkey,
    pub vault_ata_owner: Pubkey,
}

/// The signer of an approval or a revocation.
pub struct ApproveRelease {
    pub role_signer: Pubkey,
}

/// What a release reads of the accounts it is handed.
pub struct ReleaseCollateral {
    pub recipient: Pubkey,
    pub vault_authority: Pubkey,
    pub vault_ata_owner: Pubkey,
    /// The price feed account, needed only when oracle pricing is enabled.
    pub pyth_price_acc: Option<PriceAccount>,
}

/// The signer of a pause, an unpause or an approval reset.
pub struct Pause {
    pub custodian: Pubkey,
}

/// A role rotation needs no signer: the quorum authorizes it.
pub struct RotateRole {}

/// The signer of a configuration change.
pub struct Admin {
    pub custodian: Pubkey,
}

/// The identity tuple of the vault to close.
pub struct CloseVault {
    pub mint: Pubkey,
    pub custodian: Pubkey,
    pub borrower: Pubkey,
    pub lender: Pubkey,
}

} // verus!
