use vstd::prelude::*;
use crate::state::{ErrorCode, Pubkey, PriceConfig};
use pyth_sdk_solana::state::load_price_account;
use pyth_sdk_solana::{Price, PriceFeed, PriceIdentifier};

verus! {

/// One price reading of the oracle: `price ± conf` times `10^expo`.
#[derive(Clone, Copy, Debug, PartialEq, Eq, Structural)]
pub struct PriceSample {
    pub price: i64,
    pub conf: u64,
    pub expo: i32,
    pub publish_time: i64,
}

/// The price feed account handed to a release: its address and raw data.
pub struct PriceAccount {
    pub key: Pubkey,
    pub data: Vec<u8>,
}

/// The price that the oracle's account layout yields for the given bytes,
/// or `None` where they do not hold a valid price account.
pub uninterp spec fn pyth_price_of(data: Seq<u8>) -> Option<PriceSample>;

/// Relies on `pyth_sdk_solana::state::load_price_account`, which checks the
/// account's size, magic number, version and type, and on
/// `PriceAccount::to_price_feed`, which picks the aggregate or the previous
/// price by the trading status: what is read depends on the bytes alone.
/// The layout is cast in place and needs eight-byte alignment, so the bytes
/// are first copied into a buffer of `u64` words, one word per byte so that
/// no length needs computing, viewed as bytes by `bytemuck::cast_slice_mut`.
#[verifier::external_body]
pub(crate) fn load_price(data: &[u8]) -> (r: Option<PriceSample>)
    ensures
        r == pyth_price_of(data@),
{
    let mut words: Vec<u64> = vec![0u64; data.len()];
    let buf: &mut [u8] = bytemuck::cast_slice_mut(&mut words);
    buf[..data.len()].copy_from_slice(data);
    match load_price_account(&buf[..data.len()]) {
        Ok(acc) => {
            let p = acc.to_price_feed(&Default::default()).get_price_unchecked();
            Some(PriceSample { price: p.price, conf: p.conf, expo: p.expo, publish_time: p.publish_time })
        },
        Err(_) => None,
    }
}

/// Absolute value of an integer.
pub open spec fn abs_int(x: int) -> int {
    if x < 0 { -x } else { x }
}

/// Whether a price published at `publish_time` is at most `age` seconds
/// away from `now`, in either direction.
pub open spec fn is_fresh(publish_time: i64, now: i64, age: u64) -> bool {
    abs_int(publish_time - now) <= age
}

/// Relies on `pyth_sdk::PriceFeed::get_price_no_older_than`: it hands the
/// current price back when `|publish_time - now| <= age`, and `None` otherwise.
/// The difference must fit in an `i64` with its absolute value.
#[verifier::external_body]
fn price_no_older_than(p: PriceSample, now: i64, age: u64) -> (r: Option<PriceSample>)
    requires
        i64::MIN < p.publish_time - now <= i64::MAX,
    ensures
        r == (if is_fresh(p.publish_time, now, age) { Some(p) } else { None::<PriceSample> }),
{
    let price = Price { price: p.price, conf: p.conf, expo: p.expo, publish_time: p.publish_time };
    let feed = PriceFeed::new(PriceIdentifier::new([0u8; 32]), price, price);
    feed.get_price_no_older_than(now, age).map(|q| PriceSample {
        price: q.price,
        conf: q.conf,
        expo: q.expo,
        publish_time: q.publish_time,
    })
}

/// The outcome of reading the configured feed: an account must be handed in,
/// be the configured one, parse as a price account, and carry a fresh price.
pub open spec fn fetch_price_spec(
    cfg: PriceConfig,
    key: Option<Pubkey>,
    sample: Option<PriceSample>,
    now: i64,
) -> Result<PriceSample, ErrorCode> {
    if key is None {
        Err(ErrorCode::PriceAccountInvalid)
    } else if key->Some_0 != cfg.sol_usdc_price_feed {
        Err(ErrorCode::Unauthorized)
    } else if sample is None {
        Err(ErrorCode::PriceAccountInvalid)
    } else if cfg.max_price_staleness_secs < 0 {
        Err(ErrorCode::InvalidRiskParams)
    } else if !is_fresh(sample->Some_0.publish_time, now, cfg.max_price_staleness_secs as u64) {
        Err(ErrorCode::PriceStale)
    } else {
        Ok(sample->Some_0)
    }
}

/// Validates an already parsed reading of the feed account `key` against the
/// configuration: identity, presence, staleness window and freshness.
pub fn check_price(cfg: &PriceConfig, key: Option<Pubkey>, sample: Option<PriceSample>, now: i64) -> (r:
    Result<PriceSample, ErrorCode>)
    ensures
        r == fetch_price_spec(*cfg, key, sample, now),
{
    let k = match key {
        Some(k) => k,
        None => {
            return Err(ErrorCode::PriceAccountInvalid);
        },
    };
    if k != cfg.sol_usdc_price_feed {
        return Err(ErrorCode::Unauthorized);
    }
    let p = match sample {
        Some(p) => p,
        None => {
            return Err(ErrorCode::PriceAccountInvalid);
        },
    };
    if cfg.max_price_staleness_secs < 0 {
        return Err(ErrorCode::InvalidRiskParams);
    }
    let age: u64 = cfg.max_price_staleness_secs as u64;
    let diff: i128 = p.publish_time as i128 - now as i128;
    if diff <= i64::MIN as i128 || diff > i64::MAX as i128 {
        // At least 2^63 seconds apart: beyond any window an i64 can hold.
        return Err(ErrorCode::PriceStale);
    }
    match price_no_older_than(p, now, age) {
        Some(q) => Ok(q),
        None => Err(ErrorCode::PriceStale),
    }
}

} // verus!
