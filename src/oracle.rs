//! Oracle readings: freshness, and the outcome a price settles.

use vstd::prelude::*;

use crate::state::{OraclePrice, Outcome};

verus! {

/// Whether `reading` was published within `age` seconds of `now`, before
/// or after it.
pub open spec fn is_fresh(reading: OraclePrice, now: i64, age: u64) -> bool {
    let d = reading.publish_time - now;
    (if d >= 0 {
        d
    } else {
        -d
    }) <= age
}

/// Relies on `pyth_sdk_solana::PriceFeed::get_price_no_older_than`: it
/// returns the feed's price exactly when `|publish_time - now| <= age`,
/// and computes that difference in `i64`.
#[verifier::external_body]
fn published_within(reading: &OraclePrice, now: i64, age: u64) -> (r: bool)
    requires
        i64::MIN < reading.publish_time - now <= i64::MAX,
    ensures
        r == is_fresh(*reading, now, age),
{
    let price = pyth_sdk_solana::Price {
        price: reading.price,
        conf: reading.conf,
        expo: reading.expo,
        publish_time: reading.publish_time,
    };
    let id = pyth_sdk_solana::PriceIdentifier::default();
    let feed = pyth_sdk_solana::PriceFeed::new(id, price, price);
    feed.get_price_no_older_than(now, age).is_some()
}

/// The reading in `oracle`, when there is one and it is no more than `age`
/// seconds from `now`.
pub fn fresh_price(oracle: &Option<OraclePrice>, now: i64, age: u64) -> (r: Option<OraclePrice>)
    requires
        age <= i64::MAX,
    ensures
        r == (match *oracle {
            Some(p) => if is_fresh(p, now, age) {
                Some(p)
            } else {
                None
            },
            None => None,
        }),
{
    match oracle {
        None => None,
        Some(p) => {
            let d: i128 = p.publish_time as i128 - now as i128;
            // A gap outside the `i64` range is far older than any accepted age.
            if d <= i64::MIN as i128 || d > i64::MAX as i128 {
                None
            } else if published_within(p, now, age) {
                Some(*p)
            } else {
                None
            }
        },
    }
}

/// The outcome a resolution price settles: YES when it reaches the strike.
pub open spec fn outcome_for(price: i64, strike: i64) -> Outcome {
    if price >= strike {
        Outcome::Yes
    } else {
        Outcome::No
    }
}

/// The outcome `price` settles against `strike`.
pub fn settle_outcome(price: i64, strike: i64) -> (o: Outcome)
    ensures
        o == outcome_for(price, strike),
{
    if price >= strike {
        Outcome::Yes
    } else {
        Outcome::No
    }
}

} // verus!
