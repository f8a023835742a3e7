//! Sample records, their bounded value ranges, and the fixed instrument
//! pool they are drawn from.

use vstd::prelude::*;
use crate::shared::SampleInv;
use crate::store::CloneExact;

verus! {

/// Number of labeled instruments in the fixed pool.
pub const INSTRUMENT_POOL_SIZE: u64 = 5;

/// Lower bound of a momentum value, in thousandths of an index point.
pub const RSI_MIN_MILLI: u64 = 30_000;

/// Upper bound of a momentum value, in thousandths of an index point.
pub const RSI_MAX_MILLI: u64 = 90_000;

/// Lower bound of a price, in thousandths of the quote unit.
pub const PRICE_MIN_MILLI: u64 = 10_000;

/// Upper bound of a price, in thousandths of the quote unit.
pub const PRICE_MAX_MILLI: u64 = 200_000;

/// The label of instrument `n` in the fixed pool, for 1 <= n <= 5.
pub open spec fn token_label(n: int) -> Seq<char> {
    if n == 1 {
        "Token_1"@
    } else if n == 2 {
        "Token_2"@
    } else if n == 3 {
        "Token_3"@
    } else if n == 4 {
        "Token_4"@
    } else {
        "Token_5"@
    }
}

/// Whether `s` is the label of some instrument of the fixed pool.
pub open spec fn in_instrument_pool(s: Seq<char>) -> bool {
    exists|n: int| 1 <= n <= INSTRUMENT_POOL_SIZE && s == token_label(n)
}

/// The label of instrument `n`, as an owned string.
pub fn token_name(n: u64) -> (r: String)
    requires
        1 <= n <= INSTRUMENT_POOL_SIZE,
    ensures
        r@ == token_label(n as int),
        in_instrument_pool(r@),
{
    let s: &str = if n == 1 {
        "Token_1"
    } else if n == 2 {
        "Token_2"
    } else if n == 3 {
        "Token_3"
    } else if n == 4 {
        "Token_4"
    } else {
        "Token_5"
    };
    let r = String::from_str(s);
    proof {
        assert(1 <= n as int <= INSTRUMENT_POOL_SIZE && r@ == token_label(n as int));
    }
    r
}

/// One momentum measurement for one instrument.
pub struct RSIData {
    /// Label of the measured instrument, from the fixed pool.
    pub token_address: String,
    /// Momentum value in thousandths of an index point.
    pub rsi_milli: u64,
    /// Capture time as RFC 3339 text with an explicit offset.
    pub timestamp: String,
}

impl RSIData {
    /// The value lies in its bounded range and the label comes from the
    /// fixed pool.
    pub open spec fn valid(&self) -> bool {
        &&& RSI_MIN_MILLI <= self.rsi_milli <= RSI_MAX_MILLI
        &&& in_instrument_pool(self.token_address@)
    }
}

impl Clone for RSIData {
    fn clone(&self) -> (r: Self)
        ensures
            r == *self,
    {
        RSIData {
            token_address: self.token_address.clone(),
            rsi_milli: self.rsi_milli,
            timestamp: self.timestamp.clone(),
        }
    }
}

impl CloneExact for RSIData {
    proof fn clone_preserves_value(a: Self, b: Self) {
    }
}

impl SampleInv for RSIData {
    open spec fn inv(&self) -> bool {
        self.valid()
    }
}

/// One trade (price) measurement for one instrument.
pub struct TradeData {
    /// Label of the traded instrument, from the fixed pool.
    pub token_address: String,
    /// Price in thousandths of the quote unit.
    pub price_milli: u64,
    /// Capture time as RFC 3339 text with an explicit offset.
    pub timestamp: String,
}

impl TradeData {
    /// The price lies in its bounded range and the label comes from the
    /// fixed pool.
    pub open spec fn valid(&self) -> bool {
        &&& PRICE_MIN_MILLI <= self.price_milli <= PRICE_MAX_MILLI
        &&& in_instrument_pool(self.token_address@)
    }
}

impl Clone for TradeData {
    fn clone(&self) -> (r: Self)
        ensures
            r == *self,
    {
        TradeData {
            token_address: self.token_address.clone(),
            price_milli: self.price_milli,
            timestamp: self.timestamp.clone(),
        }
    }
}

impl CloneExact for TradeData {
    proof fn clone_preserves_value(a: Self, b: Self) {
    }
}

impl SampleInv for TradeData {
    open spec fn inv(&self) -> bool {
        self.valid()
    }
}

/// Build one momentum sample for instrument `token_n` with the given
/// value and capture time.
pub fn make_rsi_sample(token_n: u64, rsi_milli: u64, timestamp: String) -> (s: RSIData)
    requires
        1 <= token_n <= INSTRUMENT_POOL_SIZE,
        RSI_MIN_MILLI <= rsi_milli <= RSI_MAX_MILLI,
    ensures
        s.token_address@ == token_label(token_n as int),
        s.rsi_milli == rsi_milli,
        s.timestamp == timestamp,
        s.valid(),
{
    RSIData { token_address: token_name(token_n), rsi_milli, timestamp }
}

/// Build one trade sample for instrument `token_n` with the given price
/// and capture time.
pub fn make_trade_sample(token_n: u64, price_milli: u64, timestamp: String) -> (s: TradeData)
    requires
        1 <= token_n <= INSTRUMENT_POOL_SIZE,
        PRICE_MIN_MILLI <= price_milli <= PRICE_MAX_MILLI,
    ensures
        s.token_address@ == token_label(token_n as int),
        s.price_milli == price_milli,
        s.timestamp == timestamp,
        s.valid(),
{
    TradeData { token_address: token_name(token_n), price_milli, timestamp }
}

} // verus!
