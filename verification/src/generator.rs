//! The producer task's core: one tick draws an instrument and two bounded
//! values, stamps them with the current time, and commits one sample of
//! each kind to its window.

use vstd::prelude::*;
use crate::sample::{
    make_rsi_sample, make_trade_sample, RSIData, TradeData, INSTRUMENT_POOL_SIZE,
    PRICE_MAX_MILLI, PRICE_MIN_MILLI, RSI_MAX_MILLI, RSI_MIN_MILLI,
};
use crate::shared::SharedWindow;
use crate::store::{window_push, RetainedWindow};

verus! {

/// Seconds between two generator ticks.
pub const TICK_INTERVAL_SECS: u64 = 3;

/// Declares rand's standard generator so that it can stand in fields and
/// signatures; its insides stay opaque.
#[verifier::external_type_specification]
#[verifier::external_body]
pub struct ExStdRng(rand::rngs::StdRng);

/// Relies on rand::rngs::StdRng::from_entropy (via rand_core::SeedableRng):
/// seeds a generator from the operating system's entropy source. It aborts
/// the process when that source is unavailable: generation has no empty
/// fallback, so failing fast at startup is the right outcome.
#[verifier::external_body]
fn rng_from_entropy() -> rand::rngs::StdRng {
    <rand::rngs::StdRng as rand::SeedableRng>::from_entropy()
}

/// Relies on rand::Rng::gen_range on the inclusive range `lo..=hi`: the
/// draw lies between the bounds. The range is nonempty because `lo <= hi`,
/// so the call cannot panic.
#[verifier::external_body]
fn gen_range_u64(rng: &mut rand::rngs::StdRng, lo: u64, hi: u64) -> (r: u64)
    requires
        lo <= hi,
    ensures
        lo <= r <= hi,
{
    rand::Rng::gen_range(rng, lo..=hi)
}

/// The shape of every timestamp the clock writes: RFC 3339 date-time text,
/// at least 25 characters long, with the 'T' separator and an explicit
/// "+00:00" UTC offset at the end.
pub open spec fn rfc3339_utc_shape(s: Seq<char>) -> bool {
    &&& s.len() >= 25
    &&& s.contains('T')
    &&& s.subrange(s.len() - 6, s.len() as int) == "+00:00"@
}

/// Relies on chrono::Utc::now and chrono::DateTime::to_rfc3339: the
/// current wall-clock time rendered as RFC 3339 text. The value depends on
/// the clock, but its shape does not: the writer always emits a date, the
/// 'T' separator, a six-character time, and, for a UTC offset of zero, the
/// numeric suffix "+00:00" rather than 'Z'.
#[verifier::external_body]
fn now_rfc3339() -> (r: String)
    ensures
        rfc3339_utc_shape(r@),
{
    chrono::Utc::now().to_rfc3339()
}

/// The single producer: owns the randomness source and fabricates one
/// sample of each kind per tick.
pub struct Generator {
    rng: rand::rngs::StdRng,
}

impl Generator {
    /// A generator seeded from the entropy source. Aborts the process when
    /// no entropy is available; there is no empty fallback.
    pub fn new() -> (g: Generator) {
        Generator { rng: rng_from_entropy() }
    }

    /// Fabricate one momentum sample and one trade sample, both for the
    /// same pseudo-randomly chosen instrument, each value drawn uniformly
    /// from its bounded range, both stamped with the current time.
    pub fn make_samples(&mut self) -> (r: (RSIData, TradeData))
        ensures
            r.0.valid(),
            r.1.valid(),
            r.0.token_address@ == r.1.token_address@,
            rfc3339_utc_shape(r.0.timestamp@),
            rfc3339_utc_shape(r.1.timestamp@),
    {
        let token_n = gen_range_u64(&mut self.rng, 1, INSTRUMENT_POOL_SIZE);
        let rsi_milli = gen_range_u64(&mut self.rng, RSI_MIN_MILLI, RSI_MAX_MILLI);
        let price_milli = gen_range_u64(&mut self.rng, PRICE_MIN_MILLI, PRICE_MAX_MILLI);
        let rsi_entry = make_rsi_sample(token_n, rsi_milli, now_rfc3339());
        let trade_entry = make_trade_sample(token_n, price_milli, now_rfc3339());
        (rsi_entry, trade_entry)
    }

    /// One tick: append one momentum sample and one trade sample, both for
    /// the same pseudo-randomly chosen instrument, each value drawn from
    /// its bounded range, to the corresponding window.
    pub fn tick(
        &mut self,
        rsi: &mut RetainedWindow<RSIData>,
        trades: &mut RetainedWindow<TradeData>,
    )
        requires
            old(rsi).well_formed(),
            old(trades).well_formed(),
        ensures
            final(rsi).well_formed(),
            final(trades).well_formed(),
            final(rsi)@.len() > 0,
            final(trades)@.len() > 0,
            final(rsi)@ == window_push(old(rsi)@, final(rsi)@.last()),
            final(trades)@ == window_push(old(trades)@, final(trades)@.last()),
            final(rsi)@.last().valid(),
            final(trades)@.last().valid(),
            final(rsi)@.last().token_address@ == final(trades)@.last().token_address@,
            rfc3339_utc_shape(final(rsi)@.last().timestamp@),
            rfc3339_utc_shape(final(trades)@.last().timestamp@),
    {
        let (rsi_entry, trade_entry) = self.make_samples();
        rsi.append(rsi_entry);
        trades.append(trade_entry);
    }

    /// One tick against the shared stores, as the producer task runs it:
    /// each window's lock is taken on its own, and never across the wait
    /// between ticks.
    pub fn tick_shared(
        &mut self,
        rsi: &SharedWindow<RSIData>,
        trades: &SharedWindow<TradeData>,
    )
        requires
            rsi.wf(),
            trades.wf(),
    {
        let (rsi_entry, trade_entry) = self.make_samples();
        rsi.append(rsi_entry);
        trades.append(trade_entry);
    }
}

} // verus!
