//! Byte-level snapshots of strategy state.
//!
//! Every strategy serializes its full numeric memory to a little-endian byte
//! sequence tagged with its name, and restores from exactly that pair; a
//! mismatched or malformed snapshot restores to `None`, never to a silently
//! coerced state.  [`lemma_strategy_snapshot_roundtrip`] proves that
//! restoring a strategy from its own snapshot reproduces the identical
//! state — and hence bit-identical directives for any subsequent bars.

use vstd::prelude::*;

use vstd::bytes::{
    lemma_auto_spec_u64_to_from_le_bytes, spec_u64_from_le_bytes, spec_u64_to_le_bytes,
    u64_from_le_bytes, u64_to_le_bytes,
};
use vstd::slice::slice_subrange;

use crate::market_strategies::{
    is_known_strategy, FibonacciRetracement, SingleMovingAverage, Strategy, SupportNResist,
    TwoMovingAverages,
};
use crate::price::{MAX_PRICE, MAX_QTY};
use crate::market_strategies::MAXBARS;
use crate::stock_monitor::SimplifiedDBMonitor;
use vstd::slice::slice_to_vec;

verus! {

/// One byte holding a flag: 1 for true, 0 for false.
pub open spec fn enc_bool(b: bool) -> Seq<u8> {
    seq![if b { 1u8 } else { 0u8 }]
}

/// A byte that a flag may decode from.
pub open spec fn is_bool_byte(x: u8) -> bool {
    x == 0 || x == 1
}

/// A non-negative fixed-point amount, as eight little-endian bytes.
pub open spec fn enc_amount(x: i64) -> Seq<u8>
    recommends
        0 <= x,
{
    spec_u64_to_le_bytes(x as u64)
}

/// The amount encoded at byte offset `i`.
pub open spec fn dec_u64_at(b: Seq<u8>, i: int) -> u64
    recommends
        0 <= i && i + 8 <= b.len(),
{
    spec_u64_from_le_bytes(b.subrange(i, i + 8))
}

fn push_bool(out: &mut Vec<u8>, b: bool)
    ensures
        final(out)@ == old(out)@ + enc_bool(b),
{
    out.push(if b { 1 } else { 0 });
    assert(final(out)@ =~= old(out)@ + enc_bool(b));
}

fn push_u64(out: &mut Vec<u8>, x: u64)
    ensures
        final(out)@ == old(out)@ + spec_u64_to_le_bytes(x),
{
    let mut bs = u64_to_le_bytes(x);
    out.append(&mut bs);
}

fn push_amount(out: &mut Vec<u8>, x: i64)
    requires
        0 <= x,
    ensures
        final(out)@ == old(out)@ + enc_amount(x),
{
    push_u64(out, x as u64);
}

fn read_u64_at(bytes: &[u8], i: usize) -> (x: u64)
    requires
        i + 8 <= bytes@.len(),
    ensures
        x == dec_u64_at(bytes@, i as int),
{
    let n = bytes.len();
    assert(i + 8 <= n);
    u64_from_le_bytes(slice_subrange(bytes, i, i + 8))
}

/// A single moving average snapshot: flag, then the average.
pub open spec fn spec_encode_sma(s: SingleMovingAverage) -> Seq<u8> {
    enc_bool(s.primed) + enc_amount(s.ema)
}

pub open spec fn spec_decode_sma(b: Seq<u8>) -> Option<SingleMovingAverage> {
    if b.len() == 9 && is_bool_byte(b[0]) && dec_u64_at(b, 1) <= MAX_PRICE as u64 {
        Some(SingleMovingAverage { primed: b[0] == 1u8, ema: dec_u64_at(b, 1) as i64 })
    } else {
        None
    }
}

/// A two-average snapshot: flag, fast average, slow average.
pub open spec fn spec_encode_tma(s: TwoMovingAverages) -> Seq<u8> {
    enc_bool(s.primed) + enc_amount(s.ema_one) + enc_amount(s.ema_two)
}

pub open spec fn spec_decode_tma(b: Seq<u8>) -> Option<TwoMovingAverages> {
    if b.len() == 17 && is_bool_byte(b[0]) && dec_u64_at(b, 1) <= MAX_PRICE as u64 && dec_u64_at(
        b,
        9,
    ) <= MAX_PRICE as u64 {
        Some(
            TwoMovingAverages {
                primed: b[0] == 1u8,
                ema_one: dec_u64_at(b, 1) as i64,
                ema_two: dec_u64_at(b, 9) as i64,
            },
        )
    } else {
        None
    }
}

/// A support-and-resistance snapshot: flag, then high, low, close.
pub open spec fn spec_encode_snr(s: SupportNResist) -> Seq<u8> {
    enc_bool(s.ran_before) + enc_amount(s.past_high) + enc_amount(s.past_low) + enc_amount(
        s.past_close,
    )
}

pub open spec fn spec_decode_snr(b: Seq<u8>) -> Option<SupportNResist> {
    if b.len() == 25 && is_bool_byte(b[0]) && dec_u64_at(b, 1) <= MAX_PRICE as u64 && dec_u64_at(
        b,
        9,
    ) <= MAX_PRICE as u64 && dec_u64_at(b, 17) <= MAX_PRICE as u64 {
        Some(
            SupportNResist {
                ran_before: b[0] == 1u8,
                past_high: dec_u64_at(b, 1) as i64,
                past_low: dec_u64_at(b, 9) as i64,
                past_close: dec_u64_at(b, 17) as i64,
            },
        )
    } else {
        None
    }
}

/// A retracement snapshot: two flags, the bar counter, the window ends and
/// the six band edges.
pub open spec fn spec_encode_fib(s: FibonacciRetracement) -> Seq<u8> {
    enc_bool(s.monitoring_mode) + enc_bool(s.stock_going_up) + spec_u64_to_le_bytes(
        s.current_bar as u64,
    ) + enc_amount(s.bar_start) + enc_amount(s.bar_end) + enc_amount(s.profit_price_lower)
        + enc_amount(s.profit_price_upper) + enc_amount(s.half_way_back_price_lower) + enc_amount(
        s.half_way_back_price_upper,
    ) + enc_amount(s.failure_price_lower) + enc_amount(s.failure_price_upper)
}

pub open spec fn spec_decode_fib(b: Seq<u8>) -> Option<FibonacciRetracement> {
    if b.len() == 74 && is_bool_byte(b[0]) && is_bool_byte(b[1]) && dec_u64_at(b, 2) < MAXBARS
        as u64 && dec_u64_at(b, 10) <= MAX_PRICE as u64 && dec_u64_at(b, 18) <= MAX_PRICE as u64
        && dec_u64_at(b, 26) <= MAX_PRICE as u64 && dec_u64_at(b, 34) <= MAX_PRICE as u64
        && dec_u64_at(b, 42) <= MAX_PRICE as u64 && dec_u64_at(b, 50) <= MAX_PRICE as u64
        && dec_u64_at(b, 58) <= MAX_PRICE as u64 && dec_u64_at(b, 66) <= MAX_PRICE as u64 {
        Some(
            FibonacciRetracement {
                monitoring_mode: b[0] == 1u8,
                stock_going_up: b[1] == 1u8,
                current_bar: dec_u64_at(b, 2) as u16,
                bar_start: dec_u64_at(b, 10) as i64,
                bar_end: dec_u64_at(b, 18) as i64,
                profit_price_lower: dec_u64_at(b, 26) as i64,
                profit_price_upper: dec_u64_at(b, 34) as i64,
                half_way_back_price_lower: dec_u64_at(b, 42) as i64,
                half_way_back_price_upper: dec_u64_at(b, 50) as i64,
                failure_price_lower: dec_u64_at(b, 58) as i64,
                failure_price_upper: dec_u64_at(b, 66) as i64,
            },
        )
    } else {
        None
    }
}

/// The byte snapshot of any strategy's memory.
pub open spec fn spec_strategy_bytes(s: Strategy) -> Seq<u8> {
    match s {
        Strategy::SingleMovingAverage(x) => spec_encode_sma(x),
        Strategy::TwoMovingAverages(x) => spec_encode_tma(x),
        Strategy::SupportNResist(x) => spec_encode_snr(x),
        Strategy::FibonacciRetracement(x) => spec_encode_fib(x),
    }
}

/// Restoration: the name selects the decoder; an unknown name or a
/// malformed payload restores to `None`.
pub open spec fn spec_restore_strategy(name: Seq<char>, bytes: Seq<u8>) -> Option<Strategy> {
    if name == "Single Moving Average"@ {
        match spec_decode_sma(bytes) {
            Some(s) => Some(Strategy::SingleMovingAverage(s)),
            None => None,
        }
    } else if name == "Two Moving Averages"@ {
        match spec_decode_tma(bytes) {
            Some(s) => Some(Strategy::TwoMovingAverages(s)),
            None => None,
        }
    } else if name == "Support and Resist"@ {
        match spec_decode_snr(bytes) {
            Some(s) => Some(Strategy::SupportNResist(s)),
            None => None,
        }
    } else if name == "Fibonacci"@ {
        match spec_decode_fib(bytes) {
            Some(s) => Some(Strategy::FibonacciRetracement(s)),
            None => None,
        }
    } else {
        None
    }
}

fn decode_sma(bytes: &[u8]) -> (r: Option<SingleMovingAverage>)
    ensures
        r == spec_decode_sma(bytes@),
{
    if bytes.len() != 9 {
        return None;
    }
    let flag = *vstd::slice::slice_index_get(bytes, 0);
    if flag > 1 {
        return None;
    }
    let ema = read_u64_at(bytes, 1);
    if ema > MAX_PRICE as u64 {
        return None;
    }
    Some(SingleMovingAverage { primed: flag == 1, ema: ema as i64 })
}

fn decode_tma(bytes: &[u8]) -> (r: Option<TwoMovingAverages>)
    ensures
        r == spec_decode_tma(bytes@),
{
    if bytes.len() != 17 {
        return None;
    }
    let flag = *vstd::slice::slice_index_get(bytes, 0);
    if flag > 1 {
        return None;
    }
    let ema_one = read_u64_at(bytes, 1);
    let ema_two = read_u64_at(bytes, 9);
    if ema_one > MAX_PRICE as u64 || ema_two > MAX_PRICE as u64 {
        return None;
    }
    Some(TwoMovingAverages { primed: flag == 1, ema_one: ema_one as i64, ema_two: ema_two as i64 })
}

fn decode_snr(bytes: &[u8]) -> (r: Option<SupportNResist>)
    ensures
        r == spec_decode_snr(bytes@),
{
    if bytes.len() != 25 {
        return None;
    }
    let flag = *vstd::slice::slice_index_get(bytes, 0);
    if flag > 1 {
        return None;
    }
    let high = read_u64_at(bytes, 1);
    let low = read_u64_at(bytes, 9);
    let close = read_u64_at(bytes, 17);
    if high > MAX_PRICE as u64 || low > MAX_PRICE as u64 || close > MAX_PRICE as u64 {
        return None;
    }
    Some(
        SupportNResist {
            ran_before: flag == 1,
            past_high: high as i64,
            past_low: low as i64,
            past_close: close as i64,
        },
    )
}

fn decode_fib(bytes: &[u8]) -> (r: Option<FibonacciRetracement>)
    ensures
        r == spec_decode_fib(bytes@),
{
    if bytes.len() != 74 {
        return None;
    }
    let monitoring = *vstd::slice::slice_index_get(bytes, 0);
    let going_up = *vstd::slice::slice_index_get(bytes, 1);
    if monitoring > 1 || going_up > 1 {
        return None;
    }
    let current_bar = read_u64_at(bytes, 2);
    if current_bar >= MAXBARS as u64 {
        return None;
    }
    let bar_start = read_u64_at(bytes, 10);
    let bar_end = read_u64_at(bytes, 18);
    let profit_lower = read_u64_at(bytes, 26);
    let profit_upper = read_u64_at(bytes, 34);
    let half_lower = read_u64_at(bytes, 42);
    let half_upper = read_u64_at(bytes, 50);
    let failure_lower = read_u64_at(bytes, 58);
    let failure_upper = read_u64_at(bytes, 66);
    if bar_start > MAX_PRICE as u64 || bar_end > MAX_PRICE as u64 || profit_lower > MAX_PRICE
        as u64 || profit_upper > MAX_PRICE as u64 || half_lower > MAX_PRICE as u64 || half_upper
        > MAX_PRICE as u64 || failure_lower > MAX_PRICE as u64 || failure_upper > MAX_PRICE
        as u64 {
        return None;
    }
    Some(
        FibonacciRetracement {
            monitoring_mode: monitoring == 1,
            stock_going_up: going_up == 1,
            current_bar: current_bar as u16,
            bar_start: bar_start as i64,
            bar_end: bar_end as i64,
            profit_price_lower: profit_lower as i64,
            profit_price_upper: profit_upper as i64,
            half_way_back_price_lower: half_lower as i64,
            half_way_back_price_upper: half_upper as i64,
            failure_price_lower: failure_lower as i64,
            failure_price_upper: failure_upper as i64,
        },
    )
}

impl Strategy {
    /// Serialize the strategy's full memory, tagged with its name.
    pub fn save_state(&self) -> (r: (Vec<u8>, String))
        requires
            self.wf(),
        ensures
            r.0@ == spec_strategy_bytes(*self),
            r.1@ == self.spec_name(),
    {
        let mut out: Vec<u8> = Vec::new();
        match self {
            Strategy::SingleMovingAverage(s) => {
                push_bool(&mut out, s.primed);
                push_amount(&mut out, s.ema);
                assert(out@ =~= spec_encode_sma(*s));
            },
            Strategy::TwoMovingAverages(s) => {
                push_bool(&mut out, s.primed);
                push_amount(&mut out, s.ema_one);
                push_amount(&mut out, s.ema_two);
                assert(out@ =~= spec_encode_tma(*s));
            },
            Strategy::SupportNResist(s) => {
                push_bool(&mut out, s.ran_before);
                push_amount(&mut out, s.past_high);
                push_amount(&mut out, s.past_low);
                push_amount(&mut out, s.past_close);
                assert(out@ =~= spec_encode_snr(*s));
            },
            Strategy::FibonacciRetracement(s) => {
                push_bool(&mut out, s.monitoring_mode);
                push_bool(&mut out, s.stock_going_up);
                push_u64(&mut out, s.current_bar as u64);
                push_amount(&mut out, s.bar_start);
                push_amount(&mut out, s.bar_end);
                push_amount(&mut out, s.profit_price_lower);
                push_amount(&mut out, s.profit_price_upper);
                push_amount(&mut out, s.half_way_back_price_lower);
                push_amount(&mut out, s.half_way_back_price_upper);
                push_amount(&mut out, s.failure_price_lower);
                push_amount(&mut out, s.failure_price_upper);
                assert(out@ =~= spec_encode_fib(*s));
            },
        }
        (out, self.name())
    }

    /// Restore a strategy from a tagged snapshot.  Fails (returns `None`)
    /// on an unknown name or a payload that is not that strategy's.
    pub fn restore(name: &String, bytes: &Vec<u8>) -> (r: Option<Strategy>)
        ensures
            r == spec_restore_strategy(name@, bytes@),
            r matches Some(s) ==> s.wf(),
    {
        proof {
            reveal_strlit("Single Moving Average");
            reveal_strlit("Two Moving Averages");
            reveal_strlit("Support and Resist");
            reveal_strlit("Fibonacci");
        }
        if *name == String::from_str("Single Moving Average") {
            match decode_sma(bytes.as_slice()) {
                Some(s) => Some(Strategy::SingleMovingAverage(s)),
                None => None,
            }
        } else if *name == String::from_str("Two Moving Averages") {
            match decode_tma(bytes.as_slice()) {
                Some(s) => Some(Strategy::TwoMovingAverages(s)),
                None => None,
            }
        } else if *name == String::from_str("Support and Resist") {
            match decode_snr(bytes.as_slice()) {
                Some(s) => Some(Strategy::SupportNResist(s)),
                None => None,
            }
        } else if *name == String::from_str("Fibonacci") {
            match decode_fib(bytes.as_slice()) {
                Some(s) => Some(Strategy::FibonacciRetracement(s)),
                None => None,
            }
        } else {
            None
        }
    }
}

/// Restoring any strategy from its own snapshot yields the identical state.
/// Since a strategy's transition and output are functions of its state
/// alone, the restored strategy produces bit-identical directives for any
/// subsequent input sequence.
pub proof fn lemma_strategy_snapshot_roundtrip(s: Strategy)
    requires
        s.wf(),
    ensures
        spec_restore_strategy(s.spec_name(), spec_strategy_bytes(s)) == Some(s),
{
    reveal_strlit("Single Moving Average");
    reveal_strlit("Two Moving Averages");
    reveal_strlit("Support and Resist");
    reveal_strlit("Fibonacci");
    lemma_auto_spec_u64_to_from_le_bytes();
    match s {
        Strategy::SingleMovingAverage(x) => {
            let b = spec_encode_sma(x);
            assert(b.subrange(1, 9) =~= spec_u64_to_le_bytes(x.ema as u64));
            assert(spec_decode_sma(b) == Some(x));
            assert(s.spec_name() == "Single Moving Average"@);
            assert(s == Strategy::SingleMovingAverage(x));
            assert(spec_strategy_bytes(s) == b);
            assert(spec_restore_strategy(s.spec_name(), spec_strategy_bytes(s)) == Some(s));
        },
        Strategy::TwoMovingAverages(x) => {
            let b = spec_encode_tma(x);
            assert(b.subrange(1, 9) =~= spec_u64_to_le_bytes(x.ema_one as u64));
            assert(b.subrange(9, 17) =~= spec_u64_to_le_bytes(x.ema_two as u64));
            assert(spec_decode_tma(b) == Some(x));
            assert(s.spec_name() == "Two Moving Averages"@);
            assert(s == Strategy::TwoMovingAverages(x));
            assert(spec_strategy_bytes(s) == b);
            assert(spec_restore_strategy(s.spec_name(), spec_strategy_bytes(s)) == Some(s));
        },
        Strategy::SupportNResist(x) => {
            let b = spec_encode_snr(x);
            assert(b.subrange(1, 9) =~= spec_u64_to_le_bytes(x.past_high as u64));
            assert(b.subrange(9, 17) =~= spec_u64_to_le_bytes(x.past_low as u64));
            assert(b.subrange(17, 25) =~= spec_u64_to_le_bytes(x.past_close as u64));
            assert(spec_decode_snr(b) == Some(x));
            assert(s.spec_name() == "Support and Resist"@);
            assert(s == Strategy::SupportNResist(x));
            assert(spec_strategy_bytes(s) == b);
            assert(spec_restore_strategy(s.spec_name(), spec_strategy_bytes(s)) == Some(s));
        },
        Strategy::FibonacciRetracement(x) => {
            let b = spec_encode_fib(x);
            assert(b.subrange(2, 10) =~= spec_u64_to_le_bytes(x.current_bar as u64));
            assert(b.subrange(10, 18) =~= spec_u64_to_le_bytes(x.bar_start as u64));
            assert(b.subrange(18, 26) =~= spec_u64_to_le_bytes(x.bar_end as u64));
            assert(b.subrange(26, 34) =~= spec_u64_to_le_bytes(x.profit_price_lower as u64));
            assert(b.subrange(34, 42) =~= spec_u64_to_le_bytes(x.profit_price_upper as u64));
            assert(b.subrange(42, 50) =~= spec_u64_to_le_bytes(x.half_way_back_price_lower as u64));
            assert(b.subrange(50, 58) =~= spec_u64_to_le_bytes(x.half_way_back_price_upper as u64));
            assert(b.subrange(58, 66) =~= spec_u64_to_le_bytes(x.failure_price_lower as u64));
            assert(b.subrange(66, 74) =~= spec_u64_to_le_bytes(x.failure_price_upper as u64));
            assert(spec_decode_fib(b) == Some(x));
            assert(s.spec_name() == "Fibonacci"@);
            assert(s == Strategy::FibonacciRetracement(x));
            assert(spec_strategy_bytes(s) == b);
            assert(spec_restore_strategy(s.spec_name(), spec_strategy_bytes(s)) == Some(s));
        },
    }
}

/// The mathematical contents of a [`SimplifiedDBMonitor`]: what the durable
/// store holds for one symbol.
#[verifier::ext_equal]
pub struct SnapshotView {
    pub bought_stock: bool,
    pub buy_price: i64,
    pub strat_bytes: Seq<u8>,
    pub strat_name: Seq<char>,
    pub buy_time: i32,
    pub how_much: u32,
}

impl View for SimplifiedDBMonitor {
    type V = SnapshotView;

    open spec fn view(&self) -> SnapshotView {
        SnapshotView {
            bought_stock: self.bought_stock,
            buy_price: self.buy_price,
            strat_bytes: self.strat_bytes@,
            strat_name: self.strat_name@,
            buy_time: self.buy_time,
            how_much: self.how_much,
        }
    }
}

impl SnapshotView {
    /// What the byte layout can carry: in-range trading figures and one of
    /// the four known strategy names.
    pub open spec fn encodable(self) -> bool {
        &&& 0 <= self.buy_price <= MAX_PRICE
        &&& 0 <= self.buy_time
        &&& self.how_much <= MAX_QTY
        &&& is_known_strategy(self.strat_name)
        &&& self.strat_bytes.len() <= 0xffff_ffff_ffff_ffff
    }
}

/// The byte tag that stands for a known strategy name in stored snapshots.
pub open spec fn spec_tag_of_name(name: Seq<char>) -> u8
    recommends
        is_known_strategy(name),
{
    if name == "Single Moving Average"@ {
        1u8
    } else if name == "Two Moving Averages"@ {
        2u8
    } else if name == "Support and Resist"@ {
        3u8
    } else {
        4u8
    }
}

/// The known strategy name a snapshot tag stands for.
pub open spec fn spec_name_of_tag(tag: u8) -> Seq<char>
    recommends
        1 <= tag <= 4,
{
    if tag == 1 {
        "Single Moving Average"@
    } else if tag == 2 {
        "Two Moving Averages"@
    } else if tag == 3 {
        "Support and Resist"@
    } else {
        "Fibonacci"@
    }
}

/// A monitor snapshot as stored bytes: the trading figures, the strategy
/// tag, and the length-prefixed strategy payload.
pub open spec fn spec_encode_snapshot(v: SnapshotView) -> Seq<u8>
    recommends
        v.encodable(),
{
    enc_bool(v.bought_stock) + enc_amount(v.buy_price) + spec_u64_to_le_bytes(v.buy_time as u64)
        + spec_u64_to_le_bytes(v.how_much as u64) + seq![spec_tag_of_name(v.strat_name)]
        + spec_u64_to_le_bytes(v.strat_bytes.len() as u64) + v.strat_bytes
}

pub open spec fn spec_decode_snapshot(b: Seq<u8>) -> Option<SnapshotView> {
    if b.len() >= 34 && is_bool_byte(b[0]) && dec_u64_at(b, 1) <= MAX_PRICE as u64 && dec_u64_at(
        b,
        9,
    ) <= 0x7fff_ffffu64 && dec_u64_at(b, 17) <= MAX_QTY as u64 && 1 <= b[25] <= 4 && dec_u64_at(
        b,
        26,
    ) == b.len() - 34 {
        Some(
            SnapshotView {
                bought_stock: b[0] == 1u8,
                buy_price: dec_u64_at(b, 1) as i64,
                buy_time: dec_u64_at(b, 9) as i32,
                how_much: dec_u64_at(b, 17) as u32,
                strat_name: spec_name_of_tag(b[25]),
                strat_bytes: b.skip(34),
            },
        )
    } else {
        None
    }
}

/// Decoding a snapshot's own encoding yields the identical contents, so a
/// monitor rehydrated from what was persisted for it resumes in the state
/// that was saved.
pub proof fn lemma_monitor_snapshot_roundtrip(v: SnapshotView)
    requires
        v.encodable(),
    ensures
        spec_decode_snapshot(spec_encode_snapshot(v)) == Some(v),
{
    reveal_strlit("Single Moving Average");
    reveal_strlit("Two Moving Averages");
    reveal_strlit("Support and Resist");
    reveal_strlit("Fibonacci");
    lemma_auto_spec_u64_to_from_le_bytes();
    let b = spec_encode_snapshot(v);
    assert(b.len() == 34 + v.strat_bytes.len());
    assert(b.subrange(1, 9) =~= spec_u64_to_le_bytes(v.buy_price as u64));
    assert(b.subrange(9, 17) =~= spec_u64_to_le_bytes(v.buy_time as u64));
    assert(b.subrange(17, 25) =~= spec_u64_to_le_bytes(v.how_much as u64));
    assert(b.subrange(26, 34) =~= spec_u64_to_le_bytes(v.strat_bytes.len() as u64));
    assert(b[25] == spec_tag_of_name(v.strat_name));
    assert(spec_name_of_tag(spec_tag_of_name(v.strat_name)) == v.strat_name);
    assert(b.skip(34) =~= v.strat_bytes);
    let d = spec_decode_snapshot(b);
    assert(d is Some);
    assert(d->Some_0 =~= v);
}

/// Serialize a monitor snapshot for the durable store.
pub fn encode_snapshot(m: &SimplifiedDBMonitor) -> (r: Vec<u8>)
    requires
        m@.encodable(),
    ensures
        r@ == spec_encode_snapshot(m@),
{
    proof {
        reveal_strlit("Single Moving Average");
        reveal_strlit("Two Moving Averages");
        reveal_strlit("Support and Resist");
        reveal_strlit("Fibonacci");
    }
    let mut out: Vec<u8> = Vec::new();
    push_bool(&mut out, m.bought_stock);
    push_amount(&mut out, m.buy_price);
    push_u64(&mut out, m.buy_time as u64);
    push_u64(&mut out, m.how_much as u64);
    let tag: u8 = if m.strat_name == String::from_str("Single Moving Average") {
        1
    } else if m.strat_name == String::from_str("Two Moving Averages") {
        2
    } else if m.strat_name == String::from_str("Support and Resist") {
        3
    } else {
        4
    };
    out.push(tag);
    push_u64(&mut out, m.strat_bytes.len() as u64);
    let mut payload = m.strat_bytes.clone();
    out.append(&mut payload);
    assert(out@ =~= spec_encode_snapshot(m@));
    out
}

/// Parse a stored monitor snapshot; `None` on any malformed input.
pub fn decode_snapshot(bytes: &[u8]) -> (r: Option<SimplifiedDBMonitor>)
    ensures
        match r {
            Some(m) => spec_decode_snapshot(bytes@) == Some(m@),
            None => spec_decode_snapshot(bytes@) is None,
        },
{
    proof {
        reveal_strlit("Single Moving Average");
        reveal_strlit("Two Moving Averages");
        reveal_strlit("Support and Resist");
        reveal_strlit("Fibonacci");
    }
    let n = bytes.len();
    if n < 34 {
        return None;
    }
    let flag = *vstd::slice::slice_index_get(bytes, 0);
    if flag > 1 {
        return None;
    }
    let buy_price = read_u64_at(bytes, 1);
    if buy_price > MAX_PRICE as u64 {
        return None;
    }
    let buy_time = read_u64_at(bytes, 9);
    if buy_time > 0x7fff_ffffu64 {
        return None;
    }
    let how_much = read_u64_at(bytes, 17);
    if how_much > MAX_QTY as u64 {
        return None;
    }
    let tag = *vstd::slice::slice_index_get(bytes, 25);
    if tag < 1 || tag > 4 {
        return None;
    }
    let strat_len = read_u64_at(bytes, 26);
    if strat_len != (n - 34) as u64 {
        return None;
    }
    let strat_name = if tag == 1 {
        String::from_str("Single Moving Average")
    } else if tag == 2 {
        String::from_str("Two Moving Averages")
    } else if tag == 3 {
        String::from_str("Support and Resist")
    } else {
        String::from_str("Fibonacci")
    };
    let strat_bytes = slice_to_vec(slice_subrange(bytes, 34, n));
    let m = SimplifiedDBMonitor {
        bought_stock: flag == 1,
        buy_price: buy_price as i64,
        strat_bytes,
        strat_name,
        buy_time: buy_time as i32,
        how_much: how_much as u32,
    };
    proof {
        assert(m@ =~= spec_decode_snapshot(bytes@)->Some_0);
    }
    Some(m)
}

} // verus!
