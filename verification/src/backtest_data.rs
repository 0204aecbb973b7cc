//! Historical bar data for backtesting.
//!
//! A backtest file is CSV text: a header row, then one row per bar holding
//! `date, open, high, low, close, volume`.  The CSV framing is done by the
//! csv crate behind one trusted call on in-memory bytes; everything after it
//! — parsing each field as a fixed-point decimal and assembling bars — is
//! verified against an exact grammar.  Reading the file from disk is the
//! surrounding binary's job.

use vstd::prelude::*;

use crate::price::{Bar, MAX_PRICE, PRICE_SCALE};

verus! {

/// The records (header excluded) that CSV framing yields on given bytes:
/// for each record, its fields' raw bytes.  Relied on as a pure function of
/// the input; stated only by name, since the CSV grammar is the csv crate's.
pub uninterp spec fn csv_records_of(bytes: Seq<u8>) -> Seq<Seq<Seq<u8>>>;

/// Relies on csv::Reader over in-memory bytes: RFC-4180-style records, the
/// first row treated as a header and not returned.  `None` when the crate
/// reports malformed input.
#[verifier::external_body]
fn csv_byte_records(bytes: &[u8]) -> (r: Option<Vec<Vec<Vec<u8>>>>)
    ensures
        r matches Some(rows) ==> rows.deep_view() == csv_records_of(bytes@),
{
    let mut reader = csv::Reader::from_reader(bytes);
    let mut out: Vec<Vec<Vec<u8>>> = Vec::new();
    for record in reader.byte_records() {
        match record {
            Ok(rec) => out.push(rec.iter().map(|field| field.to_vec()).collect()),
            Err(_) => return None,
        }
    }
    Some(out)
}

/// An ASCII decimal digit.
pub open spec fn is_digit(b: u8) -> bool {
    48 <= b <= 57
}

pub open spec fn digit_val(b: u8) -> int
    recommends
        is_digit(b),
{
    b - 48
}

pub open spec fn all_digits(s: Seq<u8>) -> bool {
    forall|i: int| 0 <= i < s.len() ==> is_digit(#[trigger] s[i])
}

/// The number a string of digits denotes.
pub open spec fn digits_val(s: Seq<u8>) -> int
    recommends
        all_digits(s),
    decreases s.len(),
{
    if s.len() == 0 {
        0
    } else {
        10 * digits_val(s.drop_last()) + digit_val(s.last())
    }
}

/// Index of the first `.` in `s`, or `s.len()` when there is none.
pub open spec fn dot_index(s: Seq<u8>) -> int
    decreases s.len(),
{
    if s.len() == 0 {
        0
    } else if s[0] == 46 {
        0
    } else {
        1 + dot_index(s.skip(1))
    }
}

pub open spec fn pow10(n: nat) -> int
    decreases n,
{
    if n == 0 {
        1
    } else {
        10 * pow10((n - 1) as nat)
    }
}

/// The scaled value of the fractional digits `f` (the digits after the
/// point): the first four decimal places, further places truncated.
pub open spec fn frac_scaled(f: Seq<u8>) -> int
    recommends
        all_digits(f),
{
    if f.len() >= 4 {
        digits_val(f.take(4))
    } else {
        digits_val(f) * pow10((4 - f.len()) as nat)
    }
}

/// The fixed-point amount a field denotes: digits, optionally a point and
/// at least one more digit (`"12"`, `"12.5"`, `"0.0001"`); decimal places
/// beyond the fourth are truncated.  `None` for anything else, and for
/// values above [`MAX_PRICE`].
pub open spec fn spec_parse_amount(s: Seq<u8>) -> Option<i64> {
    let d = dot_index(s);
    if d == s.len() {
        if 0 < s.len() && all_digits(s) && digits_val(s) * (PRICE_SCALE as int) <= MAX_PRICE
            as int {
            Some((digits_val(s) * (PRICE_SCALE as int)) as i64)
        } else {
            None
        }
    } else {
        let ip = s.take(d);
        let fp = s.skip(d + 1);
        if 0 < ip.len() && 0 < fp.len() && all_digits(ip) && all_digits(fp) && digits_val(ip) * (
        PRICE_SCALE as int) + frac_scaled(fp) <= MAX_PRICE as int {
            Some((digits_val(ip) * (PRICE_SCALE as int) + frac_scaled(fp)) as i64)
        } else {
            None
        }
    }
}

/// `dot_index` finds the first point: it is in range, it sits on a point
/// when in range, and nothing before it is a point.
proof fn lemma_dot_index(s: Seq<u8>)
    ensures
        0 <= dot_index(s) <= s.len(),
        dot_index(s) < s.len() ==> s[dot_index(s)] == 46,
        forall|i: int| 0 <= i < dot_index(s) ==> s[i] != 46,
    decreases s.len(),
{
    if s.len() != 0 && s[0] != 46 {
        lemma_dot_index(s.skip(1));
        assert forall|i: int| 0 <= i < dot_index(s) implies s[i] != 46 by {
            if i > 0 {
                assert(s.skip(1)[i - 1] == s[i]);
            }
        }
        if dot_index(s) < s.len() {
            assert(s.skip(1)[dot_index(s) - 1] == s[dot_index(s)]);
        }
    }
}

/// A digit string's value does not shrink as digits are appended.
proof fn lemma_digits_val_bounds(s: Seq<u8>)
    requires
        all_digits(s),
    ensures
        0 <= digits_val(s),
        forall|k: int| 0 <= k <= s.len() ==> #[trigger] digits_val(s.take(k)) <= digits_val(s),
    decreases s.len(),
{
    if s.len() == 0 {
        assert forall|k: int| 0 <= k <= s.len() implies #[trigger] digits_val(s.take(k))
            <= digits_val(s) by {
            assert(s.take(k) =~= s);
        }
    } else {
        let t = s.drop_last();
        assert(all_digits(t));
        lemma_digits_val_bounds(t);
        assert(digits_val(s) == 10 * digits_val(t) + digit_val(s.last()));
        assert forall|k: int| 0 <= k <= s.len() implies #[trigger] digits_val(s.take(k))
            <= digits_val(s) by {
            if k == s.len() {
                assert(s.take(k) =~= s);
            } else {
                assert(s.take(k) =~= t.take(k));
            }
        }
    }
}

/// Step of front-to-back digit accumulation.
proof fn lemma_digits_val_snoc(s: Seq<u8>, k: int)
    requires
        0 <= k < s.len(),
    ensures
        digits_val(s.take(k + 1)) == 10 * digits_val(s.take(k)) + digit_val(s[k]),
{
    let p = s.take(k + 1);
    assert(p.drop_last() =~= s.take(k));
    assert(p.last() == s[k]);
}

/// Parse one CSV field as a fixed-point amount, exactly per
/// [`spec_parse_amount`].
pub fn parse_amount(s: &[u8]) -> (r: Option<i64>)
    ensures
        r == spec_parse_amount(s@),
{
    proof {
        lemma_dot_index(s@);
    }
    let n = s.len();

    // Find the first point.
    let mut d: usize = 0;
    while d < n && *vstd::slice::slice_index_get(s, d) != 46
        invariant
            0 <= d <= n,
            n == s@.len(),
            forall|i: int| 0 <= i < d ==> s@[i] != 46,
        decreases n - d,
    {
        d = d + 1;
    }
    proof {
        // The scan and the spec agree on the first point's position.
        if d < n {
            assert(s@[d as int] == 46);
        }
        assert(d == dot_index(s@));
    }

    if d == 0 {
        // An empty field or a leading point; both are malformed.
        return None;
    }

    // Check that the integer part, and the fractional part when present,
    // consist entirely of digits.
    let mut i: usize = 0;
    while i < d
        invariant
            0 <= i <= d <= n,
            n == s@.len(),
            d == dot_index(s@),
            forall|x: int| 0 <= x < i ==> is_digit(#[trigger] s@.take(d as int)[x]),
        decreases d - i,
    {
        let b = *vstd::slice::slice_index_get(s, i);
        if b < 48 || b > 57 {
            proof {
                assert(s@.take(d as int)[i as int] == s@[i as int]);
                assert(!all_digits(s@.take(d as int)));
                if d == n {
                    assert(s@.take(d as int) =~= s@);
                }
                assert(d == dot_index(s@));
                assert(!all_digits(s@.take(dot_index(s@))));
                if d == n {
                    assert(dot_index(s@) == s@.len());
                    assert(!all_digits(s@));
                    assert(spec_parse_amount(s@) is None);
                } else {
                    assert(dot_index(s@) < s@.len());
                    assert(spec_parse_amount(s@) is None);
                }
            }
            return None;
        }
        i = i + 1;
    }
    let ghost ip = s@.take(d as int);
    assert(all_digits(ip));
    if d < n {
        if d + 1 == n {
            // A trailing point with no digits is malformed.
            return None;
        }
        let mut j: usize = d + 1;
        while j < n
            invariant
                d + 1 <= j <= n,
                n == s@.len(),
                d == dot_index(s@),
                0 <= d < n,
                forall|x: int| 0 <= x < j - d - 1 ==> is_digit(
                    #[trigger] s@.skip(d as int + 1)[x],
                ),
            decreases n - j,
        {
            let b = *vstd::slice::slice_index_get(s, j);
            proof {
                assert(s@.skip(d as int + 1)[j - d - 1] == s@[j as int]);
            }
            if b < 48 || b > 57 {
                proof {
                    assert(!all_digits(s@.skip(d as int + 1)));
                }
                return None;
            }
            j = j + 1;
        }
    }
    let ghost fp = s@.skip(d as int + 1);
    proof {
        if d < n {
            assert(all_digits(fp));
            lemma_frac_scaled_nonneg(fp);
        }
    }

    // Accumulate the integer part, bailing out once it alone exceeds the
    // largest representable amount (further digits only increase it).
    let mut acc: i64 = 0;
    let mut i: usize = 0;
    while i < d
        invariant
            0 <= i <= d <= n,
            n == s@.len(),
            d == dot_index(s@),
            all_digits(ip),
            ip == s@.take(d as int),
            d < n ==> all_digits(fp) && 0 <= frac_scaled(fp),
            fp == s@.skip(d as int + 1),
            0 <= acc <= 1_000_000,
            acc == digits_val(s@.take(i as int)),
        decreases d - i,
    {
        let b = *vstd::slice::slice_index_get(s, i);
        proof {
            assert(s@.take(d as int)[i as int] == s@[i as int]);
            lemma_digits_val_snoc(s@, i as int);
        }
        acc = 10 * acc + ((b - 48) as i64);
        i = i + 1;
        if acc > 1_000_000 {
            proof {
                assert(s@.take(i as int) =~= ip.take(i as int));
                lemma_digits_val_bounds(ip);
                assert(digits_val(ip) >= acc);
                if d == n {
                    assert(ip =~= s@);
                }
            }
            return None;
        }
    }
    proof {
        assert(s@.take(i as int) =~= ip);
    }

    if d == n {
        // No fractional part.
        let v = acc * PRICE_SCALE;
        proof {
            assert(ip =~= s@);
        }
        if v > MAX_PRICE {
            return None;
        }
        return Some(v);
    }

    // Accumulate the fractional part: the first four digits make up the
    // scaled fraction, further places are truncated away.
    let frac_len: usize = n - d - 1;
    let take_len: usize = if frac_len >= 4 {
        4
    } else {
        frac_len
    };
    let mut facc: i64 = 0;
    let mut j: usize = 0;
    proof {
        reveal_pow10_small();
    }
    while j < take_len
        invariant
            0 <= j <= take_len <= 4,
            take_len <= frac_len,
            frac_len == n - d - 1,
            d == dot_index(s@),
            0 <= d < n,
            n == s@.len(),
            all_digits(fp),
            fp == s@.skip(d as int + 1),
            0 <= facc,
            facc < pow10(j as nat),
            pow10(0) == 1 && pow10(1) == 10 && pow10(2) == 100 && pow10(3) == 1000 && pow10(4)
                == 10000,
            facc == digits_val(fp.take(j as int)),
        decreases take_len - j,
    {
        let b = *vstd::slice::slice_index_get(s, d + 1 + j);
        proof {
            assert(fp[j as int] == s@[d + 1 + j as int]);
            lemma_digits_val_snoc(fp, j as int);
        }
        facc = 10 * facc + ((b - 48) as i64);
        j = j + 1;
    }

    // Scale a short fraction up to four decimal places.
    let scaled_frac: i64 = if frac_len >= 4 {
        facc
    } else if frac_len == 3 {
        facc * 10
    } else if frac_len == 2 {
        facc * 100
    } else {
        facc * 1000
    };
    proof {
        if frac_len < 4 {
            assert(fp.take(frac_len as int) =~= fp);
        }
        assert(scaled_frac == frac_scaled(fp));
    }

    let v = acc * PRICE_SCALE + scaled_frac;
    if v > MAX_PRICE {
        return None;
    }
    Some(v)
}

/// A digit string's scaled fraction is never negative.
proof fn lemma_frac_scaled_nonneg(f: Seq<u8>)
    requires
        all_digits(f),
    ensures
        0 <= frac_scaled(f),
{
    reveal_pow10_small();
    if f.len() >= 4 {
        assert(all_digits(f.take(4)));
        lemma_digits_val_bounds(f.take(4));
    } else {
        lemma_digits_val_bounds(f);
    }
}

/// `pow10` of the small exponents used for short fractions.
proof fn reveal_pow10_small()
    ensures
        pow10(0) == 1,
        pow10(1) == 10,
        pow10(2) == 100,
        pow10(3) == 1000,
        pow10(4) == 10000,
{
    reveal_with_fuel(pow10, 6);
}

/// A parsed amount is a well-formed fixed-point value.
pub proof fn lemma_parse_amount_range(s: Seq<u8>)
    ensures
        spec_parse_amount(s) matches Some(v) ==> 0 <= v <= MAX_PRICE,
{
    let d = dot_index(s);
    lemma_dot_index(s);
    if d == s.len() {
        if 0 < s.len() && all_digits(s) {
            lemma_digits_val_bounds(s);
        }
    } else {
        let ip = s.take(d);
        let fp = s.skip(d + 1);
        if 0 < ip.len() && 0 < fp.len() && all_digits(ip) && all_digits(fp) {
            lemma_digits_val_bounds(ip);
            lemma_frac_scaled_nonneg(fp);
        }
    }
}

/// The bar a record denotes.  A record is `date, open, high, low, close,
/// volume`; the date is not used, every other field must parse as a
/// fixed-point amount, and the close must be a positive price.
pub open spec fn spec_row_to_bar(row: Seq<Seq<u8>>) -> Option<Bar> {
    if row.len() == 6 && spec_parse_amount(row[1]) is Some && spec_parse_amount(row[2]) is Some
        && spec_parse_amount(row[3]) is Some && spec_parse_amount(row[4]) is Some
        && spec_parse_amount(row[5]) is Some && spec_parse_amount(row[4])->Some_0 > 0 {
        Some(
            Bar {
                open: spec_parse_amount(row[1])->Some_0,
                high: spec_parse_amount(row[2])->Some_0,
                low: spec_parse_amount(row[3])->Some_0,
                close: spec_parse_amount(row[4])->Some_0,
                volume: spec_parse_amount(row[5])->Some_0,
            },
        )
    } else {
        None
    }
}

/// Convert one CSV record into a bar, exactly per [`spec_row_to_bar`].
pub fn row_to_bar(row: &Vec<Vec<u8>>) -> (r: Option<Bar>)
    ensures
        r == spec_row_to_bar(row.deep_view()),
        r matches Some(b) ==> b.wf(),
{
    proof {
        assert(forall|i: int|
            0 <= i < row@.len() ==> #[trigger] row.deep_view()[i] == row@[i]@);
    }
    if row.len() != 6 {
        return None;
    }
    let open = parse_amount(row[1].as_slice());
    let high = parse_amount(row[2].as_slice());
    let low = parse_amount(row[3].as_slice());
    let close = parse_amount(row[4].as_slice());
    let volume = parse_amount(row[5].as_slice());
    proof {
        lemma_parse_amount_range(row.deep_view()[1]);
        lemma_parse_amount_range(row.deep_view()[2]);
        lemma_parse_amount_range(row.deep_view()[3]);
        lemma_parse_amount_range(row.deep_view()[4]);
        lemma_parse_amount_range(row.deep_view()[5]);
    }
    match (open, high, low, close, volume) {
        (Some(open), Some(high), Some(low), Some(close), Some(volume)) => {
            if close == 0 {
                return None;
            }
            Some(Bar { open, high, low, close, volume })
        },
        _ => None,
    }
}

/// The bars a whole record list denotes; `None` as soon as any record is
/// malformed.
pub open spec fn spec_bars_of_records(records: Seq<Seq<Seq<u8>>>) -> Option<Seq<Bar>>
    decreases records.len(),
{
    if records.len() == 0 {
        Some(Seq::empty())
    } else {
        match (spec_bars_of_records(records.drop_last()), spec_row_to_bar(records.last())) {
            (Some(bars), Some(b)) => Some(bars.push(b)),
            _ => None,
        }
    }
}

/// A malformed record anywhere makes the whole list malformed.
proof fn lemma_bars_of_records_none(records: Seq<Seq<Seq<u8>>>, i: int)
    requires
        0 <= i < records.len(),
        spec_row_to_bar(records[i]) is None,
    ensures
        spec_bars_of_records(records) is None,
    decreases records.len(),
{
    if i == records.len() - 1 {
    } else {
        assert(records.drop_last()[i] == records[i]);
        lemma_bars_of_records_none(records.drop_last(), i);
    }
}

/// Convert a record list into bars, exactly per [`spec_bars_of_records`].
pub fn rows_to_bars(rows: &Vec<Vec<Vec<u8>>>) -> (r: Option<Vec<Bar>>)
    ensures
        match r {
            Some(bars) => spec_bars_of_records(rows.deep_view()) == Some(bars@) && (forall|i: int|
                0 <= i < bars@.len() ==> #[trigger] bars@[i].wf()),
            None => spec_bars_of_records(rows.deep_view()) is None,
        },
{
    proof {
        assert(forall|i: int|
            0 <= i < rows@.len() ==> #[trigger] rows.deep_view()[i] == rows@[i].deep_view());
    }
    let ghost records = rows.deep_view();
    let mut out: Vec<Bar> = Vec::new();
    let n = rows.len();
    let mut i: usize = 0;
    while i < n
        invariant
            0 <= i <= n,
            n == rows@.len(),
            records == rows.deep_view(),
            records.len() == n,
            forall|k: int| 0 <= k < n ==> #[trigger] records[k] == rows@[k].deep_view(),
            spec_bars_of_records(records.take(i as int)) == Some(out@),
            forall|k: int| 0 <= k < out@.len() ==> #[trigger] out@[k].wf(),
        decreases n - i,
    {
        match row_to_bar(&rows[i]) {
            Some(b) => {
                out.push(b);
                proof {
                    assert(records.take(i as int + 1).drop_last() =~= records.take(i as int));
                    assert(records.take(i as int + 1).last() == records[i as int]);
                }
            },
            None => {
                proof {
                    lemma_bars_of_records_none(records, i as int);
                }
                return None;
            },
        }
        i = i + 1;
    }
    proof {
        assert(records.take(n as int) =~= records);
    }
    Some(out)
}

/// Frame and parse a whole backtest file held in memory: CSV records via
/// the csv crate, each record converted to a bar by verified parsing.
pub fn load_backtest_bars(bytes: &[u8]) -> (r: Option<Vec<Bar>>)
    ensures
        r matches Some(bars) ==> spec_bars_of_records(csv_records_of(bytes@)) == Some(bars@) && (
        forall|i: int| 0 <= i < bars@.len() ==> #[trigger] bars@[i].wf()),
{
    match csv_byte_records(bytes) {
        Some(rows) => rows_to_bars(&rows),
        None => None,
    }
}

} // verus!
