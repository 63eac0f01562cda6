//! The fixed-unit timestamp parser and formatter, and the expiration
//! resolver.
//!
//! Timestamps are parsed by splitting on `T`, `-`, `:` and `.` and reading
//! the first six segments as year, month, day, hour, minute, second. The
//! instant is seconds since the epoch under a deliberately fixed-length
//! calendar: every year is 365 days and every month 30 days. Formatting is
//! the inverse arithmetic, rendered as `YYYY-MM-DDTHH:MM:SS`.
//!
//! A timestamp whose year is before 1970, whose month or day is zero, or
//! whose instant does not fit in `u64` is treated as unparseable, as is one
//! with fewer than six segments or a non-digit segment.

use vstd::prelude::*;
use vstd::string::StrSliceExecFns;
use vstd::string::StringExecFns;

use crate::model::{OTXIndicator, OTXRecord};

verus! {

/// The characters that separate timestamp segments.
pub open spec fn is_delim(c: char) -> bool {
    c == 'T' || c == '-' || c == ':' || c == '.'
}

/// The segments of `s` between delimiters, in order, empties kept: the
/// empty text has the single empty segment, a trailing delimiter opens a
/// new empty segment, and any other character extends the last segment.
pub open spec fn split_segments(s: Seq<char>) -> Seq<Seq<char>>
    decreases s.len(),
{
    if s.len() == 0 {
        seq![Seq::<char>::empty()]
    } else if is_delim(s.last()) {
        split_segments(s.drop_last()).push(Seq::empty())
    } else {
        let p = split_segments(s.drop_last());
        p.update(p.len() - 1, p.last().push(s.last()))
    }
}

/// An ASCII decimal digit.
pub open spec fn is_digit(c: char) -> bool {
    48 <= c as u32 && c as u32 <= 57
}

/// The numeric value of a digit character.
pub open spec fn digit_val(c: char) -> int {
    c as u32 - 48
}

pub open spec fn all_digits(s: Seq<char>) -> bool {
    forall|i: int| 0 <= i < s.len() ==> is_digit(#[trigger] s[i])
}

/// The value of a digit string read in base ten.
pub open spec fn dec_val(s: Seq<char>) -> int
    decreases s.len(),
{
    if s.len() == 0 {
        0
    } else {
        dec_val(s.drop_last()) * 10 + digit_val(s.last())
    }
}

/// The number a segment denotes: defined exactly for a non-empty all-digit
/// segment whose value fits in `u64`.
pub open spec fn parsed_u64(s: Seq<char>) -> Option<u64> {
    if s.len() > 0 && all_digits(s) && dec_val(s) <= u64::MAX {
        Some(dec_val(s) as u64)
    } else {
        None
    }
}

proof fn lemma_all_digits_prefix(s: Seq<char>, k: int)
    requires
        all_digits(s),
        0 <= k <= s.len(),
    ensures
        all_digits(s.take(k)),
{
    assert forall|i: int| 0 <= i < s.take(k).len() implies is_digit(#[trigger] s.take(k)[i]) by {
        assert(s.take(k)[i] == s[i]);
    }
}

proof fn lemma_dec_val_nonneg(s: Seq<char>)
    requires
        all_digits(s),
    ensures
        dec_val(s) >= 0,
    decreases s.len(),
{
    if s.len() > 0 {
        lemma_all_digits_prefix(s, s.len() - 1);
        assert(s.drop_last() =~= s.take(s.len() - 1));
        lemma_dec_val_nonneg(s.drop_last());
    }
}

/// Appending digits never shrinks the value: every prefix of a digit
/// string denotes at most the whole string's value.
proof fn lemma_dec_val_prefix(s: Seq<char>, k: int)
    requires
        all_digits(s),
        0 <= k <= s.len(),
    ensures
        dec_val(s.take(k)) <= dec_val(s),
    decreases s.len() - k,
{
    if k < s.len() {
        assert(s.take(k + 1).drop_last() =~= s.take(k));
        assert(s.take(k + 1).last() == s[k]);
        lemma_all_digits_prefix(s, k);
        lemma_dec_val_nonneg(s.take(k));
        lemma_dec_val_prefix(s, k + 1);
    } else {
        assert(s.take(k) =~= s);
    }
}

/// Reads a non-empty all-digit segment as a `u64`.
fn parse_u64_digits(seg: &Vec<char>) -> (r: Option<u64>)
    ensures
        r == parsed_u64(seg@),
{
    if seg.len() == 0 {
        return None;
    }
    let mut acc: u64 = 0;
    let mut i: usize = 0;
    while i < seg.len()
        invariant
            i <= seg.len(),
            all_digits(seg@.take(i as int)),
            acc == dec_val(seg@.take(i as int)),
        decreases seg.len() - i,
    {
        let c = seg[i];
        let u = c as u32;
        proof {
            assert(seg@.take(i + 1).drop_last() =~= seg@.take(i as int));
            assert(seg@.take(i + 1).last() == seg@[i as int]);
        }
        if u < 48 || u > 57 {
            proof {
                assert(!is_digit(seg@[i as int]));
                assert(!all_digits(seg@));
            }
            return None;
        }
        let d = (u - 48) as u64;
        let shifted = match acc.checked_mul(10) {
            Some(v) => v,
            None => {
                proof {
                    assert(all_digits(seg@.take(i + 1)));
                    assert(dec_val(seg@.take(i + 1)) > u64::MAX);
                    if all_digits(seg@) {
                        lemma_dec_val_prefix(seg@, i + 1);
                    }
                }
                return None;
            },
        };
        let next = match shifted.checked_add(d) {
            Some(v) => v,
            None => {
                proof {
                    assert(all_digits(seg@.take(i + 1)));
                    assert(dec_val(seg@.take(i + 1)) > u64::MAX);
                    if all_digits(seg@) {
                        lemma_dec_val_prefix(seg@, i + 1);
                    }
                }
                return None;
            },
        };
        acc = next;
        i += 1;
    }
    proof {
        assert(seg@.take(seg@.len() as int) =~= seg@);
    }
    Some(acc)
}

/// View of a segment list as a sequence of character sequences.
pub open spec fn segs_view(segs: Seq<Vec<char>>) -> Seq<Seq<char>> {
    segs.map_values(|v: Vec<char>| v@)
}

/// Splits a timestamp string into its segments.
fn split_date_str(s: &str) -> (segs: Vec<Vec<char>>)
    ensures
        segs_view(segs@) == split_segments(s@),
{
    let n = s.unicode_len();
    let mut done: Vec<Vec<char>> = Vec::new();
    let mut cur: Vec<char> = Vec::new();
    let mut i: usize = 0;
    while i < n
        invariant
            i <= n,
            n == s@.len(),
            segs_view(done@).push(cur@) == split_segments(s@.take(i as int)),
        decreases n - i,
    {
        let c = s.get_char(i);
        proof {
            assert(s@.take(i + 1).drop_last() =~= s@.take(i as int));
            assert(s@.take(i + 1).last() == s@[i as int]);
        }
        if c == 'T' || c == '-' || c == ':' || c == '.' {
            let ghost prev_done = done@;
            let ghost prev_cur = cur@;
            done.push(cur);
            cur = Vec::new();
            proof {
                assert(segs_view(done@) =~= segs_view(prev_done).push(prev_cur));
                assert(segs_view(done@).push(cur@) =~= split_segments(s@.take(i + 1)));
            }
        } else {
            let ghost prev_cur = cur@;
            cur.push(c);
            proof {
                let p = split_segments(s@.take(i as int));
                assert(p == segs_view(done@).push(prev_cur));
                assert(p.last() == prev_cur);
                assert(p.len() == done@.len() + 1);
                assert(segs_view(done@).push(cur@) =~= p.update(p.len() - 1, prev_cur.push(s@[i as int])));
            }
        }
        i += 1;
    }
    proof {
        assert(s@.take(s@.len() as int) =~= s@);
    }
    let ghost prev_done = done@;
    let ghost prev_cur = cur@;
    done.push(cur);
    proof {
        assert(segs_view(done@) =~= segs_view(prev_done).push(prev_cur));
    }
    done
}

/// Seconds since the epoch of a broken-down time under the fixed-length
/// calendar: 365-day years and 30-day months.
pub open spec fn instant_seconds(y: int, mo: int, d: int, h: int, mi: int, s: int) -> int {
    (y - 1970) * 31_536_000 + (mo - 1) * 2_592_000 + (d - 1) * 86_400 + h * 3_600 + mi * 60 + s
}

/// The instant a timestamp string denotes, if it has at least six segments,
/// the first six are numbers, and the instant is representable.
pub open spec fn parse_instant(s: Seq<char>) -> Option<u64> {
    let parts = split_segments(s);
    if parts.len() < 6 {
        None
    } else {
        match (parsed_u64(parts[0]), parsed_u64(parts[1]), parsed_u64(parts[2]),
            parsed_u64(parts[3]), parsed_u64(parts[4]), parsed_u64(parts[5])) {
            (Some(y), Some(mo), Some(d), Some(h), Some(mi), Some(sec)) => {
                if 1970 <= y && 1 <= mo && 1 <= d && instant_seconds(
                    y as int,
                    mo as int,
                    d as int,
                    h as int,
                    mi as int,
                    sec as int,
                ) <= u64::MAX {
                    Some(
                        instant_seconds(
                            y as int,
                            mo as int,
                            d as int,
                            h as int,
                            mi as int,
                            sec as int,
                        ) as u64,
                    )
                } else {
                    None
                }
            },
            _ => None,
        }
    }
}

/// Parses a timestamp string into its instant.
pub fn parse_iso8601(date_str: &str) -> (r: Option<u64>)
    ensures
        r == parse_instant(date_str@),
{
    let parts = split_date_str(date_str);
    if parts.len() < 6 {
        return None;
    }
    proof {
        assert(split_segments(date_str@)[0] == parts@[0]@);
        assert(split_segments(date_str@)[1] == parts@[1]@);
        assert(split_segments(date_str@)[2] == parts@[2]@);
        assert(split_segments(date_str@)[3] == parts@[3]@);
        assert(split_segments(date_str@)[4] == parts@[4]@);
        assert(split_segments(date_str@)[5] == parts@[5]@);
    }
    let year = match parse_u64_digits(&parts[0]) {
        Some(v) => v,
        None => {
            return None;
        },
    };
    let month = match parse_u64_digits(&parts[1]) {
        Some(v) => v,
        None => {
            return None;
        },
    };
    let day = match parse_u64_digits(&parts[2]) {
        Some(v) => v,
        None => {
            return None;
        },
    };
    let hour = match parse_u64_digits(&parts[3]) {
        Some(v) => v,
        None => {
            return None;
        },
    };
    let minute = match parse_u64_digits(&parts[4]) {
        Some(v) => v,
        None => {
            return None;
        },
    };
    let second = match parse_u64_digits(&parts[5]) {
        Some(v) => v,
        None => {
            return None;
        },
    };
    if year < 1970 || month < 1 || day < 1 {
        return None;
    }
    let t1 = match (year - 1970).checked_mul(31_536_000) {
        Some(v) => v,
        None => {
            return None;
        },
    };
    let t2 = match (month - 1).checked_mul(2_592_000) {
        Some(v) => v,
        None => {
            return None;
        },
    };
    let t3 = match (day - 1).checked_mul(86_400) {
        Some(v) => v,
        None => {
            return None;
        },
    };
    let t4 = match hour.checked_mul(3_600) {
        Some(v) => v,
        None => {
            return None;
        },
    };
    let t5 = match minute.checked_mul(60) {
        Some(v) => v,
        None => {
            return None;
        },
    };
    let mut total = t1;
    total = match total.checked_add(t2) {
        Some(v) => v,
        None => {
            return None;
        },
    };
    total = match total.checked_add(t3) {
        Some(v) => v,
        None => {
            return None;
        },
    };
    total = match total.checked_add(t4) {
        Some(v) => v,
        None => {
            return None;
        },
    };
    total = match total.checked_add(t5) {
        Some(v) => v,
        None => {
            return None;
        },
    };
    total = match total.checked_add(second) {
        Some(v) => v,
        None => {
            return None;
        },
    };
    Some(total)
}

/// The character of one decimal digit.
pub open spec fn digit_char(d: int) -> char {
    if d == 0 {
        '0'
    } else if d == 1 {
        '1'
    } else if d == 2 {
        '2'
    } else if d == 3 {
        '3'
    } else if d == 4 {
        '4'
    } else if d == 5 {
        '5'
    } else if d == 6 {
        '6'
    } else if d == 7 {
        '7'
    } else if d == 8 {
        '8'
    } else {
        '9'
    }
}

/// The decimal digits of `n`, most significant first.
pub open spec fn dec_digits(n: int) -> Seq<char>
    decreases n,
{
    if n < 10 {
        seq![digit_char(n)]
    } else {
        dec_digits(n / 10).push(digit_char(n % 10))
    }
}

/// `s` left-padded with zeros to at least `w` characters.
pub open spec fn zero_pad(s: Seq<char>, w: int) -> Seq<char> {
    if s.len() >= w {
        s
    } else {
        Seq::new((w - s.len()) as nat, |i: int| '0') + s
    }
}

/// The decimal rendering of `n`, zero-padded to width `w`.
pub open spec fn padded_dec(n: int, w: int) -> Seq<char> {
    zero_pad(dec_digits(n), w)
}

/// The canonical `YYYY-MM-DDTHH:MM:SS` rendering of an instant, under the
/// fixed-length calendar.
pub open spec fn format_instant(t: int) -> Seq<char> {
    padded_dec(1970 + t / 31_536_000, 4) + seq!['-'] + padded_dec(
        (t % 31_536_000) / 2_592_000 + 1,
        2,
    ) + seq!['-'] + padded_dec((t % 2_592_000) / 86_400 + 1, 2) + seq!['T'] + padded_dec(
        (t % 86_400) / 3_600,
        2,
    ) + seq![':'] + padded_dec((t % 3_600) / 60, 2) + seq![':'] + padded_dec(t % 60, 2)
}

proof fn lemma_dec_digits_len(n: int)
    requires
        n >= 0,
    ensures
        dec_digits(n).len() >= 1,
        n < 10 ==> dec_digits(n).len() == 1,
        10 <= n < 100 ==> dec_digits(n).len() == 2,
        100 <= n < 1000 ==> dec_digits(n).len() == 3,
        n >= 1000 ==> dec_digits(n).len() >= 4,
    decreases n,
{
    if n >= 10 {
        lemma_dec_digits_len(n / 10);
    }
}

fn digit_str(d: u64) -> (r: &'static str)
    requires
        d < 10,
    ensures
        r@ == seq![digit_char(d as int)],
{
    proof {
        reveal_strlit("0");
        reveal_strlit("1");
        reveal_strlit("2");
        reveal_strlit("3");
        reveal_strlit("4");
        reveal_strlit("5");
        reveal_strlit("6");
        reveal_strlit("7");
        reveal_strlit("8");
        reveal_strlit("9");
    }
    if d == 0 {
        proof {
            assert("0"@ =~= seq![digit_char(0)]);
        }
        "0"
    } else if d == 1 {
        proof {
            assert("1"@ =~= seq![digit_char(1)]);
        }
        "1"
    } else if d == 2 {
        proof {
            assert("2"@ =~= seq![digit_char(2)]);
        }
        "2"
    } else if d == 3 {
        proof {
            assert("3"@ =~= seq![digit_char(3)]);
        }
        "3"
    } else if d == 4 {
        proof {
            assert("4"@ =~= seq![digit_char(4)]);
        }
        "4"
    } else if d == 5 {
        proof {
            assert("5"@ =~= seq![digit_char(5)]);
        }
        "5"
    } else if d == 6 {
        proof {
            assert("6"@ =~= seq![digit_char(6)]);
        }
        "6"
    } else if d == 7 {
        proof {
            assert("7"@ =~= seq![digit_char(7)]);
        }
        "7"
    } else if d == 8 {
        proof {
            assert("8"@ =~= seq![digit_char(8)]);
        }
        "8"
    } else {
        proof {
            assert("9"@ =~= seq![digit_char(9)]);
        }
        "9"
    }
}

/// Appends the decimal rendering of `n`.
fn push_decimal(out: &mut String, n: u64)
    ensures
        final(out)@ == old(out)@ + dec_digits(n as int),
    decreases n,
{
    if n >= 10 {
        push_decimal(out, n / 10);
        out.append(digit_str(n % 10));
        proof {
            assert(dec_digits(n as int) =~= dec_digits(n as int / 10) + seq![
                digit_char(n as int % 10),
            ]);
        }
    } else {
        out.append(digit_str(n));
    }
}

/// Appends `n` zero-padded to two digits.
fn push_padded2(out: &mut String, n: u64)
    ensures
        final(out)@ == old(out)@ + padded_dec(n as int, 2),
{
    proof {
        lemma_dec_digits_len(n as int);
    }
    if n < 10 {
        proof {
            reveal_strlit("0");
            assert("0"@ =~= Seq::new(1nat, |i: int| '0'));
        }
        out.append("0");
    }
    push_decimal(out, n);
    proof {
        if n < 10 {
            assert(padded_dec(n as int, 2) =~= Seq::new(1nat, |i: int| '0') + dec_digits(n as int));
        }
    }
}

/// Appends `n` zero-padded to four digits.
fn push_padded4(out: &mut String, n: u64)
    ensures
        final(out)@ == old(out)@ + padded_dec(n as int, 4),
{
    proof {
        lemma_dec_digits_len(n as int);
        reveal_strlit("0");
        reveal_strlit("00");
        reveal_strlit("000");
    }
    if n < 10 {
        proof {
            assert("000"@ =~= Seq::new(3nat, |i: int| '0'));
        }
        out.append("000");
    } else if n < 100 {
        proof {
            assert("00"@ =~= Seq::new(2nat, |i: int| '0'));
        }
        out.append("00");
    } else if n < 1000 {
        proof {
            assert("0"@ =~= Seq::new(1nat, |i: int| '0'));
        }
        out.append("0");
    }
    push_decimal(out, n);
    proof {
        if n < 10 {
            assert(padded_dec(n as int, 4) =~= Seq::new(3nat, |i: int| '0') + dec_digits(n as int));
        } else if n < 100 {
            assert(padded_dec(n as int, 4) =~= Seq::new(2nat, |i: int| '0') + dec_digits(n as int));
        } else if n < 1000 {
            assert(padded_dec(n as int, 4) =~= Seq::new(1nat, |i: int| '0') + dec_digits(n as int));
        }
    }
}

/// Renders an instant as `YYYY-MM-DDTHH:MM:SS` under the fixed-length
/// calendar: the inverse of the parse arithmetic.
pub fn format_system_time(seconds: u64) -> (r: String)
    ensures
        r@ == format_instant(seconds as int),
{
    let year = 1970 + seconds / 31_536_000;
    let month = (seconds % 31_536_000) / 2_592_000 + 1;
    let day = (seconds % 2_592_000) / 86_400 + 1;
    let hour = (seconds % 86_400) / 3_600;
    let minute = (seconds % 3_600) / 60;
    let second = seconds % 60;
    proof {
        reveal_strlit("-");
        reveal_strlit("T");
        reveal_strlit(":");
        assert("-"@ =~= seq!['-']);
        assert("T"@ =~= seq!['T']);
        assert(":"@ =~= seq![':']);
    }
    let mut out = String::new();
    push_padded4(&mut out, year);
    out.append("-");
    push_padded2(&mut out, month);
    out.append("-");
    push_padded2(&mut out, day);
    out.append("T");
    push_padded2(&mut out, hour);
    out.append(":");
    push_padded2(&mut out, minute);
    out.append(":");
    push_padded2(&mut out, second);
    out
}

/// A formatted instant is never the empty string: every component is
/// padded to at least two characters and the year to four.
pub proof fn lemma_format_instant_nonempty(t: int)
    requires
        t >= 0,
    ensures
        format_instant(t).len() >= 19,
{
    lemma_dec_digits_len(1970 + t / 31_536_000);
    lemma_dec_digits_len((t % 31_536_000) / 2_592_000 + 1);
    lemma_dec_digits_len((t % 2_592_000) / 86_400 + 1);
    lemma_dec_digits_len((t % 86_400) / 3_600);
    lemma_dec_digits_len((t % 3_600) / 60);
    lemma_dec_digits_len(t % 60);
}

/// The instant of one indicator's expiration, if present and parseable.
pub open spec fn expiration_of(ind: OTXIndicator) -> Option<u64> {
    match ind.expiration {
        Some(e) => parse_instant(e@),
        None => None,
    }
}

/// The latest instant among the parseable expirations of `inds`, if any.
pub open spec fn best_expiration(inds: Seq<OTXIndicator>) -> Option<u64>
    decreases inds.len(),
{
    if inds.len() == 0 {
        None
    } else {
        let prev = best_expiration(inds.drop_last());
        match (prev, expiration_of(inds.last())) {
            (None, cur) => cur,
            (Some(p), None) => Some(p),
            (Some(p), Some(c)) => if c > p {
                Some(c)
            } else {
                Some(p)
            },
        }
    }
}

/// There is no latest expiration exactly when no indicator has a present,
/// parseable expiration string.
pub proof fn lemma_best_expiration_none(inds: Seq<OTXIndicator>)
    ensures
        best_expiration(inds) is None <==> (forall|i: int|
            0 <= i < inds.len() ==> expiration_of(#[trigger] inds[i]) is None),
    decreases inds.len(),
{
    if inds.len() > 0 {
        lemma_best_expiration_none(inds.drop_last());
        assert(forall|i: int|
            0 <= i < inds.len() - 1 ==> inds.drop_last()[i] == #[trigger] inds[i]);
        assert(inds.last() == inds[inds.len() - 1]);
    }
}

/// Scans the record's indicators and returns the formatted latest
/// expiration, or `None` when no expiration parsed.
pub fn get_expiration(record: &OTXRecord) -> (r: Option<String>)
    ensures
        match best_expiration(record.indicators@) {
            None => r is None,
            Some(t) => r matches Some(s) && s@ == format_instant(t as int),
        },
{
    let mut best: Option<u64> = None;
    let mut i: usize = 0;
    while i < record.indicators.len()
        invariant
            i <= record.indicators.len(),
            best == best_expiration(record.indicators@.take(i as int)),
        decreases record.indicators.len() - i,
    {
        proof {
            let t = record.indicators@;
            assert(t.take(i + 1).drop_last() =~= t.take(i as int));
            assert(t.take(i + 1).last() == t[i as int]);
        }
        if let Some(expiration_str) = &record.indicators[i].expiration {
            if let Some(parsed) = parse_iso8601(expiration_str.as_str()) {
                best = match best {
                    None => Some(parsed),
                    Some(b) => if parsed > b {
                        Some(parsed)
                    } else {
                        Some(b)
                    },
                };
            }
        }
        i += 1;
    }
    proof {
        assert(record.indicators@.take(record.indicators@.len() as int) =~= record.indicators@);
    }
    match best {
        Some(t) => Some(format_system_time(t)),
        None => None,
    }
}

} // verus!
