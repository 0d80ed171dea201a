//! Decimal numbers as they appear in table cells.
use vstd::prelude::*;
use crate::text::{
    all_digits, capped, chars_of, digit_run, digit_run_end, digits_capped, digits_value,
    lemma_digit_run, DIGITS_CAP,
};

verus! {

/// The digits of an unsigned number, after an optional leading `+`.
pub open spec fn unsigned_body(s: Seq<char>) -> Seq<char> {
    if s.len() > 0 && s[0] == '+' {
        s.drop_first()
    } else {
        s
    }
}

/// The value that `s` writes as an unsigned decimal number, if it is one.
pub open spec fn unsigned_value(s: Seq<char>) -> Option<nat> {
    let b = unsigned_body(s);
    if b.len() > 0 && all_digits(b) {
        Some(digits_value(b))
    } else {
        None
    }
}

/// `s` read as a `u32`: `None` when it is no unsigned number or does not fit.
pub open spec fn u32_of(s: Seq<char>) -> Option<u32> {
    match unsigned_value(s) {
        Some(v) => if v <= u32::MAX {
            Some(v as u32)
        } else {
            None
        },
        None => None,
    }
}

/// `s` read as a `u8`: `None` when it is no unsigned number or does not fit.
pub open spec fn u8_of(s: Seq<char>) -> Option<u8> {
    match unsigned_value(s) {
        Some(v) => if v <= u8::MAX {
            Some(v as u8)
        } else {
            None
        },
        None => None,
    }
}

/// Reads an unsigned decimal number of at most `DIGITS_CAP`, saturated above it.
fn unsigned_capped(s: &str) -> (r: Option<u64>)
    ensures
        match unsigned_value(s@) {
            Some(v) => r == Some(capped(v) as u64),
            None => r is None,
        },
{
    let cs = chars_of(s);
    let n = cs.len();
    let start: usize = if n > 0 && cs[0] == '+' {
        1
    } else {
        0
    };
    let ghost b = unsigned_body(s@);
    assert(b =~= cs@.subrange(start as int, n as int));
    if start == n {
        return None;
    }
    let end = digit_run_end(&cs, start);
    proof {
        lemma_digit_run(cs@, start as int);
    }
    if end != n {
        assert(!crate::text::is_digit(b[end - start]));
        return None;
    }
    Some(digits_capped(&cs, start, n))
}

/// Reads `s` as an unsigned decimal `u32`, with an optional leading `+`.
pub fn parse_u32(s: &str) -> (r: Option<u32>)
    ensures
        r == u32_of(s@),
{
    match unsigned_capped(s) {
        Some(v) => if v <= 4294967295 {
            Some(v as u32)
        } else {
            None
        },
        None => None,
    }
}

/// Reads `s` as an unsigned decimal `u8`, with an optional leading `+`.
pub fn parse_u8(s: &str) -> (r: Option<u8>)
    ensures
        r == u8_of(s@),
{
    match unsigned_capped(s) {
        Some(v) => if v <= 255 {
            Some(v as u8)
        } else {
            None
        },
        None => None,
    }
}

/// A decimal reading: `mantissa / 10^scale`, negated when `negative`.
/// A cell such as `-1.5` is `{ negative: true, mantissa: 15, scale: 1 }`.
#[derive(Clone, Copy, Debug, PartialEq, Eq, Structural)]
pub struct Temperature {
    pub negative: bool,
    pub mantissa: u32,
    pub scale: usize,
}

/// A sign (`-` or `+`, which may be left out) and the rest of `s`.
pub open spec fn signed_body(s: Seq<char>) -> (bool, Seq<char>) {
    if s.len() > 0 && s[0] == '-' {
        (true, s.drop_first())
    } else if s.len() > 0 && s[0] == '+' {
        (false, s.drop_first())
    } else {
        (false, s)
    }
}

/// The integer digits and the fractional digits of `b`, split at its one
/// decimal point, when `b` is digits with at most one `.` among them.
pub open spec fn decimal_parts(b: Seq<char>) -> Option<(Seq<char>, Seq<char>)> {
    let p = digit_run(b, 0) as int;
    if p == b.len() {
        Some((b, Seq::empty()))
    } else if b[p] == '.' && all_digits(b.skip(p + 1)) {
        Some((b.take(p), b.skip(p + 1)))
    } else {
        None
    }
}

/// `s` read as a decimal number: a sign, digits, and at most one decimal
/// point, with at least one digit; all digits together at most `DIGITS_CAP`.
pub open spec fn temperature_of(s: Seq<char>) -> Option<Temperature> {
    let (neg, b) = signed_body(s);
    match decimal_parts(b) {
        Some((i, f)) => if i.len() + f.len() > 0 && digits_value(i + f) <= DIGITS_CAP {
            Some(Temperature { negative: neg, mantissa: digits_value(i + f) as u32, scale: f.len() as usize })
        } else {
            None
        },
        None => None,
    }
}

/// Reads a decimal number such as `12.5`, `-3` or `+0.25`.
pub fn parse_temperature(s: &str) -> (r: Option<Temperature>)
    ensures
        r == temperature_of(s@),
{
    let cs = chars_of(s);
    let n = cs.len();
    let neg = n > 0 && cs[0] == '-';
    let start: usize = if n > 0 && (cs[0] == '-' || cs[0] == '+') {
        1
    } else {
        0
    };
    let ghost b = signed_body(s@).1;
    assert(b =~= cs@.subrange(start as int, n as int));
    let p = digit_run_end(&cs, start);
    proof {
        lemma_digit_run(cs@, start as int);
        assert(digit_run(b, 0) == digit_run(cs@, start as int)) by {
            lemma_run_shift(cs@, start as int, n as int, start as int);
        }
    }
    let mut joined: Vec<char> = Vec::new();
    let mut scale: usize = 0;
    if p < n {
        if cs[p] != '.' {
            return None;
        }
        let q = digit_run_end(&cs, p + 1);
        proof {
            lemma_digit_run(cs@, p + 1);
            assert(b.skip(p - start + 1) =~= cs@.subrange(p + 1, n as int));
        }
        if q != n {
            assert(!crate::text::is_digit(b.skip(p - start + 1)[q - p - 1]));
            return None;
        }
        scale = n - p - 1;
    }
    let mut i: usize = start;
    while i < n
        invariant
            start <= i <= n == cs@.len(),
            start <= p <= n,
            i <= p ==> joined@ == cs@.subrange(start as int, i as int),
            i > p ==> joined@ == cs@.subrange(start as int, p as int) + cs@.subrange(p + 1, i as int),
        decreases n - i,
    {
        if i != p {
            joined.push(cs[i]);
        }
        proof {
            if i < p {
                assert(cs@.subrange(start as int, i + 1) =~= cs@.subrange(start as int, i as int).push(cs@[i as int]));
            } else if i == p {
                assert(cs@.subrange(p + 1, i + 1) =~= Seq::<char>::empty());
                assert(joined@ =~= cs@.subrange(start as int, p as int) + cs@.subrange(p + 1, i + 1));
            } else {
                assert(cs@.subrange(p + 1, i + 1) =~= cs@.subrange(p + 1, i as int).push(cs@[i as int]));
                assert(joined@ =~= cs@.subrange(start as int, p as int) + cs@.subrange(p + 1, i + 1));
            }
        }
        i = i + 1;
    }
    let ghost parts = decimal_parts(b);
    proof {
        if p == n {
            assert(joined@ =~= b);
            assert(parts == Some((b, Seq::<char>::empty())));
            assert(b + Seq::<char>::empty() =~= b);
        } else {
            assert(b.take(p - start) =~= cs@.subrange(start as int, p as int));
            assert(b.skip(p - start + 1) =~= cs@.subrange(p + 1, n as int));
            assert(joined@ =~= b.take(p - start) + b.skip(p - start + 1));
        }
    }
    let m = joined.len();
    if m == 0 {
        return None;
    }
    proof {
        let (ip, fp) = parts.unwrap();
        assert(joined@ =~= ip + fp);
        assert forall|k: int| 0 <= k < joined@.len() implies crate::text::is_digit(#[trigger] joined@[k]) by {
            if k < ip.len() {
                assert(joined@[k] == ip[k]);
                assert(ip[k] == cs@.subrange(start as int, p as int)[k]);
            } else {
                assert(joined@[k] == fp[k - ip.len()]);
            }
        }
        assert(joined@.subrange(0, m as int) =~= joined@);
    }
    let v = digits_capped(&joined, 0, m);
    if v > DIGITS_CAP {
        return None;
    }
    Some(Temperature { negative: neg, mantissa: v as u32, scale })
}

/// A digit run read from an offset of a sequence is the run of its suffix.
proof fn lemma_run_shift(s: Seq<char>, from: int, to: int, i: int)
    requires
        0 <= from <= i <= to == s.len(),
    ensures
        digit_run(s.subrange(from, to), i - from) == digit_run(s, i),
    decreases to - i,
{
    if i < to {
        lemma_run_shift(s, from, to, i + 1);
    }
}

} // verus!
