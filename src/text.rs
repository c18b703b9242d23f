//! Reading of attribute text: surrounding whitespace and decimal integers.

use vstd::prelude::*;
use vstd::std_specs::iter::IteratorSpec;

verus! {

/// Characters with the Unicode `White_Space` property, as `char::is_whitespace`
/// defines them.
pub open spec fn is_white_space(c: char) -> bool {
    let u = c as u32;
    (0x09 <= u <= 0x0d) || u == 0x20 || u == 0x85 || u == 0xa0 || u == 0x1680 || (0x2000 <= u
        <= 0x200a) || u == 0x2028 || u == 0x2029 || u == 0x202f || u == 0x205f || u == 0x3000
}

/// `s` without its leading whitespace.
pub open spec fn trim_start_of(s: Seq<char>) -> Seq<char>
    decreases s.len(),
{
    if s.len() > 0 && is_white_space(s[0]) {
        trim_start_of(s.drop_first())
    } else {
        s
    }
}

/// `s` without its trailing whitespace.
pub open spec fn trim_end_of(s: Seq<char>) -> Seq<char>
    decreases s.len(),
{
    if s.len() > 0 && is_white_space(s.last()) {
        trim_end_of(s.drop_last())
    } else {
        s
    }
}

/// `s` without leading and trailing whitespace.
pub open spec fn trim_of(s: Seq<char>) -> Seq<char> {
    trim_end_of(trim_start_of(s))
}

pub open spec fn is_digit(c: char) -> bool {
    '0' as u32 <= c as u32 <= '9' as u32
}

pub open spec fn all_digits(s: Seq<char>) -> bool {
    forall|i: int| 0 <= i < s.len() ==> is_digit(#[trigger] s[i])
}

/// The value of a string of decimal digits.
pub open spec fn digits_value(s: Seq<char>) -> int
    decreases s.len(),
{
    if s.len() == 0 {
        0
    } else {
        digits_value(s.drop_last()) * 10 + (s.last() as u32 - '0' as u32)
    }
}

/// The integer written by `s`: an optional `+` or `-` followed by one or
/// more decimal digits, and nothing else.
pub open spec fn decimal_of(s: Seq<char>) -> Option<int> {
    if s.len() > 1 && s[0] == '-' && all_digits(s.drop_first()) {
        Some(-digits_value(s.drop_first()))
    } else if s.len() > 1 && s[0] == '+' && all_digits(s.drop_first()) {
        Some(digits_value(s.drop_first()))
    } else if s.len() > 0 && all_digits(s) {
        Some(digits_value(s))
    } else {
        None
    }
}

/// The integer written by `s` when it fits in an `i64`.
pub open spec fn i64_of(s: Seq<char>) -> Option<int> {
    match decimal_of(s) {
        Some(v) => if i64::MIN <= v <= i64::MAX {
            Some(v)
        } else {
            None
        },
        None => None,
    }
}

/// Relies on `str::trim`: leading and trailing whitespace removed.
#[verifier::external_body]
pub(crate) fn trim_text(s: &str) -> (r: String)
    ensures
        r@ == trim_of(s@),
{
    s.trim().to_string()
}

/// The characters of `s`, in order.
pub fn chars_of(s: &str) -> (r: Vec<char>)
    ensures
        r@ == s@,
{
    broadcast use vstd::string::axiom_spec_iter, vstd::string::next_postcondition;

    let mut it = s.chars();
    let mut out: Vec<char> = Vec::new();
    loop
        invariant
            it.obeys_prophetic_iter_laws(),
            out@ + it.remaining() == s@,
        decreases s@.len() - out@.len(),
    {
        let ghost before = it.remaining();
        match it.next() {
            Some(c) => {
                assert(before.len() > 0);
                out.push(c);
                assert(out@ + it.remaining() =~= s@) by {
                    assert(before =~= seq![c] + before.drop_first());
                }
            },
            None => {
                assert(it.remaining().len() == 0);
                assert(out@ =~= s@);
                return out;
            },
        }
    }
}

/// `v`, or the least value above every `i64` magnitude when `v` exceeds it.
pub open spec fn capped(v: int) -> int {
    if v < 0x8000_0000_0000_0001 {
        v
    } else {
        0x8000_0000_0000_0001
    }
}

/// Value of the digits `cs[lo..hi]`, capped just above every `i64`
/// magnitude; `None` when one of them is not a digit.
fn digits_capped(cs: &Vec<char>, lo: usize, hi: usize) -> (r: Option<u64>)
    requires
        lo <= hi <= cs@.len(),
    ensures
        r is Some <==> all_digits(cs@.subrange(lo as int, hi as int)),
        r matches Some(v) ==> v == capped(digits_value(cs@.subrange(lo as int, hi as int))),
{
    let ghost s = cs@;
    let mut acc: u64 = 0;
    let mut i: usize = lo;
    assert(s.subrange(lo as int, lo as int) =~= Seq::<char>::empty());
    while i < hi
        invariant
            lo <= i <= hi <= s.len(),
            s == cs@,
            all_digits(s.subrange(lo as int, i as int)),
            digits_value(s.subrange(lo as int, i as int)) >= 0,
            acc == capped(digits_value(s.subrange(lo as int, i as int))),
        decreases hi - i,
    {
        let c = cs[i];
        let ghost prev = s.subrange(lo as int, i as int);
        let ghost next = s.subrange(lo as int, i + 1);
        assert(next.drop_last() =~= prev);
        assert(next.last() == c);
        let u = c as u32;
        if !(48 <= u && u <= 57) {
            assert(!is_digit(next[next.len() - 1]));
            assert(forall|k: int| lo <= k < hi ==> s.subrange(lo as int, hi as int)[k - lo] == s[k]);
            assert(s.subrange(lo as int, hi as int)[i - lo] == c);
            return None;
        }
        let d = (u - 48) as u64;
        let ghost v = digits_value(prev);
        assert(digits_value(next) == v * 10 + d);
        if acc >= 0x8000_0000_0000_0001 {
            assert(v >= 0x8000_0000_0000_0001);
            assert(v * 10 + d >= 0x8000_0000_0000_0001) by (nonlinear_arith)
                requires
                    v >= 0x8000_0000_0000_0001,
                    d >= 0,
            ;
        } else {
            let n: u128 = acc as u128 * 10 + d as u128;
            if n >= 0x8000_0000_0000_0001 {
                acc = 0x8000_0000_0000_0001;
            } else {
                acc = n as u64;
            }
        }
        assert forall|k: int| 0 <= k < next.len() implies is_digit(#[trigger] next[k]) by {
            if k < prev.len() {
                assert(next[k] == prev[k]);
            }
        }
        i = i + 1;
    }
    Some(acc)
}

/// The integer written by `cs[lo..hi]` when it fits in an `i64`: an
/// optional sign and one or more decimal digits, nothing else.
pub fn parse_decimal(cs: &Vec<char>, lo: usize, hi: usize) -> (r: Option<i64>)
    requires
        lo <= hi <= cs@.len(),
    ensures
        r matches Some(v) ==> i64_of(cs@.subrange(lo as int, hi as int)) == Some(v as int),
        r is None ==> i64_of(cs@.subrange(lo as int, hi as int)) is None,
{
    let ghost s = cs@.subrange(lo as int, hi as int);
    if lo == hi {
        return None;
    }
    let c0 = cs[lo];
    assert(s[0] == c0);
    if (c0 == '-' || c0 == '+') && hi - lo > 1 {
        assert(cs@.subrange(lo + 1, hi as int) =~= s.drop_first());
        match digits_capped(cs, lo + 1, hi) {
            Some(m) => {
                if c0 == '-' {
                    if m <= 0x8000_0000_0000_0000 {
                        Some((-(m as i128)) as i64)
                    } else {
                        None
                    }
                } else {
                    if m <= 0x7fff_ffff_ffff_ffff {
                        Some(m as i64)
                    } else {
                        None
                    }
                }
            },
            None => {
                assert(!is_digit(s[0]));
                assert(!all_digits(s));
                None
            },
        }
    } else {
        if c0 == '-' || c0 == '+' {
            assert(!is_digit(s[0]));
        }
        match digits_capped(cs, lo, hi) {
            Some(m) => {
                if m <= 0x7fff_ffff_ffff_ffff {
                    Some(m as i64)
                } else {
                    None
                }
            },
            None => None,
        }
    }
}

/// The trimmed text of an attribute, when the attribute was read.
pub open spec fn text_attr(a: Option<String>) -> Option<Seq<char>> {
    match a {
        Some(s) => Some(trim_of(s@)),
        None => None,
    }
}

/// The integer held by an attribute, surrounding whitespace ignored.
pub open spec fn int_attr(a: Option<String>) -> Option<int> {
    match a {
        Some(s) => i64_of(trim_of(s@)),
        None => None,
    }
}

/// Trimmed text of an attribute; absent when it was not read.
pub fn read_text(a: &Option<String>) -> (r: Option<String>)
    ensures
        r is Some <==> a is Some,
        r matches Some(t) ==> text_attr(*a) == Some(t@),
{
    match a {
        Some(s) => Some(trim_text(s.as_str())),
        None => None,
    }
}

/// Integer value of an attribute; absent when it was not read or does not
/// hold a decimal integer within `i64`.
pub fn read_int(a: &Option<String>) -> (r: Option<i64>)
    ensures
        r matches Some(v) ==> int_attr(*a) == Some(v as int),
        r is None ==> int_attr(*a) is None,
{
    match a {
        Some(s) => {
            let t = trim_text(s.as_str());
            let cs = chars_of(t.as_str());
            assert(cs@.subrange(0, cs@.len() as int) =~= cs@);
            parse_decimal(&cs, 0, cs.len())
        },
        None => None,
    }
}

} // verus!
