//! Reading numbers and booleans from text, as `str::parse` reads them.
use vstd::prelude::*;
use crate::util::text::{digit_char, int_text, nat_text, str_equal};

verus! {

/// Whether `c` is an ASCII decimal digit.
pub open spec fn is_digit(c: char) -> bool {
    '0' <= c && c <= '9'
}

/// Every character is an ASCII decimal digit.
pub open spec fn all_digits(s: Seq<char>) -> bool {
    forall|i: int| 0 <= i < s.len() ==> #[trigger] is_digit(s[i])
}

/// The value of a digit.
pub open spec fn digit_value(c: char) -> nat {
    (c as int - '0' as int) as nat
}

/// The value of a text of decimal digits, read from the left.
pub open spec fn digits_value(s: Seq<char>) -> nat
    decreases s.len(),
{
    if s.len() == 0 {
        0
    } else {
        digits_value(s.drop_last()) * 10 + digit_value(s.last())
    }
}

/// The digits after an optional leading '+'.
pub open spec fn unsigned_digits(s: Seq<char>) -> Seq<char> {
    if s.len() > 0 && s[0] == '+' {
        s.skip(1)
    } else {
        s
    }
}

/// What `str::parse::<u32>` gives: an optional '+', then at least one ASCII
/// digit, of a value that fits in `u32`.
pub open spec fn parse_u32_spec(s: Seq<char>) -> Option<u32> {
    let t = unsigned_digits(s);
    if t.len() > 0 && all_digits(t) && digits_value(t) <= u32::MAX {
        Some(digits_value(t) as u32)
    } else {
        None
    }
}

/// What `str::parse::<bool>` gives: "true" or "false" exactly.
pub open spec fn parse_bool_spec(s: Seq<char>) -> Option<bool> {
    if s == "true"@ {
        Some(true)
    } else if s == "false"@ {
        Some(false)
    } else {
        None
    }
}

/// The value of a longer text of digits is at least that of its prefix.
proof fn lemma_digits_value_grows(s: Seq<char>, i: int)
    requires
        0 <= i <= s.len(),
    ensures
        digits_value(s) >= digits_value(s.take(i)),
    decreases s.len(),
{
    if i < s.len() {
        assert(s.drop_last().take(i) =~= s.take(i));
        lemma_digits_value_grows(s.drop_last(), i);
    } else {
        assert(s.take(i) =~= s);
    }
}

/// Reads an unsigned 32-bit number as `str::parse::<u32>` does.
pub fn parse_u32(s: &str) -> (r: Option<u32>)
    ensures
        r == parse_u32_spec(s@),
{
    let n = s.unicode_len();
    let mut i: usize = 0;
    if n > 0 && s.get_char(0) == '+' {
        i = 1;
    }
    let start = i;
    let ghost t = unsigned_digits(s@);
    proof {
        assert(t =~= s@.skip(start as int));
    }
    if start == n {
        proof {
            assert(t.len() == 0);
        }
        return None;
    }
    let mut acc: u64 = 0;
    while i < n
        invariant
            n == s@.len(),
            start <= i <= n,
            t == s@.skip(start as int),
            t == unsigned_digits(s@),
            forall|k: int| 0 <= k < i - start ==> #[trigger] is_digit(t[k]),
            acc == digits_value(t.take(i - start)),
            acc <= u32::MAX,
        decreases n - i,
    {
        let c = s.get_char(i);
        proof {
            assert(t[i - start] == s@[i as int]);
        }
        if !('0' <= c && c <= '9') {
            proof {
                assert(!is_digit(t[i - start]));
                assert(!all_digits(t));
                assert(unsigned_digits(s@) == t);
                assert(!all_digits(unsigned_digits(s@)));
                assert(parse_u32_spec(s@) is None);
            }
            return None;
        }
        let d: u64 = (c as u32 - '0' as u32) as u64;
        proof {
            let p = t.take(i - start + 1);
            assert(p.drop_last() =~= t.take(i - start));
            assert(p.last() == c);
        }
        acc = acc * 10 + d;
        proof {
            assert(d == digit_value(c));
            assert(acc == digits_value(t.take(i - start + 1)));
        }
        if acc > 4294967295u64 {
            proof {
                lemma_digits_value_grows(t, i - start + 1);
                assert(digits_value(t) > u32::MAX);
                assert(parse_u32_spec(s@) is None);
            }
            return None;
        }
        i = i + 1;
    }
    proof {
        assert(t.take(n - start) =~= t);
        assert(all_digits(t));
    }
    Some(acc as u32)
}

/// Reads a boolean as `str::parse::<bool>` does.
pub fn parse_bool(s: &str) -> (r: Option<bool>)
    ensures
        r == parse_bool_spec(s@),
{
    if str_equal(s, "true") {
        Some(true)
    } else if str_equal(s, "false") {
        Some(false)
    } else {
        None
    }
}

/// The sign and the digits of an integer text: a leading '+' is dropped,
/// and a leading '-' is taken as the sign where negative values are allowed.
pub open spec fn split_sign(s: Seq<char>, signed: bool) -> (bool, Seq<char>) {
    if s.len() > 0 && s[0] == '+' {
        (false, s.skip(1))
    } else if signed && s.len() > 0 && s[0] == '-' {
        (true, s.skip(1))
    } else {
        (false, s)
    }
}

/// What `str::parse` gives for an integer type whose values run from `min`
/// to `max`: an optional sign ('-' only where `min` is negative), then at
/// least one ASCII digit, of a value in range.
pub open spec fn parse_int_spec(s: Seq<char>, min: int, max: int) -> Option<int> {
    let (neg, t) = split_sign(s, min < 0);
    if t.len() > 0 && all_digits(t) {
        let v = if neg {
            -(digits_value(t) as int)
        } else {
            digits_value(t) as int
        };
        if min <= v && v <= max {
            Some(v)
        } else {
            None
        }
    } else {
        None
    }
}

/// Reads an integer as `str::parse` does for an integer type whose values
/// run from `min` to `max`.
pub fn parse_int(s: &str, min: i128, max: i128) -> (r: Option<i128>)
    requires
        -0x1_0000_0000_0000_0000 <= min <= 0 <= max <= 0xffff_ffff_ffff_ffff,
    ensures
        r matches Some(v) ==> parse_int_spec(s@, min as int, max as int) == Some(v as int),
        r is None ==> parse_int_spec(s@, min as int, max as int) is None,
{
    let n = s.unicode_len();
    let mut i: usize = 0;
    let mut neg = false;
    if n > 0 && s.get_char(0) == '+' {
        i = 1;
    } else if min < 0 && n > 0 && s.get_char(0) == '-' {
        i = 1;
        neg = true;
    }
    let start = i;
    let ghost t = split_sign(s@, min < 0).1;
    proof {
        assert(t =~= s@.skip(start as int));
        assert(neg == split_sign(s@, min < 0).0);
    }
    if start == n {
        proof {
            assert(t.len() == 0);
        }
        return None;
    }
    let mut acc: i128 = 0;
    while i < n
        invariant
            n == s@.len(),
            start <= i <= n,
            t == s@.skip(start as int),
            t == split_sign(s@, min < 0).1,
            neg == split_sign(s@, min < 0).0,
            -0x1_0000_0000_0000_0000 <= min <= 0 <= max <= 0xffff_ffff_ffff_ffff,
            forall|k: int| 0 <= k < i - start ==> #[trigger] is_digit(t[k]),
            acc == digits_value(t.take(i - start)),
            acc <= 0x1_0000_0000_0000_0000,
        decreases n - i,
    {
        let c = s.get_char(i);
        proof {
            assert(t[i - start] == s@[i as int]);
        }
        if !('0' <= c && c <= '9') {
            proof {
                assert(!is_digit(t[i - start]));
                assert(!all_digits(t));
            }
            return None;
        }
        let d: i128 = (c as u32 - '0' as u32) as i128;
        proof {
            let p = t.take(i - start + 1);
            assert(p.drop_last() =~= t.take(i - start));
            assert(p.last() == c);
        }
        acc = acc * 10 + d;
        proof {
            assert(d == digit_value(c));
            assert(acc == digits_value(t.take(i - start + 1)));
        }
        if acc > 0x1_0000_0000_0000_0000 {
            proof {
                lemma_digits_value_grows(t, i - start + 1);
            }
            return None;
        }
        i = i + 1;
    }
    proof {
        assert(t.take(n - start) =~= t);
        assert(all_digits(t));
    }
    let v = if neg {
        -acc
    } else {
        acc
    };
    if min <= v && v <= max {
        Some(v)
    } else {
        None
    }
}

/// The decimal text of a number is made of digits, starts with one, and
/// reads back as the number.
pub proof fn lemma_nat_text_reads_back(n: nat)
    ensures
        nat_text(n).len() > 0,
        all_digits(nat_text(n)),
        is_digit(nat_text(n)[0]),
        digits_value(nat_text(n)) == n,
    decreases n,
{
    if n < 10 {
        let s = nat_text(n);
        assert(s.drop_last() =~= Seq::<char>::empty());
        assert(digit_value(digit_char(n as int)) == n);
        assert(digits_value(s) == digits_value(s.drop_last()) * 10 + digit_value(s.last()));
        assert(digits_value(Seq::<char>::empty()) == 0);
    } else {
        lemma_nat_text_reads_back(n / 10);
        let s = nat_text(n);
        let p = nat_text(n / 10);
        assert(s == p.push(digit_char((n % 10) as int)));
        assert(s.drop_last() =~= p);
        assert(digit_value(digit_char((n % 10) as int)) == n % 10);
        assert(s[0] == p[0]);
        assert(digits_value(s) == digits_value(p) * 10 + digit_value(s.last()));
        assert((n / 10) * 10 + n % 10 == n) by (nonlinear_arith);
        assert forall|i: int| 0 <= i < s.len() implies #[trigger] is_digit(s[i]) by {
            if i < p.len() {
                assert(s[i] == p[i]);
            }
        }
    }
}

/// An integer written as decimal text (with '-' when negative) reads back,
/// as `str::parse` reads it, as the same integer, for any range that holds
/// it.
pub proof fn lemma_int_text_reads_back(v: int, min: int, max: int)
    requires
        min <= v <= max,
        min <= 0,
    ensures
        parse_int_spec(int_text(v), min, max) == Some(v),
{
    if v < 0 {
        let t = nat_text((-v) as nat);
        lemma_nat_text_reads_back((-v) as nat);
        assert(int_text(v) == seq!['-'] + t);
        assert((seq!['-'] + t).skip(1) =~= t);
        assert(split_sign(int_text(v), min < 0) == (true, t));
    } else {
        let t = nat_text(v as nat);
        lemma_nat_text_reads_back(v as nat);
        assert(int_text(v) == t);
        assert(t[0] != '+' && t[0] != '-');
        assert(split_sign(int_text(v), min < 0) == (false, t));
    }
}

} // verus!
