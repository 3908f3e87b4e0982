//! Decimal rendering and parsing of the integers that travel on the wire.
//!
//! The wire protocol carries file identifiers (`i32`) and cursor coordinates
//! (`u32`) as decimal tokens. Parsing accepts an optional leading sign
//! followed by one or more ASCII digits, with the value in range of the
//! target type; everything else is rejected.

use vstd::prelude::*;

verus! {

pub open spec fn is_ascii_digit_char(c: char) -> bool {
    c == '0' || c == '1' || c == '2' || c == '3' || c == '4' || c == '5' || c == '6' || c == '7'
        || c == '8' || c == '9'
}

pub open spec fn digit_value(c: char) -> nat {
    if c == '0' {
        0
    } else if c == '1' {
        1
    } else if c == '2' {
        2
    } else if c == '3' {
        3
    } else if c == '4' {
        4
    } else if c == '5' {
        5
    } else if c == '6' {
        6
    } else if c == '7' {
        7
    } else if c == '8' {
        8
    } else {
        9
    }
}

pub open spec fn digit_char(d: nat) -> char {
    if d == 0 {
        '0'
    } else if d == 1 {
        '1'
    } else if d == 2 {
        '2'
    } else if d == 3 {
        '3'
    } else if d == 4 {
        '4'
    } else if d == 5 {
        '5'
    } else if d == 6 {
        '6'
    } else if d == 7 {
        '7'
    } else if d == 8 {
        '8'
    } else {
        '9'
    }
}

pub open spec fn all_digits(s: Seq<char>) -> bool {
    forall|i: int| 0 <= i < s.len() ==> is_ascii_digit_char(#[trigger] s[i])
}

/// The numeric value of a sequence of ASCII digits, most significant first.
pub open spec fn digits_to_nat(s: Seq<char>) -> nat
    decreases s.len(),
{
    if s.len() == 0 {
        0
    } else {
        digits_to_nat(s.drop_last()) * 10 + digit_value(s.last())
    }
}

/// The canonical decimal rendering of a natural number: no sign, no
/// leading zeros (except for zero itself).
pub open spec fn nat_to_digits(n: nat) -> Seq<char>
    decreases n,
{
    if n < 10 {
        seq![digit_char(n)]
    } else {
        nat_to_digits(n / 10).push(digit_char(n % 10))
    }
}

/// The decimal rendering of an `i32`: a `-` sign for negative values,
/// then the magnitude.
pub open spec fn spec_i32_to_dec(v: i32) -> Seq<char> {
    if v >= 0 {
        nat_to_digits(v as nat)
    } else {
        seq!['-'] + nat_to_digits((-(v as int)) as nat)
    }
}

/// What `str::parse::<u32>` accepts: an optional `+`, then one or more
/// digits, with the value at most `u32::MAX`.
pub open spec fn spec_parse_u32(s: Seq<char>) -> Option<u32> {
    let body = if s.len() > 0 && s[0] == '+' {
        s.skip(1)
    } else {
        s
    };
    if body.len() > 0 && all_digits(body) && digits_to_nat(body) <= u32::MAX {
        Some(digits_to_nat(body) as u32)
    } else {
        None
    }
}

/// What `str::parse::<i32>` accepts: an optional sign, then one or more
/// digits, with the value in `i32` range.
pub open spec fn spec_parse_i32(s: Seq<char>) -> Option<i32> {
    if s.len() > 0 && s[0] == '-' {
        let body = s.skip(1);
        if body.len() > 0 && all_digits(body) && digits_to_nat(body) <= 0x8000_0000 {
            Some((-(digits_to_nat(body) as int)) as i32)
        } else {
            None
        }
    } else {
        let body = if s.len() > 0 && s[0] == '+' {
            s.skip(1)
        } else {
            s
        };
        if body.len() > 0 && all_digits(body) && digits_to_nat(body) <= i32::MAX {
            Some(digits_to_nat(body) as i32)
        } else {
            None
        }
    }
}

/// Parses the digit run `s[start..]` as a natural number of at most `cap`.
/// Returns `None` when the run is empty, contains a non-digit, or exceeds
/// `cap`.
fn parse_magnitude(s: &str, start: usize, cap: u64) -> (r: Option<u64>)
    requires
        start <= s@.len(),
        cap <= 0xFFFF_FFFF_FFFF,
    ensures
        match r {
            Some(v) => {
                &&& s@.skip(start as int).len() > 0
                &&& all_digits(s@.skip(start as int))
                &&& digits_to_nat(s@.skip(start as int)) == v
                &&& v <= cap
            },
            None => {
                ||| s@.skip(start as int).len() == 0
                ||| !all_digits(s@.skip(start as int))
                ||| digits_to_nat(s@.skip(start as int)) > cap
            },
        },
{
    let n: usize = s.unicode_len();
    if start == n {
        assert(s@.skip(start as int).len() == 0);
        return None;
    }
    let mut i: usize = start;
    let mut acc: u64 = 0;
    let mut too_big: bool = false;
    while i < n
        invariant
            start <= i <= n,
            n == s@.len(),
            cap <= 0xFFFF_FFFF_FFFF,
            all_digits(s@.subrange(start as int, i as int)),
            !too_big ==> acc == digits_to_nat(s@.subrange(start as int, i as int)) && acc <= cap,
            too_big ==> digits_to_nat(s@.subrange(start as int, i as int)) > cap,
        decreases n - i,
    {
        let ghost pref = s@.subrange(start as int, i as int);
        let c = s.get_char(i);
        let d: u64 = match c {
            '0' => 0,
            '1' => 1,
            '2' => 2,
            '3' => 3,
            '4' => 4,
            '5' => 5,
            '6' => 6,
            '7' => 7,
            '8' => 8,
            '9' => 9,
            _ => {
                assert(!is_ascii_digit_char(s@.skip(start as int)[i - start]));
                return None;
            },
        };
        let ghost pref2 = s@.subrange(start as int, i + 1 as int);
        proof {
            assert(pref2.drop_last() =~= pref);
            assert(pref2.last() == c);
            assert(digit_value(c) == d);
            assert(digits_to_nat(pref2) == digits_to_nat(pref) * 10 + d);
        }
        if too_big {
            proof {
                assert(digits_to_nat(pref2) >= digits_to_nat(pref) * 10);
                assert(digits_to_nat(pref) * 10 >= digits_to_nat(pref)) by (nonlinear_arith)
                    requires digits_to_nat(pref) >= 0;
            }
        } else {
            acc = acc * 10 + d;
            if acc > cap {
                too_big = true;
            }
        }
        i = i + 1;
    }
    proof {
        assert(s@.subrange(start as int, n as int) =~= s@.skip(start as int));
    }
    if too_big {
        None
    } else {
        Some(acc)
    }
}

/// Parses a decimal `u32` token exactly as `str::parse::<u32>` would.
pub fn parse_u32(s: &str) -> (r: Option<u32>)
    ensures
        r == spec_parse_u32(s@),
{
    let n: usize = s.unicode_len();
    if n == 0 {
        return None;
    }
    let c0 = s.get_char(0);
    let start: usize = if c0 == '+' {
        1
    } else {
        0
    };
    proof {
        if c0 == '+' {
            assert(s@.skip(1) == s@.skip(start as int));
        } else {
            assert(s@.skip(0) =~= s@);
        }
    }
    match parse_magnitude(s, start, 0xFFFF_FFFF) {
        Some(v) => Some(v as u32),
        None => None,
    }
}

/// Parses a decimal `i32` token exactly as `str::parse::<i32>` would.
pub fn parse_i32(s: &str) -> (r: Option<i32>)
    ensures
        r == spec_parse_i32(s@),
{
    let n: usize = s.unicode_len();
    if n == 0 {
        return None;
    }
    let c0 = s.get_char(0);
    if c0 == '-' {
        match parse_magnitude(s, 1, 0x8000_0000) {
            Some(v) => {
                let w: i64 = -(v as i64);
                Some(w as i32)
            },
            None => None,
        }
    } else {
        let start: usize = if c0 == '+' {
            1
        } else {
            0
        };
        proof {
            if c0 != '+' {
                assert(s@.skip(0) =~= s@);
            }
        }
        match parse_magnitude(s, start, 0x7FFF_FFFF) {
            Some(v) => Some(v as i32),
            None => None,
        }
    }
}

/// The one-character string for a decimal digit.
fn digit_to_str(d: u64) -> (r: &'static str)
    requires
        d < 10,
    ensures
        r@ =~= seq![digit_char(d as nat)],
{
    proof {
        reveal_strlit("0");
        reveal_strlit("1");
        reveal_strlit("2");
        reveal_strlit("3");
        reveal_strlit("4");
        reveal_strlit("5");
        reveal_strlit("6");
        reveal_strlit("7");
        reveal_strlit("8");
        reveal_strlit("9");
    }
    match d {
        0 => "0",
        1 => "1",
        2 => "2",
        3 => "3",
        4 => "4",
        5 => "5",
        6 => "6",
        7 => "7",
        8 => "8",
        _ => "9",
    }
}

/// Renders a `u64` in decimal.
pub fn u64_to_dec(n: u64) -> (r: String)
    ensures
        r@ == nat_to_digits(n as nat),
    decreases n,
{
    if n < 10 {
        digit_to_str(n).to_owned()
    } else {
        let mut s = u64_to_dec(n / 10);
        s.append(digit_to_str(n % 10));
        proof {
            assert(nat_to_digits((n / 10) as nat) + seq![digit_char((n % 10) as nat)]
                =~= nat_to_digits((n / 10) as nat).push(digit_char((n % 10) as nat)));
        }
        s
    }
}

/// Renders a `u32` in decimal.
pub fn u32_to_dec(v: u32) -> (r: String)
    ensures
        r@ == nat_to_digits(v as nat),
{
    u64_to_dec(v as u64)
}

/// Renders an `i32` in decimal, with a `-` sign for negative values.
pub fn i32_to_dec(v: i32) -> (r: String)
    ensures
        r@ == spec_i32_to_dec(v),
{
    if v >= 0 {
        u64_to_dec(v as u64)
    } else {
        proof {
            reveal_strlit("-");
            assert("-"@ =~= seq!['-']);
        }
        let m: u64 = (-(v as i64)) as u64;
        let mut s = String::from_str("-");
        let tail = u64_to_dec(m);
        s.append(tail.as_str());
        s
    }
}

/// The canonical rendering is made of digits only, is never empty, and
/// parses back to the number it came from.
pub proof fn lemma_digits_roundtrip(n: nat)
    ensures
        nat_to_digits(n).len() >= 1,
        all_digits(nat_to_digits(n)),
        digits_to_nat(nat_to_digits(n)) == n,
    decreases n,
{
    if n < 10 {
        let s = nat_to_digits(n);
        assert(s =~= seq![digit_char(n)]);
        assert(s.len() == 1);
        assert(s.last() == digit_char(n));
        assert(digits_to_nat(s) == digits_to_nat(s.drop_last()) * 10 + digit_value(s.last()));
        assert(s.drop_last() =~= Seq::<char>::empty());
        assert(digits_to_nat(s.drop_last()) == 0);
        assert(digit_value(digit_char(n)) == n);
    } else {
        lemma_digits_roundtrip(n / 10);
        let p = nat_to_digits(n / 10);
        let s = nat_to_digits(n);
        assert(s == p.push(digit_char(n % 10)));
        assert(s.drop_last() =~= p);
        assert(s.last() == digit_char(n % 10));
        assert(digits_to_nat(s) == digits_to_nat(p) * 10 + digit_value(digit_char(n % 10)));
        assert(digit_value(digit_char(n % 10)) == n % 10);
        assert((n / 10) * 10 + n % 10 == n);
        assert(forall|i: int| 0 <= i < s.len() ==> is_ascii_digit_char(#[trigger] s[i])) by {
            assert(forall|i: int| 0 <= i < p.len() ==> is_ascii_digit_char(#[trigger] p[i]));
            assert(forall|i: int| 0 <= i < s.len() ==> s[i] == (if i < p.len() {
                p[i]
            } else {
                digit_char(n % 10)
            }));
        }
    }
}

/// A rendered `i32` parses back to the same value.
pub proof fn lemma_parse_of_i32_dec(v: i32)
    ensures
        spec_parse_i32(spec_i32_to_dec(v)) == Some(v),
{
    if v >= 0 {
        lemma_digits_roundtrip(v as nat);
        let s = spec_i32_to_dec(v);
        assert(is_ascii_digit_char(s[0]));
        assert(s[0] != '-' && s[0] != '+');
    } else {
        let m = (-(v as int)) as nat;
        lemma_digits_roundtrip(m);
        let s = spec_i32_to_dec(v);
        assert(s == seq!['-'] + nat_to_digits(m));
        assert(s[0] == '-');
        assert(s.skip(1) =~= nat_to_digits(m));
        assert(m <= 0x8000_0000);
    }
}

/// A rendered `u32` parses back to the same value.
pub proof fn lemma_parse_of_u32_dec(v: u32)
    ensures
        spec_parse_u32(nat_to_digits(v as nat)) == Some(v),
{
    lemma_digits_roundtrip(v as nat);
    let s = nat_to_digits(v as nat);
    assert(is_ascii_digit_char(s[0]));
    assert(s[0] != '+');
}

/// Digit runs never contain a separator character such as a space.
pub proof fn lemma_digits_contain_no_space(s: Seq<char>)
    requires
        all_digits(s),
    ensures
        !s.contains(' '),
{
    assert forall|i: int| 0 <= i < s.len() implies s[i] != ' ' by {
        assert(is_ascii_digit_char(s[i]));
    }
    if s.contains(' ') {
        let i = choose|i: int| 0 <= i < s.len() && s[i] == ' ';
        assert(s[i] != ' ');
    }
}

} // verus!
