//! Decimal rendering and parsing of unsigned integers, as `to_string` and
//! `str::parse::<u32>` do them.

use vstd::prelude::*;

verus! {

/// The character of a decimal digit `d < 10`.
pub open spec fn digit_char(d: nat) -> char {
    if d == 0 {
        '0'
    } else if d == 1 {
        '1'
    } else if d == 2 {
        '2'
    } else if d == 3 {
        '3'
    } else if d == 4 {
        '4'
    } else if d == 5 {
        '5'
    } else if d == 6 {
        '6'
    } else if d == 7 {
        '7'
    } else if d == 8 {
        '8'
    } else {
        '9'
    }
}

/// Whether `c` is one of `0`..`9`.
pub open spec fn is_digit(c: char) -> bool {
    '0' <= c && c <= '9'
}

/// The value of a decimal digit character.
pub open spec fn digit_value(c: char) -> nat {
    ((c as u32) - ('0' as u32)) as nat
}

/// The decimal representation of `n`, without sign or leading zeros.
pub open spec fn decimal(n: nat) -> Seq<char>
    decreases n,
{
    if n < 10 {
        seq![digit_char(n)]
    } else {
        decimal(n / 10).push(digit_char(n % 10))
    }
}

/// Why a string is not the decimal form of a `u32`, as `core::num::IntErrorKind`
/// names the cases that can occur for an unsigned type.
#[derive(Debug, Clone, Copy, PartialEq, Eq, Structural)]
pub enum IntErrorKind {
    Empty,
    InvalidDigit,
    PosOverflow,
}

/// Scans digits left to right from the accumulated value `acc`; the first
/// character that is no digit, or the first step past `u32::MAX`, decides
/// the error.
pub open spec fn scan_digits(s: Seq<char>, acc: nat) -> Result<nat, IntErrorKind>
    decreases s.len(),
{
    if s.len() == 0 {
        Ok(acc)
    } else if !is_digit(s[0]) {
        Err(IntErrorKind::InvalidDigit)
    } else if acc * 10 + digit_value(s[0]) > u32::MAX {
        Err(IntErrorKind::PosOverflow)
    } else {
        scan_digits(s.drop_first(), acc * 10 + digit_value(s[0]))
    }
}

/// What `s.parse::<u32>()` returns: an optional `+`, then decimal digits.
pub open spec fn parse_u32_spec(s: Seq<char>) -> Result<u32, IntErrorKind> {
    if s.len() == 0 {
        Err(IntErrorKind::Empty)
    } else if s.len() == 1 && (s[0] == '+' || s[0] == '-') {
        Err(IntErrorKind::InvalidDigit)
    } else {
        let digits = if s[0] == '+' {
            s.drop_first()
        } else {
            s
        };
        match scan_digits(digits, 0) {
            Ok(v) => Ok(v as u32),
            Err(e) => Err(e),
        }
    }
}

fn digit_str(d: u64) -> (r: &'static str)
    requires
        d < 10,
    ensures
        r@ == seq![digit_char(d as nat)],
{
    proof {
        reveal_strlit("0");
        reveal_strlit("1");
        reveal_strlit("2");
        reveal_strlit("3");
        reveal_strlit("4");
        reveal_strlit("5");
        reveal_strlit("6");
        reveal_strlit("7");
        reveal_strlit("8");
        reveal_strlit("9");
    }
    if d == 0 {
        "0"
    } else if d == 1 {
        "1"
    } else if d == 2 {
        "2"
    } else if d == 3 {
        "3"
    } else if d == 4 {
        "4"
    } else if d == 5 {
        "5"
    } else if d == 6 {
        "6"
    } else if d == 7 {
        "7"
    } else if d == 8 {
        "8"
    } else {
        "9"
    }
}

/// The decimal text of `n`, as `n.to_string()` renders it.
pub fn u64_to_decimal(n: u64) -> (r: String)
    ensures
        r@ == decimal(n as nat),
{
    let mut s = String::from_str(digit_str(n % 10));
    let mut m: u64 = n / 10;
    while m > 0
        invariant
            decimal(n as nat) == (if m == 0 {
                Seq::<char>::empty()
            } else {
                decimal(m as nat)
            }) + s@,
        decreases m,
    {
        let d = String::from_str(digit_str(m % 10));
        let ghost old_s = s@;
        s = d.concat(s.as_str());
        assert(decimal(m as nat) =~= (if m / 10 == 0 {
            Seq::<char>::empty()
        } else {
            decimal((m / 10) as nat)
        }).push(digit_char((m % 10) as nat)));
        m = m / 10;
        assert(decimal(n as nat) =~= (if m == 0 {
            Seq::<char>::empty()
        } else {
            decimal(m as nat)
        }) + s@);
    }
    assert(decimal(n as nat) =~= s@);
    s
}

/// Parses `s` as `s.parse::<u32>()` does.
pub fn parse_u32(s: &str) -> (r: Result<u32, IntErrorKind>)
    ensures
        r == parse_u32_spec(s@),
{
    let n = s.unicode_len();
    if n == 0 {
        return Err(IntErrorKind::Empty);
    }
    let first = s.get_char(0);
    if n == 1 && (first == '+' || first == '-') {
        return Err(IntErrorKind::InvalidDigit);
    }
    let mut i: usize = if first == '+' {
        1
    } else {
        0
    };
    let ghost digits = if s@[0] == '+' {
        s@.drop_first()
    } else {
        s@
    };
    assert(digits =~= s@.subrange(i as int, n as int));
    let mut acc: u64 = 0;
    while i < n
        invariant
            n == s@.len(),
            i <= n,
            acc <= u32::MAX,
            parse_u32_spec(s@) == match scan_digits(digits, 0) {
                Ok(v) => Ok::<u32, IntErrorKind>(v as u32),
                Err(e) => Err(e),
            },
            scan_digits(digits, 0) == scan_digits(s@.subrange(i as int, n as int), acc as nat),
        decreases n - i,
    {
        let c = s.get_char(i);
        let ghost rest = s@.subrange(i as int, n as int);
        assert(rest[0] == c);
        if !('0' <= c && c <= '9') {
            return Err(IntErrorKind::InvalidDigit);
        }
        let d = (c as u32 - '0' as u32) as u64;
        if acc * 10 + d > 0xffff_ffff {
            return Err(IntErrorKind::PosOverflow);
        }
        assert(rest.drop_first() =~= s@.subrange(i + 1, n as int));
        acc = acc * 10 + d;
        i = i + 1;
    }
    assert(s@.subrange(n as int, n as int) =~= Seq::<char>::empty());
    Ok(acc as u32)
}


proof fn lemma_digit_char(d: nat)
    requires
        d < 10,
    ensures
        is_digit(digit_char(d)),
        digit_value(digit_char(d)) == d,
        !crate::text::is_white(digit_char(d)),
{
}

/// Every character of `decimal(n)` is a digit, and there is at least one.
pub proof fn lemma_decimal_digits(n: nat)
    ensures
        decimal(n).len() >= 1,
        forall|i: int| 0 <= i < decimal(n).len() ==> is_digit(#[trigger] decimal(n)[i]),
        forall|i: int| 0 <= i < decimal(n).len() ==> !crate::text::is_white(#[trigger] decimal(n)[i]),
    decreases n,
{
    if n < 10 {
        lemma_digit_char(n);
    } else {
        lemma_decimal_digits(n / 10);
        lemma_digit_char(n % 10);
    }
}

proof fn lemma_scan_push(s: Seq<char>, c: char, acc: nat)
    requires
        is_digit(c),
    ensures
        scan_digits(s.push(c), acc) == match scan_digits(s, acc) {
            Ok(v) => if v * 10 + digit_value(c) > u32::MAX {
                Err(IntErrorKind::PosOverflow)
            } else {
                Ok(v * 10 + digit_value(c))
            },
            Err(e) => Err(e),
        },
    decreases s.len(),
{
    reveal_with_fuel(scan_digits, 2);
    if s.len() == 0 {
        assert(s.push(c).drop_first() =~= Seq::<char>::empty());
    } else {
        assert(s.push(c)[0] == s[0]);
        assert(s.push(c).drop_first() =~= s.drop_first().push(c));
        if is_digit(s[0]) && acc * 10 + digit_value(s[0]) <= u32::MAX {
            lemma_scan_push(s.drop_first(), c, acc * 10 + digit_value(s[0]));
        }
    }
}

proof fn lemma_scan_decimal(n: nat)
    requires
        n <= u32::MAX,
    ensures
        scan_digits(decimal(n), 0) == Ok::<nat, IntErrorKind>(n),
    decreases n,
{
    lemma_digit_char(n % 10);
    reveal_with_fuel(scan_digits, 2);
    if n < 10 {
        assert(decimal(n).drop_first() =~= Seq::<char>::empty());
    } else {
        lemma_scan_decimal(n / 10);
        lemma_scan_push(decimal(n / 10), digit_char(n % 10), 0);
    }
}

/// Parsing the decimal text of a `u32` gives the number back.
pub proof fn lemma_parse_decimal(n: u32)
    ensures
        parse_u32_spec(decimal(n as nat)) == Ok::<u32, IntErrorKind>(n),
{
    lemma_decimal_digits(n as nat);
    lemma_scan_decimal(n as nat);
    assert(is_digit(decimal(n as nat)[0]));
}

} // verus!
