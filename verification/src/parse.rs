//! Hexadecimal number parsing for console command arguments.
//!
//! Arguments arrive as byte strings such as `0x1F0`.  The parsers strip
//! repeated leading `0x` pairs, accept one optional leading plus sign,
//! and then read case-insensitive hexadecimal digits; an empty digit
//! string, a stray byte, or a value that does not fit the target width
//! is rejected.

use vstd::prelude::*;

verus! {

/// The numeric value of a hexadecimal digit byte, if it is one.
pub open spec fn hex_digit_value(b: u8) -> Option<u8> {
    if 48 <= b <= 57 {
        Some((b - 48) as u8)
    } else if 97 <= b <= 102 {
        Some((b - 87) as u8)
    } else if 65 <= b <= 70 {
        Some((b - 55) as u8)
    } else {
        None
    }
}

/// Every byte is a hexadecimal digit.
pub open spec fn all_hex_digits(s: Seq<u8>) -> bool {
    forall|i: int| 0 <= i < s.len() ==> hex_digit_value(s[i]) is Some
}

/// The number a digit string denotes, most significant digit first.
pub open spec fn hex_value(s: Seq<u8>) -> int
    decreases s.len(),
{
    if s.len() == 0 {
        0
    } else {
        hex_value(s.drop_last()) * 16 + hex_digit_value(s.last()).unwrap()
    }
}

/// The argument with every leading `0x` pair removed.
pub open spec fn strip_hex_prefix(s: Seq<u8>) -> Seq<u8>
    decreases s.len(),
{
    if s.len() >= 2 && s[0] == 48 && s[1] == 120 {
        strip_hex_prefix(s.subrange(2, s.len() as int))
    } else {
        s
    }
}

/// The digit part of an argument: the stripped string less one optional
/// leading plus sign.
pub open spec fn hex_digits_part(s: Seq<u8>) -> Seq<u8> {
    let t = strip_hex_prefix(s);
    if t.len() >= 1 && t[0] == 43 {
        t.drop_first()
    } else {
        t
    }
}

/// A digit string made of digits denotes a number that is not negative.
proof fn lemma_hex_value_nonneg(s: Seq<u8>)
    requires
        all_hex_digits(s),
    ensures
        hex_value(s) >= 0,
    decreases s.len(),
{
    if s.len() > 0 {
        assert forall|i: int| 0 <= i < s.drop_last().len() implies hex_digit_value(
            s.drop_last()[i],
        ) is Some by {
            assert(s.drop_last()[i] == s[i]);
        }
        lemma_hex_value_nonneg(s.drop_last());
        let hv = hex_value(s.drop_last());
        let d = hex_digit_value(s.last()).unwrap();
        assert(hv * 16 + d >= 0) by (nonlinear_arith)
            requires
                hv >= 0,
                d >= 0,
        ;
    }
}

/// The numeric value of a hexadecimal digit byte, if it is one.
fn hex_digit(b: u8) -> (r: Option<u8>)
    ensures
        r == hex_digit_value(b),
{
    if b >= 48 && b <= 57 {
        Some(b - 48)
    } else if b >= 97 && b <= 102 {
        Some(b - 87)
    } else if b >= 65 && b <= 70 {
        Some(b - 55)
    } else {
        None
    }
}

/// Parses a hexadecimal argument whose value must not exceed `max`.
fn parse_hex_bounded(s: &[u8], max: u64) -> (r: Option<u64>)
    ensures
        ({
            let digits = hex_digits_part(s@);
            &&& ((r is Some) <==> digits.len() >= 1 && all_hex_digits(digits)
                    && hex_value(digits) <= max)
            &&& (r matches Some(v) ==> v == hex_value(digits))
        }),
{
    let n = s.len();
    proof {
        assert(s@.subrange(0, n as int) =~= s@);
    }
    let mut i: usize = 0;
    while i < n && i + 1 < n && s[i] == 48 && s[i + 1] == 120
        invariant
            n == s@.len(),
            i <= n,
            strip_hex_prefix(s@) == strip_hex_prefix(s@.subrange(i as int, n as int)),
        decreases n - i,
    {
        proof {
            assert(s@.subrange(i as int, n as int).subrange(2, (n - i) as int) =~= s@.subrange(
                i as int + 2,
                n as int,
            ));
        }
        i = i + 2;
    }
    proof {
        assert(strip_hex_prefix(s@) == s@.subrange(i as int, n as int));
    }
    if i < n && s[i] == 43 {
        proof {
            assert(s@.subrange(i as int, n as int).drop_first() =~= s@.subrange(
                i as int + 1,
                n as int,
            ));
        }
        i = i + 1;
    }
    let ghost digits = s@.subrange(i as int, n as int);
    proof {
        assert(digits == hex_digits_part(s@));
    }
    if i == n {
        return None;
    }
    let start = i;
    let mut acc: u64 = 0;
    let mut over: bool = false;
    while i < n
        invariant
            n == s@.len(),
            start <= i <= n,
            start < n,
            digits == s@.subrange(start as int, n as int),
            digits == hex_digits_part(s@),
            digits.len() == n - start,
            forall|j: int| 0 <= j < i - start ==> hex_digit_value(digits[j]) is Some,
            !over ==> acc == hex_value(digits.take(i - start)) && acc <= max,
            over ==> hex_value(digits.take(i - start)) > max,
        decreases n - i,
    {
        match hex_digit(s[i]) {
            None => {
                proof {
                    assert(digits[i - start] == s@[i as int]);
                    assert(!all_hex_digits(digits));
                }
                return None;
            },
            Some(d) => {
                proof {
                    assert(digits.take(i - start + 1).drop_last() =~= digits.take(i - start));
                    assert(digits.take(i - start + 1).last() == digits[i - start]);
                    assert(digits[i - start] == s@[i as int]);
                }
                if over {
                    proof {
                        let hv = hex_value(digits.take(i - start));
                        assert(hv * 16 + d > max) by (nonlinear_arith)
                            requires
                                hv > max,
                                max >= 0,
                                d >= 0,
                        ;
                    }
                } else {
                    let wide: u128 = (acc as u128) * 16 + (d as u128);
                    if wide > max as u128 {
                        over = true;
                    } else {
                        acc = wide as u64;
                    }
                }
                i = i + 1;
            },
        }
    }
    proof {
        assert(digits.take(n - start) =~= digits);
        if !over {
            lemma_hex_value_nonneg(digits);
        }
    }
    if over {
        None
    } else {
        Some(acc)
    }
}

/// Parses a hexadecimal argument into a byte.
pub fn parse_hex_u8(s: &[u8]) -> (r: Option<u8>)
    ensures
        ({
            let digits = hex_digits_part(s@);
            &&& ((r is Some) <==> digits.len() >= 1 && all_hex_digits(digits)
                    && hex_value(digits) <= 0xFF)
            &&& (r matches Some(v) ==> v == hex_value(digits))
        }),
{
    match parse_hex_bounded(s, 0xFF) {
        Some(v) => Some(v as u8),
        None => None,
    }
}

/// Parses a hexadecimal argument into a 16-bit port number.
pub fn parse_hex_u16(s: &[u8]) -> (r: Option<u16>)
    ensures
        ({
            let digits = hex_digits_part(s@);
            &&& ((r is Some) <==> digits.len() >= 1 && all_hex_digits(digits)
                    && hex_value(digits) <= 0xFFFF)
            &&& (r matches Some(v) ==> v == hex_value(digits))
        }),
{
    match parse_hex_bounded(s, 0xFFFF) {
        Some(v) => Some(v as u16),
        None => None,
    }
}

/// Parses a hexadecimal argument into a 32-bit value such as a sector
/// index.
pub fn parse_hex_u32(s: &[u8]) -> (r: Option<u32>)
    ensures
        ({
            let digits = hex_digits_part(s@);
            &&& ((r is Some) <==> digits.len() >= 1 && all_hex_digits(digits)
                    && hex_value(digits) <= 0xFFFF_FFFF)
            &&& (r matches Some(v) ==> v == hex_value(digits))
        }),
{
    match parse_hex_bounded(s, 0xFFFF_FFFF) {
        Some(v) => Some(v as u32),
        None => None,
    }
}

/// Parses a hexadecimal argument into a 64-bit address.
pub fn parse_hex_u64(s: &[u8]) -> (r: Option<u64>)
    ensures
        ({
            let digits = hex_digits_part(s@);
            &&& ((r is Some) <==> digits.len() >= 1 && all_hex_digits(digits)
                    && hex_value(digits) <= 0xFFFF_FFFF_FFFF_FFFF)
            &&& (r matches Some(v) ==> v == hex_value(digits))
        }),
{
    parse_hex_bounded(s, 0xFFFF_FFFF_FFFF_FFFF)
}

} // verus!
