//! The calculator utility: evaluating `a op b` command lines.
//!
//! The expression arrives as the raw argument bytes.  It is split on
//! whitespace; the first and third tokens must be signed decimal
//! numbers and the second one of the four operators.  Addition,
//! subtraction and multiplication wrap around the 32-bit range, as the
//! kernel build of this arithmetic does; division is the one partial
//! operation, and both of its edge cases — a zero divisor and the
//! lone overflowing quotient — are reported instead of faulting.

use vstd::prelude::*;

verus! {

/// Bytes the tokenizer treats as whitespace.
pub open spec fn is_space(b: u8) -> bool {
    b == 32 || b == 9 || b == 10 || b == 13
}

/// Length of the token starting at the front of `s`.
pub open spec fn token_len(s: Seq<u8>) -> int
    decreases s.len(),
{
    if s.len() == 0 || is_space(s[0]) {
        0
    } else {
        1 + token_len(s.drop_first())
    }
}

/// The front token is never longer than the input.
pub proof fn lemma_token_len_bounds(s: Seq<u8>)
    ensures
        0 <= token_len(s) <= s.len(),
    decreases s.len(),
{
    if !(s.len() == 0 || is_space(s[0])) {
        lemma_token_len_bounds(s.drop_first());
    }
}

/// The whitespace-separated tokens of `s`, in order.
pub open spec fn spec_tokens(s: Seq<u8>) -> Seq<Seq<u8>>
    decreases s.len(),
{
    if s.len() == 0 {
        Seq::empty()
    } else if is_space(s[0]) {
        spec_tokens(s.drop_first())
    } else if 1 <= token_len(s) <= s.len() {
        seq![s.take(token_len(s))] + spec_tokens(s.skip(token_len(s)))
    } else {
        Seq::empty()
    }
}

/// Whether the byte is a decimal digit.
pub open spec fn is_digit(b: u8) -> bool {
    48 <= b <= 57
}

/// Every byte is a decimal digit.
pub open spec fn all_digits(s: Seq<u8>) -> bool {
    forall|i: int| 0 <= i < s.len() ==> is_digit(s[i])
}

/// The number a decimal digit string denotes.
pub open spec fn dec_value(s: Seq<u8>) -> int
    decreases s.len(),
{
    if s.len() == 0 {
        0
    } else {
        dec_value(s.drop_last()) * 10 + (s.last() - 48)
    }
}

/// A digit string denotes a number that is not negative.
proof fn lemma_dec_value_nonneg(s: Seq<u8>)
    requires
        all_digits(s),
    ensures
        dec_value(s) >= 0,
    decreases s.len(),
{
    if s.len() > 0 {
        assert forall|i: int| 0 <= i < s.drop_last().len() implies is_digit(s.drop_last()[i]) by {
            assert(s.drop_last()[i] == s[i]);
        }
        lemma_dec_value_nonneg(s.drop_last());
        let hv = dec_value(s.drop_last());
        let d = s.last() - 48;
        assert(hv * 10 + d >= 0) by (nonlinear_arith)
            requires
                hv >= 0,
                d >= 0,
        ;
    }
}

/// What a signed 32-bit decimal token parses to: one optional sign,
/// then at least one digit, and the value must fit.
pub open spec fn spec_parse_i32(s: Seq<u8>) -> Option<i32> {
    let negative = s.len() >= 1 && s[0] == 45;
    let digits = if s.len() >= 1 && (s[0] == 43 || s[0] == 45) {
        s.drop_first()
    } else {
        s
    };
    if digits.len() >= 1 && all_digits(digits) {
        if !negative && dec_value(digits) <= 0x7FFF_FFFF {
            Some(dec_value(digits) as i32)
        } else if negative && dec_value(digits) <= 0x8000_0000 {
            Some((0 - dec_value(digits)) as i32)
        } else {
            None
        }
    } else {
        None
    }
}

/// Why an expression did not evaluate.
#[derive(Clone, Copy, Debug, PartialEq, Eq, Structural)]
pub enum CalcError {
    /// A number token is missing, malformed, or out of range.
    InvalidNumber,
    /// Nothing follows the first number.
    MissingOperator,
    /// The divisor is zero.
    DivisionByZero,
    /// The operator token is none of `+ - * /`.
    UnknownOperator,
}

impl CalcError {
    /// The error line the console shows.
    pub fn message(&self) -> &'static str {
        match self {
            CalcError::InvalidNumber => "Invalid number",
            CalcError::MissingOperator => "Missing operator",
            CalcError::DivisionByZero => "Division by zero",
            CalcError::UnknownOperator => "Unknown operator",
        }
    }
}

/// Division of two fitting values never overflows but for the minimum
/// value divided by minus one.
proof fn lemma_checked_div_some(a: i32, b: i32)
    requires
        b != 0,
        !(a == i32::MIN && b == -1),
    ensures
        a.checked_div(b) is Some,
{
    let x = a as int;
    let d = b as int;
    if x == 0 {
    } else if x > 0 && d > 0 {
        assert(x / d <= x && x / d >= 0) by (nonlinear_arith)
            requires
                x >= 1,
                d >= 1,
        ;
    } else if x < 0 && d < 0 {
        if d == -1 {
            assert((x * -1) / (d * -1) == x * -1) by (nonlinear_arith)
                requires
                    d == -1,
            ;
        } else {
            assert((x * -1) / (d * -1) <= (x * -1) / 2 && (x * -1) / (d * -1) >= 0)
                by (nonlinear_arith)
                requires
                    x <= -1,
                    d <= -2,
            ;
            assert((x * -1) / 2 <= 0x4000_0000) by (nonlinear_arith)
                requires
                    x >= -0x8000_0000,
            ;
        }
    } else if x < 0 {
        assert((x * -1) / d <= (x * -1) && (x * -1) / d >= 0) by (nonlinear_arith)
            requires
                x <= -1,
                d >= 1,
        ;
    } else {
        assert(x / (d * -1) <= x && x / (d * -1) >= 0) by (nonlinear_arith)
            requires
                x >= 1,
                d <= -1,
        ;
    }
}

/// Whether the byte is tokenizer whitespace; executable mirror.
fn is_space_byte(b: u8) -> (r: bool)
    ensures
        r == is_space(b),
{
    b == 32 || b == 9 || b == 10 || b == 13
}

/// Splits the argument bytes into whitespace-separated tokens.
fn split_tokens(s: &[u8]) -> (r: Vec<Vec<u8>>)
    ensures
        r@.map_values(|t: Vec<u8>| t@) == spec_tokens(s@),
{
    let n = s.len();
    let mut out: Vec<Vec<u8>> = Vec::new();
    let mut i: usize = 0;
    proof {
        assert(s@.skip(0) =~= s@);
    }
    while i < n
        invariant
            n == s@.len(),
            i <= n,
            spec_tokens(s@) == out@.map_values(|t: Vec<u8>| t@) + spec_tokens(s@.skip(i as int)),
        decreases n - i,
    {
        if is_space_byte(s[i]) {
            proof {
                assert(s@.skip(i as int).drop_first() =~= s@.skip(i as int + 1));
            }
            i = i + 1;
        } else {
            let ghost from = i as int;
            let start = i;
            let mut tok: Vec<u8> = Vec::new();
            while i < n && !is_space_byte(s[i])
                invariant
                    n == s@.len(),
                    start <= i <= n,
                    from == start as int,
                    !is_space(s@[from]),
                    tok@ == s@.subrange(from, i as int),
                    token_len(s@.skip(from)) == (i - start) + token_len(s@.skip(i as int)),
                decreases n - i,
            {
                proof {
                    assert(s@.skip(i as int).drop_first() =~= s@.skip(i as int + 1));
                }
                tok.push(s[i]);
                i = i + 1;
            }
            proof {
                assert(token_len(s@.skip(i as int)) == 0);
                lemma_token_len_bounds(s@.skip(from));
                assert(s@.skip(from).take(i - start) =~= s@.subrange(from, i as int));
                assert(s@.skip(from).skip(i - start) =~= s@.skip(i as int));
                assert(out@.push(tok).map_values(|t: Vec<u8>| t@) =~= out@.map_values(
                    |t: Vec<u8>| t@,
                ).push(tok@));
                assert(spec_tokens(s@) =~= out@.push(tok).map_values(|t: Vec<u8>| t@)
                    + spec_tokens(s@.skip(i as int)));
            }
            out.push(tok);
        }
    }
    proof {
        assert(spec_tokens(s@.skip(n as int)) =~= Seq::<Seq<u8>>::empty());
        assert(out@.map_values(|t: Vec<u8>| t@) + spec_tokens(s@.skip(n as int))
            =~= out@.map_values(|t: Vec<u8>| t@));
    }
    out
}

/// Parses a signed 32-bit decimal token.
fn parse_i32(s: &[u8]) -> (r: Option<i32>)
    ensures
        r == spec_parse_i32(s@),
{
    let n = s.len();
    if n == 0 {
        return None;
    }
    let negative = s[0] == 45;
    let start: usize = if s[0] == 43 || s[0] == 45 {
        1
    } else {
        0
    };
    let ghost digits = s@.subrange(start as int, n as int);
    proof {
        if start == 1 {
            assert(digits =~= s@.drop_first());
        } else {
            assert(digits =~= s@);
        }
    }
    if start == n {
        return None;
    }
    let mut i: usize = start;
    let mut acc: u64 = 0;
    let mut over: bool = false;
    while i < n
        invariant
            n == s@.len(),
            n >= 1,
            start <= i <= n,
            start < n,
            negative == (s@[0] == 45),
            (start == 1 && (s@[0] == 43 || s@[0] == 45)) || (start == 0 && !(s@[0] == 43
                || s@[0] == 45)),
            digits == (if s@[0] == 43 || s@[0] == 45 {
                s@.drop_first()
            } else {
                s@
            }),
            digits == s@.subrange(start as int, n as int),
            digits.len() == n - start,
            forall|j: int| 0 <= j < i - start ==> is_digit(digits[j]),
            !over ==> acc == dec_value(digits.take(i - start)) && acc <= 0x8000_0000,
            over ==> dec_value(digits.take(i - start)) > 0x8000_0000,
        decreases n - i,
    {
        let b = s[i];
        if b < 48 || b > 57 {
            proof {
                assert(digits[i - start] == s@[i as int]);
                assert(!all_digits(digits));
            }
            return None;
        }
        let d = b - 48;
        proof {
            assert(digits.take(i - start + 1).drop_last() =~= digits.take(i - start));
            assert(digits.take(i - start + 1).last() == digits[i - start]);
            assert(digits[i - start] == s@[i as int]);
        }
        if over {
            proof {
                let hv = dec_value(digits.take(i - start));
                assert(hv * 10 + d > 0x8000_0000) by (nonlinear_arith)
                    requires
                        hv > 0x8000_0000,
                        d >= 0,
                ;
            }
        } else {
            let wide: u64 = acc * 10 + (d as u64);
            if wide > 0x8000_0000 {
                over = true;
            } else {
                acc = wide;
            }
        }
        i = i + 1;
    }
    proof {
        assert(digits.take(n - start) =~= digits);
        if !over {
            lemma_dec_value_nonneg(digits);
        }
    }
    if over {
        None
    } else if !negative {
        if acc <= 0x7FFF_FFFF {
            Some(acc as i32)
        } else {
            None
        }
    } else {
        Some((0i64 - acc as i64) as i32)
    }
}

/// Evaluates `a op b`: the first three whitespace-separated tokens of
/// the expression; anything after them is ignored, as the console
/// always did.  Addition, subtraction and multiplication wrap; division
/// rejects a zero divisor, and the one overflowing quotient (the
/// minimum value divided by minus one) wraps back to the minimum.
pub fn evaluate_expression(expr: &[u8]) -> (r: Result<i32, CalcError>)
    ensures
        ({
            let toks = spec_tokens(expr@);
            let a = if toks.len() >= 1 {
                spec_parse_i32(toks[0])
            } else {
                Option::<i32>::None
            };
            let b = if toks.len() >= 3 {
                spec_parse_i32(toks[2])
            } else {
                Option::<i32>::None
            };
            &&& (a is None ==> r == Err::<i32, CalcError>(CalcError::InvalidNumber))
            &&& (a is Some && toks.len() < 2 ==> r == Err::<i32, CalcError>(
                CalcError::MissingOperator,
            ))
            &&& (a is Some && toks.len() >= 2 && b is None ==> r == Err::<i32, CalcError>(
                CalcError::InvalidNumber,
            ))
            &&& (a is Some && toks.len() >= 2 && b is Some ==> ({
                let av = a.unwrap();
                let bv = b.unwrap();
                let op = toks[1];
                &&& (op.len() == 1 && op[0] == 43 ==> r == Ok::<i32, CalcError>(
                    av.wrapping_add(bv),
                ))
                &&& (op.len() == 1 && op[0] == 45 ==> r == Ok::<i32, CalcError>(
                    av.wrapping_sub(bv),
                ))
                &&& (op.len() == 1 && op[0] == 42 ==> r == Ok::<i32, CalcError>(
                    av.wrapping_mul(bv),
                ))
                &&& (op.len() == 1 && op[0] == 47 && bv == 0 ==> r == Err::<i32, CalcError>(
                    CalcError::DivisionByZero,
                ))
                &&& (op.len() == 1 && op[0] == 47 && bv != 0 ==> r == Ok::<i32, CalcError>(
                    if av == i32::MIN && bv == -1 {
                        i32::MIN
                    } else {
                        av.checked_div(bv).unwrap()
                    },
                ))
                &&& (!(op.len() == 1 && (op[0] == 43 || op[0] == 45 || op[0] == 42 || op[0] == 47))
                    ==> r == Err::<i32, CalcError>(CalcError::UnknownOperator))
            }))
        }),
{
    let tokens = split_tokens(expr);
    proof {
        let toks = spec_tokens(expr@);
        assert(toks.len() == tokens@.len());
        if tokens@.len() >= 1 {
            assert(toks[0] == tokens@[0]@);
        }
        if tokens@.len() >= 2 {
            assert(toks[1] == tokens@[1]@);
        }
        if tokens@.len() >= 3 {
            assert(toks[2] == tokens@[2]@);
        }
    }
    if tokens.len() == 0 {
        return Err(CalcError::InvalidNumber);
    }
    let a = match parse_i32(tokens[0].as_slice()) {
        Some(v) => v,
        None => {
            return Err(CalcError::InvalidNumber);
        },
    };
    if tokens.len() < 2 {
        return Err(CalcError::MissingOperator);
    }
    let b = if tokens.len() >= 3 {
        match parse_i32(tokens[2].as_slice()) {
            Some(v) => v,
            None => {
                return Err(CalcError::InvalidNumber);
            },
        }
    } else {
        return Err(CalcError::InvalidNumber);
    };
    let op = &tokens[1];
    if op.len() != 1 {
        return Err(CalcError::UnknownOperator);
    }
    let o = op[0];
    if o == 43 {
        Ok(a.wrapping_add(b))
    } else if o == 45 {
        Ok(a.wrapping_sub(b))
    } else if o == 42 {
        Ok(a.wrapping_mul(b))
    } else if o == 47 {
        if b == 0 {
            Err(CalcError::DivisionByZero)
        } else if a == i32::MIN && b == -1 {
            Ok(i32::MIN)
        } else {
            proof {
                lemma_checked_div_some(a, b);
            }
            match a.checked_div(b) {
                Some(q) => Ok(q),
                None => Err(CalcError::DivisionByZero),
            }
        }
    } else {
        Err(CalcError::UnknownOperator)
    }
}

} // verus!
