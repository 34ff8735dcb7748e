//! Decimal text forms of the integer leaf types.
//!
//! `decimal_nat` and `decimal_int` are the mathematical models of the
//! canonical decimal form; the executable writers are proved to append
//! exactly that form to the output buffer. Numeric output never contains a
//! reserved character, so it is appended unescaped.

use vstd::prelude::*;
use crate::escaping::push_char;

verus! {

/// The character for one decimal digit.
pub open spec fn decimal_digit(d: nat) -> char {
    ((48 + d) as u8) as char
}

/// The canonical decimal form of a natural number, most significant digit
/// first, with no leading zeros (a lone zero for zero itself).
pub open spec fn decimal_nat(n: nat) -> Seq<char>
    decreases n,
{
    if n < 10 {
        seq![decimal_digit(n)]
    } else {
        decimal_nat(n / 10) + seq![decimal_digit(n % 10)]
    }
}

/// The canonical decimal form of an integer: a leading minus sign for a
/// negative value, then the decimal form of its magnitude.
pub open spec fn decimal_int(i: int) -> Seq<char> {
    if i < 0 {
        seq!['-'] + decimal_nat((-i) as nat)
    } else {
        decimal_nat(i as nat)
    }
}

/// Appends the decimal form of an unsigned value to the buffer.
pub fn push_decimal(n: u64, buffer: &mut String)
    ensures
        final(buffer)@ == old(buffer)@ + decimal_nat(n as nat),
    decreases n,
{
    if n >= 10 {
        push_decimal(n / 10, buffer);
    }
    let d: u8 = (n % 10) as u8 + 48;
    push_char(buffer, d as char);
    proof {
        assert(d as char == decimal_digit((n % 10) as nat));
        assert(buffer@ =~= old(buffer)@ + decimal_nat(n as nat));
    }
}

/// Appends the decimal form of a signed value to the buffer.
pub fn push_decimal_signed(i: i64, buffer: &mut String)
    ensures
        final(buffer)@ == old(buffer)@ + decimal_int(i as int),
{
    if i >= 0 {
        push_decimal(i as u64, buffer);
    } else {
        push_char(buffer, '-');
        let magnitude: u64 = if i == i64::MIN {
            9223372036854775808u64
        } else {
            (-i) as u64
        };
        assert(magnitude as nat == (-(i as int)) as nat);
        push_decimal(magnitude, buffer);
        assert(buffer@ =~= old(buffer)@ + decimal_int(i as int));
    }
}

} // verus!
