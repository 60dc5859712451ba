//! Decimal integer literals.

use vstd::prelude::*;
use vstd::string::*;

verus! {

/// An ASCII decimal digit.
pub open spec fn is_digit(byte: u8) -> bool {
    0x30 <= byte <= 0x39
}

/// Every byte is an ASCII decimal digit.
pub open spec fn all_digits(bytes: Seq<u8>) -> bool {
    forall|i: int| 0 <= i < bytes.len() ==> is_digit(#[trigger] bytes[i])
}

/// The number that a run of decimal digits denotes, most significant first.
pub open spec fn digits_value(bytes: Seq<u8>) -> int
    decreases bytes.len(),
{
    if bytes.len() == 0 {
        0
    } else {
        10 * digits_value(bytes.drop_last()) + (bytes.last() - 0x30)
    }
}

/// The value of an integer literal: defined for a non-empty run of ASCII
/// digits whose number fits in 128 signed bits.
pub open spec fn integer_of(bytes: Seq<u8>) -> Option<i128> {
    if bytes.len() > 0 && all_digits(bytes) && digits_value(bytes) <= i128::MAX {
        Some(digits_value(bytes) as i128)
    } else {
        None
    }
}

/// Reads an integer literal.
pub fn parse_integer(text: &str) -> (value: Option<i128>)
    ensures
        value == integer_of(text.spec_bytes()),
{
    let bytes = text.as_bytes();
    if bytes.len() == 0 {
        return None;
    }
    let mut overflow = false;
    let mut acc: i128 = 0;
    let mut i: usize = 0;
    while i < bytes.len()
        invariant
            i <= bytes.len(),
            bytes@ == text.spec_bytes(),
            all_digits(bytes@.subrange(0, i as int)),
            !overflow ==> acc == digits_value(bytes@.subrange(0, i as int)),
            overflow ==> digits_value(bytes@.subrange(0, i as int)) > i128::MAX,
            0 <= acc,
        decreases bytes.len() - i,
    {
        let byte = bytes[i];
        if byte < 0x30 || byte > 0x39 {
            assert(!is_digit(bytes@[i as int]));
            return None;
        }
        let digit: i128 = (byte - 0x30) as i128;
        proof {
            let next = bytes@.subrange(0, i + 1);
            assert(next.drop_last() =~= bytes@.subrange(0, i as int));
            assert(next.last() == byte);
            assert(all_digits(next)) by {
                assert forall|j: int| 0 <= j < next.len() implies is_digit(#[trigger] next[j]) by {
                    if j < i {
                        assert(bytes@.subrange(0, i as int)[j] == next[j]);
                    }
                }
            }
        }
        if overflow || acc > (i128::MAX - digit) / 10 {
            overflow = true;
        } else {
            acc = acc * 10 + digit;
        }
        i += 1;
    }
    assert(bytes@.subrange(0, i as int) =~= bytes@);
    if overflow {
        None
    } else {
        Some(acc)
    }
}

} // verus!
