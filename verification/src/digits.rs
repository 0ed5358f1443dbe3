//! Rendering of small numbers as characters: decimal digits for OTP codes
//! and lowercase hexadecimal for viewing-key tokens.

use vstd::prelude::*;
use vstd::string::StringExecFns;

verus! {

/// The character for one digit value below 16: `'0'..'9'` then `'a'..'f'`.
pub open spec fn hex_digit_char(d: int) -> char {
    if d == 0 {
        '0'
    } else if d == 1 {
        '1'
    } else if d == 2 {
        '2'
    } else if d == 3 {
        '3'
    } else if d == 4 {
        '4'
    } else if d == 5 {
        '5'
    } else if d == 6 {
        '6'
    } else if d == 7 {
        '7'
    } else if d == 8 {
        '8'
    } else if d == 9 {
        '9'
    } else if d == 10 {
        'a'
    } else if d == 11 {
        'b'
    } else if d == 12 {
        'c'
    } else if d == 13 {
        'd'
    } else if d == 14 {
        'e'
    } else {
        'f'
    }
}

/// The lowercase hexadecimal rendering of a byte sequence: two characters
/// per byte, high nibble first.
pub open spec fn hex_of(bytes: Seq<u8>) -> Seq<char> {
    Seq::new(
        bytes.len() * 2,
        |i: int|
            if i % 2 == 0 {
                hex_digit_char((bytes[i / 2] / 16) as int)
            } else {
                hex_digit_char((bytes[i / 2] % 16) as int)
            },
    )
}

/// One digit value below 16 as a one-character string.
pub fn nibble_str(d: u8) -> (r: &'static str)
    requires
        d < 16,
    ensures
        r@.len() == 1,
        r@[0] == hex_digit_char(d as int),
{
    let r = if d == 0 {
        "0"
    } else if d == 1 {
        "1"
    } else if d == 2 {
        "2"
    } else if d == 3 {
        "3"
    } else if d == 4 {
        "4"
    } else if d == 5 {
        "5"
    } else if d == 6 {
        "6"
    } else if d == 7 {
        "7"
    } else if d == 8 {
        "8"
    } else if d == 9 {
        "9"
    } else if d == 10 {
        "a"
    } else if d == 11 {
        "b"
    } else if d == 12 {
        "c"
    } else if d == 13 {
        "d"
    } else if d == 14 {
        "e"
    } else {
        "f"
    };
    proof {
        reveal_strlit("0");
        reveal_strlit("1");
        reveal_strlit("2");
        reveal_strlit("3");
        reveal_strlit("4");
        reveal_strlit("5");
        reveal_strlit("6");
        reveal_strlit("7");
        reveal_strlit("8");
        reveal_strlit("9");
        reveal_strlit("a");
        reveal_strlit("b");
        reveal_strlit("c");
        reveal_strlit("d");
        reveal_strlit("e");
        reveal_strlit("f");
    }
    r
}

/// The lowercase hexadecimal rendering of `bytes`.
pub fn bytes_to_hex(bytes: &[u8]) -> (r: String)
    ensures
        r@ == hex_of(bytes@),
{
    let mut r = String::new();
    let mut i: usize = 0;
    while i < bytes.len()
        invariant
            i <= bytes@.len(),
            r@ =~= hex_of(bytes@.take(i as int)),
        decreases bytes@.len() - i,
    {
        let b = bytes[i];
        r.append(nibble_str(b / 16));
        r.append(nibble_str(b % 16));
        proof {
            assert(r@ =~= hex_of(bytes@.take(i as int + 1))) by {
                assert forall|j: int| 0 <= j < (i as int + 1) * 2 implies r@[j] == hex_of(
                    bytes@.take(i as int + 1),
                )[j] by {
                    if j < 2 * i {
                        assert(bytes@.take(i as int)[j / 2] == bytes@.take(i as int + 1)[j / 2]);
                    } else if j == 2 * i {
                        assert(j % 2 == 0 && j / 2 == i as int);
                    } else {
                        assert(j == 2 * i + 1 && j % 2 == 1 && j / 2 == i as int);
                    }
                }
            }
        }
        i = i + 1;
    }
    proof {
        assert(bytes@.take(bytes@.len() as int) =~= bytes@);
    }
    r
}

} // verus!
