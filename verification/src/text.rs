//! Verified text helpers: uppercase hexadecimal and decimal rendering
//! used by the state and memory dumps and the disassembler.

use vstd::prelude::*;
use vstd::string::StringExecFns;

verus! {

/// The sixteen uppercase hexadecimal digit characters, in value order.
pub open spec fn hex_digit_chars() -> Seq<char> {
    seq![
        '0',
        '1',
        '2',
        '3',
        '4',
        '5',
        '6',
        '7',
        '8',
        '9',
        'A',
        'B',
        'C',
        'D',
        'E',
        'F',
    ]
}

/// The uppercase hexadecimal digit for a value below sixteen.
pub open spec fn hex_digit(n: int) -> char {
    hex_digit_chars()[n]
}

/// The four uppercase hexadecimal digits of a word, highest nibble
/// first.
pub open spec fn hex4_chars(w: u16) -> Seq<char> {
    seq![
        hex_digit(((w >> 12) & 0xF) as int),
        hex_digit(((w >> 8) & 0xF) as int),
        hex_digit(((w >> 4) & 0xF) as int),
        hex_digit((w & 0xF) as int),
    ]
}

/// The two uppercase hexadecimal digits of a byte, high nibble first.
pub open spec fn hex2_chars(b: u8) -> Seq<char> {
    seq![hex_digit(((b >> 4) & 0xF) as int), hex_digit((b & 0xF) as int)]
}

/// Every nibble extracted from a word or byte is below sixteen.
pub proof fn lemma_nibbles_bounded(w: u16, b: u8)
    ensures
        (w >> 12) & 0xF < 16,
        (w >> 8) & 0xF < 16,
        (w >> 4) & 0xF < 16,
        w & 0xF < 16,
        (b >> 4) & 0xF < 16,
        b & 0xF < 16,
{
    assert((w >> 12) & 0xF < 16 && (w >> 8) & 0xF < 16 && (w >> 4) & 0xF < 16 && w & 0xF < 16)
        by (bit_vector);
    assert((b >> 4) & 0xF < 16 && b & 0xF < 16) by (bit_vector);
}

/// The one-character string for an uppercase hexadecimal digit.
pub fn hex_digit_str(n: u16) -> (r: &'static str)
    requires
        n < 16,
    ensures
        r@ =~= seq![hex_digit(n as int)],
{
    match n {
        0 => {
            proof {
                reveal_strlit("0");
            }
            "0"
        },
        1 => {
            proof {
                reveal_strlit("1");
            }
            "1"
        },
        2 => {
            proof {
                reveal_strlit("2");
            }
            "2"
        },
        3 => {
            proof {
                reveal_strlit("3");
            }
            "3"
        },
        4 => {
            proof {
                reveal_strlit("4");
            }
            "4"
        },
        5 => {
            proof {
                reveal_strlit("5");
            }
            "5"
        },
        6 => {
            proof {
                reveal_strlit("6");
            }
            "6"
        },
        7 => {
            proof {
                reveal_strlit("7");
            }
            "7"
        },
        8 => {
            proof {
                reveal_strlit("8");
            }
            "8"
        },
        9 => {
            proof {
                reveal_strlit("9");
            }
            "9"
        },
        10 => {
            proof {
                reveal_strlit("A");
            }
            "A"
        },
        11 => {
            proof {
                reveal_strlit("B");
            }
            "B"
        },
        12 => {
            proof {
                reveal_strlit("C");
            }
            "C"
        },
        13 => {
            proof {
                reveal_strlit("D");
            }
            "D"
        },
        14 => {
            proof {
                reveal_strlit("E");
            }
            "E"
        },
        _ => {
            proof {
                reveal_strlit("F");
            }
            "F"
        },
    }
}

/// Appends the four uppercase hexadecimal digits of `w` to `out`.
pub fn push_hex4(out: &mut String, w: u16)
    ensures
        final(out)@ == old(out)@ + hex4_chars(w),
{
    proof {
        lemma_nibbles_bounded(w, 0);
    }
    out.append(hex_digit_str((w >> 12) & 0xF));
    out.append(hex_digit_str((w >> 8) & 0xF));
    out.append(hex_digit_str((w >> 4) & 0xF));
    out.append(hex_digit_str(w & 0xF));
    proof {
        assert(final(out)@ =~= old(out)@ + hex4_chars(w));
    }
}

/// Appends the two uppercase hexadecimal digits of `b` to `out`.
pub fn push_hex2(out: &mut String, b: u8)
    ensures
        final(out)@ == old(out)@ + hex2_chars(b),
{
    proof {
        lemma_nibbles_bounded(0, b);
    }
    out.append(hex_digit_str(((b >> 4) & 0xF) as u16));
    out.append(hex_digit_str((b & 0xF) as u16));
    proof {
        assert(final(out)@ =~= old(out)@ + hex2_chars(b));
    }
}

/// The four-digit uppercase hexadecimal rendering of a word.
pub fn hex4(w: u16) -> (r: String)
    ensures
        r@ == hex4_chars(w),
{
    let mut s = String::new();
    push_hex4(&mut s, w);
    proof {
        assert(s@ =~= hex4_chars(w));
    }
    s
}

/// The printable rendering of a byte: itself for printable ASCII, a
/// dot otherwise.
pub open spec fn byte_ascii_char(b: u8) -> char {
    if 0x20 <= b <= 0x7E {
        b as char
    } else {
        '.'
    }
}

/// The printable rendering of a byte, for dump output.
pub fn byte_ascii(b: u8) -> (r: char)
    ensures
        r == byte_ascii_char(b),
{
    if 0x20 <= b && b <= 0x7E {
        b as char
    } else {
        '.'
    }
}

/// Relies on `str::chars` and `Iterator::collect`: the characters of a
/// string slice, in order, as a vector.
#[verifier::external_body]
pub fn str_chars(s: &str) -> (r: Vec<char>)
    ensures
        r@ == s@,
{
    s.chars().collect()
}

/// Relies on `Iterator::collect` for `String`: the characters of the
/// vector, in order, as an owned string.
#[verifier::external_body]
pub fn chars_string(v: &Vec<char>) -> (r: String)
    ensures
        r@ == v@,
{
    v.iter().collect()
}

/// The decimal digit characters of `n`, most significant first, with no
/// leading zero except for zero itself.
pub open spec fn dec_chars(n: nat) -> Seq<char>
    decreases n,
{
    if n < 10 {
        seq![hex_digit(n as int)]
    } else {
        dec_chars(n / 10).push(hex_digit((n % 10) as int))
    }
}

/// Appends the decimal rendering of `n` to `out`.
pub fn push_dec_u64(out: &mut String, n: u64)
    ensures
        final(out)@ == old(out)@ + dec_chars(n as nat),
    decreases n,
{
    if n < 10 {
        out.append(hex_digit_str((n % 16) as u16));
        proof {
            assert(final(out)@ =~= old(out)@ + dec_chars(n as nat));
        }
    } else {
        push_dec_u64(out, n / 10);
        out.append(hex_digit_str((n % 10) as u16));
        proof {
            assert(final(out)@ =~= old(out)@ + dec_chars(n as nat));
        }
    }
}

/// The decimal rendering of `n`.
pub fn dec_u64(n: u64) -> (r: String)
    ensures
        r@ == dec_chars(n as nat),
{
    let mut s = String::new();
    push_dec_u64(&mut s, n);
    proof {
        assert(s@ =~= dec_chars(n as nat));
    }
    s
}

} // verus!
