//! Decimal rendering of integers, used for the host model's number-to-string
//! coercion and for the argument-count mismatch message, and the
//! transcodings between the model's text and its Latin-1 and UTF-16
//! byte forms.

use vstd::prelude::*;
use vstd::utf8::char_is_scalar;
use vstd::utf8::char_u32_cast;

verus! {

/// Relies on String::push: appends exactly the given character.
#[verifier::external_body]
fn push_char(s: &mut String, c: char)
    ensures
        final(s)@ == old(s)@.push(c),
{
    s.push(c);
}

/// Relies on char::from_u32: it returns the character with the given
/// scalar value whenever that value is below the surrogate range or
/// between it and the top of the Unicode range, which the precondition
/// pins down, so the unwrap cannot fail.
#[verifier::external_body]
fn char_from_scalar(u: u32) -> (c: char)
    requires
        u < 0xD800 || (0xE000 <= u && u <= 0x10FFFF),
    ensures
        c as u32 == u,
{
    char::from_u32(u).unwrap()
}

/// The decimal digit character for `n` (only meaningful for `n < 10`).
pub open spec fn digit_char(n: nat) -> char {
    if n == 0 {
        '0'
    } else if n == 1 {
        '1'
    } else if n == 2 {
        '2'
    } else if n == 3 {
        '3'
    } else if n == 4 {
        '4'
    } else if n == 5 {
        '5'
    } else if n == 6 {
        '6'
    } else if n == 7 {
        '7'
    } else if n == 8 {
        '8'
    } else {
        '9'
    }
}

/// The decimal digit string of a natural number, most significant digit
/// first, without leading zeros (except for zero itself).
pub open spec fn dec_digits(n: nat) -> Seq<char>
    decreases n,
{
    if n < 10 {
        seq![digit_char(n)]
    } else {
        dec_digits(n / 10).push(digit_char(n % 10))
    }
}

/// The decimal string of an integer: a minus sign for negative values,
/// then the digits of the magnitude.
pub open spec fn dec_int(n: int) -> Seq<char> {
    if n < 0 {
        seq!['-'] + dec_digits((-n) as nat)
    } else {
        dec_digits(n as nat)
    }
}

/// The one-character string for decimal digit `d`.
fn digit_str(d: u64) -> (r: &'static str)
    requires
        d < 10,
    ensures
        r@ =~= seq![digit_char(d as nat)],
{
    if d == 0 {
        proof {
            reveal_strlit("0");
        }
        "0"
    } else if d == 1 {
        proof {
            reveal_strlit("1");
        }
        "1"
    } else if d == 2 {
        proof {
            reveal_strlit("2");
        }
        "2"
    } else if d == 3 {
        proof {
            reveal_strlit("3");
        }
        "3"
    } else if d == 4 {
        proof {
            reveal_strlit("4");
        }
        "4"
    } else if d == 5 {
        proof {
            reveal_strlit("5");
        }
        "5"
    } else if d == 6 {
        proof {
            reveal_strlit("6");
        }
        "6"
    } else if d == 7 {
        proof {
            reveal_strlit("7");
        }
        "7"
    } else if d == 8 {
        proof {
            reveal_strlit("8");
        }
        "8"
    } else {
        proof {
            reveal_strlit("9");
        }
        "9"
    }
}

/// Renders `n` in decimal.
pub fn u64_to_dec(n: u64) -> (s: String)
    ensures
        s@ == dec_digits(n as nat),
    decreases n,
{
    if n < 10 {
        let s = String::from_str(digit_str(n));
        proof {
            assert(s@ =~= dec_digits(n as nat));
        }
        s
    } else {
        let mut s = u64_to_dec(n / 10);
        s.append(digit_str(n % 10));
        proof {
            assert(s@ =~= dec_digits(n as nat));
        }
        s
    }
}

/// Renders `n` in decimal, with a leading minus sign when negative.
pub fn i64_to_dec(n: i64) -> (s: String)
    ensures
        s@ == dec_int(n as int),
{
    if n >= 0 {
        let s = u64_to_dec(n as u64);
        s
    } else {
        let m: u64 = if n == i64::MIN {
            9223372036854775808u64
        } else {
            (-n) as u64
        };
        let mut s = String::from_str("-");
        s.append(u64_to_dec(m).as_str());
        proof {
            reveal_strlit("-");
            assert(s@ =~= dec_int(n as int));
        }
        s
    }
}

/// Renders `n` in decimal.
pub fn usize_to_dec(n: usize) -> (s: String)
    ensures
        s@ == dec_digits(n as nat),
{
    u64_to_dec(n as u64)
}


/// The text a Latin-1 byte sequence denotes: each byte is its own code
/// point.
pub open spec fn latin1_decode(bytes: Seq<u8>) -> Seq<char> {
    Seq::new(bytes.len(), |i: int| bytes[i] as char)
}

/// The Latin-1 rendering of text: a character beyond the Latin-1 range
/// becomes a question mark.
pub open spec fn latin1_encode(chars: Seq<char>) -> Seq<u8> {
    Seq::new(
        chars.len(),
        |i: int|
            if chars[i] as u32 <= 0xFF {
                chars[i] as u8
            } else {
                0x3Fu8
            },
    )
}

/// The UTF-16 code units of one character: itself, or a surrogate pair
/// beyond the basic plane.
pub open spec fn utf16_of_char(c: char) -> Seq<u16> {
    let u = c as u32;
    if u < 0x10000 {
        seq![u as u16]
    } else {
        seq![
            (0xD800 + (u - 0x10000) / 0x400) as u16,
            (0xDC00 + (u - 0x10000) % 0x400) as u16,
        ]
    }
}

/// The UTF-16 code units of text.
pub open spec fn utf16_encode(chars: Seq<char>) -> Seq<u16>
    decreases chars.len(),
{
    if chars.len() == 0 {
        Seq::empty()
    } else {
        utf16_of_char(chars[0]) + utf16_encode(chars.drop_first())
    }
}

/// The unit opens a surrogate pair.
pub open spec fn is_high_surrogate(u: u16) -> bool {
    0xD800 <= u < 0xDC00
}

/// The unit closes a surrogate pair.
pub open spec fn is_low_surrogate(u: u16) -> bool {
    0xDC00 <= u < 0xE000
}

/// The character a well-formed surrogate pair denotes.
pub open spec fn pair_char(hi: u16, lo: u16) -> char {
    ((0x10000 + (hi - 0xD800) * 0x400 + (lo - 0xDC00)) as u32) as char
}

/// The text a UTF-16 code unit sequence denotes: well-formed surrogate
/// pairs combine, an unpaired surrogate becomes the replacement
/// character, and every other unit is its own code point.
pub open spec fn utf16_decode(units: Seq<u16>) -> Seq<char>
    decreases units.len(),
{
    if units.len() == 0 {
        Seq::empty()
    } else if is_high_surrogate(units[0]) && units.len() >= 2 && is_low_surrogate(units[1]) {
        seq![pair_char(units[0], units[1])] + utf16_decode(units.skip(2))
    } else if is_high_surrogate(units[0]) || is_low_surrogate(units[0]) {
        seq!['\u{FFFD}'] + utf16_decode(units.skip(1))
    } else {
        seq![units[0] as char] + utf16_decode(units.skip(1))
    }
}

/// Builds the text a Latin-1 byte sequence denotes.
pub fn decode_latin1(bytes: &[u8]) -> (s: String)
    ensures
        s@ == latin1_decode(bytes@),
{
    let mut s = String::new();
    let mut i: usize = 0;
    while i < bytes.len()
        invariant
            i <= bytes@.len(),
            s@.len() == i,
            forall|l: int| 0 <= l < i ==> s@[l] == bytes@[l] as char,
        decreases bytes@.len() - i,
    {
        let b = bytes[i];
        push_char(&mut s, char_from_scalar(b as u32));
        i += 1;
    }
    proof {
        assert(s@ =~= latin1_decode(bytes@));
    }
    s
}

/// Renders text as Latin-1 bytes, substituting a question mark for any
/// character beyond the Latin-1 range.
pub fn encode_latin1(s: &str) -> (r: Vec<u8>)
    ensures
        r@ == latin1_encode(s@),
{
    let n = s.unicode_len();
    let mut r: Vec<u8> = Vec::new();
    let mut i: usize = 0;
    while i < n
        invariant
            i <= n,
            n == s@.len(),
            r@.len() == i,
            forall|l: int|
                0 <= l < i ==> r@[l] == (if s@[l] as u32 <= 0xFF {
                    s@[l] as u8
                } else {
                    0x3Fu8
                }),
        decreases n - i,
    {
        let c = s.get_char(i);
        let u = c as u32;
        if u <= 0xFF {
            r.push(#[verifier::truncate] (u as u8));
            proof {
                assert(s@[i as int] as u32 <= 0xFF);
                assert((s@[i as int] as u32) as u8 == s@[i as int] as u8);
            }
        } else {
            r.push(0x3Fu8);
        }
        i += 1;
    }
    proof {
        assert(r@ =~= latin1_encode(s@));
    }
    r
}

/// Appending one character appends exactly its code units.
proof fn lemma_utf16_encode_snoc(s: Seq<char>, c: char)
    ensures
        utf16_encode(s.push(c)) == utf16_encode(s) + utf16_of_char(c),
    decreases s.len(),
{
    if s.len() == 0 {
        assert(s.push(c)[0] == c);
        assert(s.push(c).drop_first() =~= Seq::<char>::empty());
        assert(utf16_encode(s.push(c)) == utf16_of_char(c) + utf16_encode(
            Seq::<char>::empty(),
        ));
        assert(utf16_encode(Seq::<char>::empty()) == Seq::<u16>::empty());
        assert(utf16_encode(s) == Seq::<u16>::empty());
        assert(utf16_encode(s.push(c)) =~= utf16_encode(s) + utf16_of_char(c));
    } else {
        assert(s.push(c)[0] == s[0]);
        assert(s.push(c).drop_first() =~= s.drop_first().push(c));
        assert(utf16_encode(s.push(c)) == utf16_of_char(s[0]) + utf16_encode(
            s.drop_first().push(c),
        ));
        lemma_utf16_encode_snoc(s.drop_first(), c);
        assert(utf16_encode(s) == utf16_of_char(s[0]) + utf16_encode(s.drop_first()));
        assert(utf16_encode(s.push(c)) =~= utf16_encode(s) + utf16_of_char(c));
    }
}

/// Renders text as UTF-16 code units.
pub fn encode_utf16(s: &str) -> (r: Vec<u16>)
    ensures
        r@ == utf16_encode(s@),
{
    let n = s.unicode_len();
    let mut r: Vec<u16> = Vec::new();
    let mut i: usize = 0;
    while i < n
        invariant
            i <= n,
            n == s@.len(),
            r@ == utf16_encode(s@.take(i as int)),
        decreases n - i,
    {
        let ghost prefix = s@.take(i as int);
        let c = s.get_char(i);
        proof {
            char_is_scalar(c);
        }
        let u = c as u32;
        if u < 0x10000 {
            r.push(#[verifier::truncate] (u as u16));
        } else {
            let hi: u32 = 0xD800 + (u - 0x10000) / 0x400;
            let lo: u32 = 0xDC00 + (u - 0x10000) % 0x400;
            proof {
                assert(u <= 0x10FFFF);
                assert((u - 0x10000) / 0x400 <= 0x3FF) by (nonlinear_arith)
                    requires
                        0x10000 <= u <= 0x10FFFF,
                ;
                assert((u - 0x10000) % 0x400 < 0x400);
            }
            r.push(#[verifier::truncate] (hi as u16));
            r.push(#[verifier::truncate] (lo as u16));
        }
        proof {
            assert(s@.take(i + 1) =~= prefix.push(s@[i as int]));
            lemma_utf16_encode_snoc(prefix, s@[i as int]);
            assert(r@ =~= utf16_encode(s@.take(i + 1)));
        }
        i += 1;
    }
    proof {
        assert(s@.take(n as int) =~= s@);
    }
    r
}

/// Builds the text a UTF-16 code unit sequence denotes.
pub fn decode_utf16(units: &[u16]) -> (s: String)
    ensures
        s@ == utf16_decode(units@),
{
    let n = units.len();
    let mut s = String::new();
    let mut i: usize = 0;
    proof {
        assert(units@.skip(0) =~= units@);
        assert(s@ + utf16_decode(units@) =~= utf16_decode(units@));
    }
    while i < n
        invariant
            i <= n,
            n == units@.len(),
            utf16_decode(units@) == s@ + utf16_decode(units@.skip(i as int)),
        decreases n - i,
    {
        let ghost rest = units@.skip(i as int);
        let u0 = units[i];
        if 0xD800 <= u0 && u0 < 0xDC00 && i + 1 < n && 0xDC00 <= units[i + 1] && units[i + 1]
            < 0xE000 {
            let u1 = units[i + 1];
            let scalar: u32 = 0x10000 + (u0 as u32 - 0xD800) * 0x400 + (u1 as u32 - 0xDC00);
            proof {
                assert(scalar <= 0x10FFFF) by (nonlinear_arith)
                    requires
                        scalar == 0x10000 + (u0 as u32 - 0xD800) * 0x400 + (u1 as u32 - 0xDC00),
                        0xD800 <= u0 < 0xDC00,
                        0xDC00 <= u1 < 0xE000,
                ;
            }
            let c = char_from_scalar(scalar);
            let ghost s_pre = s@;
            push_char(&mut s, c);
            proof {
                char_u32_cast(c, scalar);
                assert(rest[0] == units@[i as int]);
                assert(rest[1] == units@[i + 1]);
                assert(pair_char(u0, u1) == c);
                assert(rest.skip(2) =~= units@.skip(i + 2));
                assert(utf16_decode(rest) == seq![pair_char(rest[0], rest[1])] + utf16_decode(
                    rest.skip(2),
                ));
                assert(s@ =~= s_pre + seq![c]);
                assert((s_pre + seq![c]) + utf16_decode(units@.skip(i + 2)) =~= s_pre + (seq![c]
                    + utf16_decode(units@.skip(i + 2))));
                assert(s@ + utf16_decode(units@.skip(i + 2)) =~= utf16_decode(units@));
            }
            i += 2;
        } else if 0xD800 <= u0 && u0 < 0xE000 {
            let ghost s_pre = s@;
            push_char(&mut s, '\u{FFFD}');
            proof {
                assert(rest[0] == units@[i as int]);
                assert(rest.skip(1) =~= units@.skip(i + 1));
                assert(utf16_decode(rest) == seq!['\u{FFFD}'] + utf16_decode(rest.skip(1)));
                assert(s@ =~= s_pre + seq!['\u{FFFD}']);
                assert((s_pre + seq!['\u{FFFD}']) + utf16_decode(units@.skip(i + 1)) =~= s_pre + (
                seq!['\u{FFFD}'] + utf16_decode(units@.skip(i + 1))));
                assert(s@ + utf16_decode(units@.skip(i + 1)) =~= utf16_decode(units@));
            }
            i += 1;
        } else {
            let c = char_from_scalar(u0 as u32);
            let ghost s_pre = s@;
            push_char(&mut s, c);
            proof {
                char_u32_cast(c, u0 as u32);
                assert(rest[0] == units@[i as int]);
                assert(u0 as char == c);
                assert(rest.skip(1) =~= units@.skip(i + 1));
                assert(utf16_decode(rest) == seq![rest[0] as char] + utf16_decode(rest.skip(1)));
                assert(s@ =~= s_pre + seq![c]);
                assert((s_pre + seq![c]) + utf16_decode(units@.skip(i + 1)) =~= s_pre + (seq![c]
                    + utf16_decode(units@.skip(i + 1))));
                assert(s@ + utf16_decode(units@.skip(i + 1)) =~= utf16_decode(units@));
            }
            i += 1;
        }
    }
    proof {
        assert(units@.skip(n as int) =~= Seq::<u16>::empty());
        assert(s@ =~= utf16_decode(units@));
    }
    s
}

} // verus!
