//! Hexadecimal decoding and encoding.
//!
//! Webhook signatures arrive as hex text; the verifier decodes them to raw
//! bytes before comparing them against a freshly computed digest.

use vstd::prelude::*;
use vstd::string::*;

verus! {

/// Error returned when a string is not well-formed hexadecimal.
#[derive(Debug, Clone, Copy, PartialEq, Eq, Structural)]
pub struct HexError;

/// A character that may appear in a hex numeral: `0-9`, `a-f` or `A-F`.
pub open spec fn is_hex_digit(c: char) -> bool {
    let u = c as u32;
    (48 <= u && u <= 57) || (97 <= u && u <= 102) || (65 <= u && u <= 70)
}

/// Numeric value of a hex digit.
pub open spec fn hex_digit_value(c: char) -> u8
    recommends
        is_hex_digit(c),
{
    let u = c as u32;
    if 48 <= u && u <= 57 {
        (u - 48) as u8
    } else if 97 <= u && u <= 102 {
        (u - 87) as u8
    } else {
        (u - 55) as u8
    }
}

/// Every character of the string is a hex digit.
pub open spec fn all_hex_digits(s: Seq<char>) -> bool {
    forall|i: int| 0 <= i < s.len() ==> is_hex_digit(#[trigger] s[i])
}

/// The byte string denoted by a hex numeral, two digits per byte.
pub open spec fn spec_decode_hex(s: Seq<char>) -> Seq<u8>
    recommends
        s.len() % 2 == 0,
        all_hex_digits(s),
    decreases s.len(),
{
    if s.len() < 2 {
        Seq::empty()
    } else {
        seq![(hex_digit_value(s[0]) as int * 16 + hex_digit_value(s[1]) as int) as u8]
            + spec_decode_hex(s.skip(2))
    }
}

/// ASCII code of the lower-case hex digit for a value below 16.
pub open spec fn hex_code(n: u8) -> u8
    recommends
        n < 16,
{
    if n < 10 {
        (n + 48) as u8
    } else {
        (n + 87) as u8
    }
}

/// Lower-case hex digit for a value below 16.
pub open spec fn hex_char_of(n: u8) -> char
    recommends
        n < 16,
{
    hex_code(n) as char
}

/// Lower-case hex encoding of a byte string, two digits per byte.
pub open spec fn spec_encode_hex(b: Seq<u8>) -> Seq<char>
    decreases b.len(),
{
    if b.len() == 0 {
        Seq::empty()
    } else {
        seq![hex_char_of(b[0] / 16), hex_char_of(b[0] % 16)] + spec_encode_hex(b.drop_first())
    }
}

/// Lower-case hex encoding of a byte string, as the ASCII codes of its
/// digits, two per byte.
pub open spec fn spec_encode_hex_bytes(b: Seq<u8>) -> Seq<u8>
    decreases b.len(),
{
    if b.len() == 0 {
        Seq::empty()
    } else {
        seq![hex_code(b[0] / 16), hex_code(b[0] % 16)] + spec_encode_hex_bytes(b.drop_first())
    }
}

/// The byte-level hex encoding spells, code for code, the character-level one.
pub proof fn lemma_encode_hex_bytes_chars(b: Seq<u8>)
    ensures
        spec_encode_hex_bytes(b).len() == spec_encode_hex(b).len(),
        spec_encode_hex_bytes(b).len() == 2 * b.len(),
        forall|i: int| 0 <= i < spec_encode_hex(b).len()
            ==> #[trigger] spec_encode_hex(b)[i] == spec_encode_hex_bytes(b)[i] as char,
        forall|i: int| 0 <= i < spec_encode_hex_bytes(b).len()
            ==> 48 <= #[trigger] spec_encode_hex_bytes(b)[i]
                && spec_encode_hex_bytes(b)[i] < 123,
    decreases b.len(),
{
    if b.len() != 0 {
        lemma_encode_hex_bytes_chars(b.drop_first());
    }
}

/// Value of a single hex digit character, if it is one.
fn hex_val(c: char) -> (r: Option<u8>)
    ensures
        r is Some <==> is_hex_digit(c),
        r is Some ==> r->Some_0 == hex_digit_value(c) && r->Some_0 < 16,
{
    let u = c as u32;
    if 48 <= u && u <= 57 {
        Some((u - 48) as u8)
    } else if 97 <= u && u <= 102 {
        Some((u - 87) as u8)
    } else if 65 <= u && u <= 70 {
        Some((u - 55) as u8)
    } else {
        None
    }
}

/// Decodes a string of hex digits into the bytes it denotes.
///
/// The string must have even length and consist of hex digits only;
/// otherwise an error is returned.
pub fn decode_hex(s: &str) -> (r: Result<Vec<u8>, HexError>)
    ensures
        match r {
            Ok(v) => s@.len() % 2 == 0 && all_hex_digits(s@) && v@ == spec_decode_hex(s@),
            Err(_) => s@.len() % 2 != 0 || !all_hex_digits(s@),
        },
{
    let n = s.unicode_len();
    if n % 2 != 0 {
        return Err(HexError);
    }
    let mut out: Vec<u8> = Vec::new();
    let mut i: usize = 0;
    proof {
        assert(s@.skip(0) =~= s@);
        assert(out@ + spec_decode_hex(s@) =~= spec_decode_hex(s@));
    }
    while i < n
        invariant
            n == s@.len(),
            n % 2 == 0,
            i % 2 == 0,
            i <= n,
            forall|j: int| 0 <= j < i ==> is_hex_digit(#[trigger] s@[j]),
            spec_decode_hex(s@) == out@ + spec_decode_hex(s@.skip(i as int)),
            out@.len() == i / 2,
        decreases n - i,
    {
        let c1 = s.get_char(i);
        let c2 = s.get_char(i + 1);
        let h1 = match hex_val(c1) {
            Some(h) => h,
            None => {
                proof {
                    assert(!is_hex_digit(s@[i as int]));
                }
                return Err(HexError);
            },
        };
        let h2 = match hex_val(c2) {
            Some(h) => h,
            None => {
                proof {
                    assert(!is_hex_digit(s@[i as int + 1]));
                }
                return Err(HexError);
            },
        };
        proof {
            let t = s@.skip(i as int);
            assert(t.len() >= 2);
            assert(t[0] == s@[i as int]);
            assert(t[1] == s@[i as int + 1]);
            assert(t.skip(2) =~= s@.skip(i as int + 2));
            assert(spec_decode_hex(s@) =~= out@.push((h1 * 16 + h2) as u8)
                + spec_decode_hex(s@.skip(i as int + 2)));
        }
        out.push(h1 * 16 + h2);
        i += 2;
    }
    proof {
        assert(s@.skip(n as int) =~= Seq::<char>::empty());
        assert(out@ =~= spec_decode_hex(s@));
    }
    Ok(out)
}

/// Appends the two lower-case hex digits of one byte, as ASCII codes.
fn push_hex_byte(out: &mut Vec<u8>, b: u8)
    ensures
        final(out)@ == old(out)@ + seq![hex_code(b / 16), hex_code(b % 16)],
{
    let hi = b / 16;
    let lo = b % 16;
    let hi_c: u8 = if hi < 10 {
        hi + 48
    } else {
        hi + 87
    };
    let lo_c: u8 = if lo < 10 {
        lo + 48
    } else {
        lo + 87
    };
    out.push(hi_c);
    out.push(lo_c);
    proof {
        assert(out@ =~= old(out)@ + seq![hex_code(b / 16), hex_code(b % 16)]);
    }
}

/// Lower-case hex encoding of a byte string, as ASCII codes.
pub fn encode_hex_ascii(b: &[u8]) -> (r: Vec<u8>)
    ensures
        r@ == spec_encode_hex_bytes(b@),
{
    let mut out: Vec<u8> = Vec::new();
    let n = b.len();
    proof {
        assert(b@.skip(0) =~= b@);
    }
    let mut i: usize = 0;
    while i < n
        invariant
            n == b@.len(),
            i <= n,
            out@ == spec_encode_hex_bytes(b@.take(i as int)),
        decreases n - i,
    {
        push_hex_byte(&mut out, b[i]);
        proof {
            lemma_encode_hex_snoc(b@, i as int);
            assert(out@ =~= spec_encode_hex_bytes(b@.take(i as int + 1)));
        }
        i += 1;
    }
    proof {
        assert(b@.take(n as int) =~= b@);
    }
    out
}

/// Extending the input by one byte extends the encoding by its two digits.
proof fn lemma_encode_hex_snoc(b: Seq<u8>, i: int)
    requires
        0 <= i < b.len(),
    ensures
        spec_encode_hex_bytes(b.take(i + 1)) == spec_encode_hex_bytes(b.take(i))
            + seq![hex_code(b[i] / 16), hex_code(b[i] % 16)],
    decreases i,
{
    if i == 0 {
        assert(b.take(1).drop_first() =~= Seq::<u8>::empty());
        assert(b.take(0) =~= Seq::<u8>::empty());
        assert(spec_encode_hex_bytes(b.take(1)) =~= spec_encode_hex_bytes(b.take(0))
            + seq![hex_code(b[0] / 16), hex_code(b[0] % 16)]);
    } else {
        lemma_encode_hex_snoc(b.drop_first(), i - 1);
        assert(b.take(i + 1).drop_first() =~= b.drop_first().take(i));
        assert(b.take(i).drop_first() =~= b.drop_first().take(i - 1));
        assert(b.take(i + 1)[0] == b[0]);
        assert(b.take(i)[0] == b[0]);
        assert(b.drop_first()[i - 1] == b[i]);
        assert(spec_encode_hex_bytes(b.take(i + 1)) =~= spec_encode_hex_bytes(b.take(i))
            + seq![hex_code(b[i] / 16), hex_code(b[i] % 16)]);
    }
}

/// The hex encoding of a byte string consists of hex digits, two per byte.
pub proof fn lemma_encode_hex_wf(b: Seq<u8>)
    ensures
        spec_encode_hex(b).len() == 2 * b.len(),
        all_hex_digits(spec_encode_hex(b)),
    decreases b.len(),
{
    if b.len() != 0 {
        lemma_encode_hex_wf(b.drop_first());
    }
}

/// Decoding inverts encoding: the digits of a byte string denote it.
pub proof fn lemma_hex_round_trip(b: Seq<u8>)
    ensures
        spec_decode_hex(spec_encode_hex(b)) == b,
    decreases b.len(),
{
    if b.len() == 0 {
        assert(spec_decode_hex(spec_encode_hex(b)) =~= b);
    } else {
        lemma_hex_round_trip(b.drop_first());
        let e = spec_encode_hex(b);
        assert(e[0] == hex_char_of(b[0] / 16));
        assert(e[1] == hex_char_of(b[0] % 16));
        assert(e.skip(2) =~= spec_encode_hex(b.drop_first()));
        assert(hex_digit_value(hex_char_of(b[0] / 16)) == b[0] / 16);
        assert(hex_digit_value(hex_char_of(b[0] % 16)) == b[0] % 16);
        assert(spec_decode_hex(e) =~= b);
    }
}

} // verus!
