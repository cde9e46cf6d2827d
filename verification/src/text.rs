//! Textual encodings used by the record codecs: hex strings for card UIDs,
//! decimal digit strings for PINs, packed-decimal ("BCD") renderings for
//! timestamps, and plain decimal for user ids.

use vstd::prelude::*;

verus! {

/// `c` is an ASCII decimal digit.
pub open spec fn is_digit_char(c: char) -> bool {
    '0' <= c && c <= '9'
}

/// The digit character of a value 0..=9.
pub open spec fn digit_char(b: u8) -> char
    recommends
        b <= 9,
{
    (b + 48) as char
}

/// The value of an ASCII decimal digit character.
pub open spec fn digit_val(c: char) -> u8
    recommends
        is_digit_char(c),
{
    ((c as int) - 48) as u8
}

/// The lowercase hex digit of a value 0..=15.
pub open spec fn hex_digit_lower(n: u8) -> char
    recommends
        n < 16,
{
    if n < 10 {
        (n + 48) as char
    } else {
        (n + 87) as char
    }
}

/// The uppercase hex digit of a value 0..=15.
pub open spec fn hex_digit_upper(n: u8) -> char
    recommends
        n < 16,
{
    if n < 10 {
        (n + 48) as char
    } else {
        (n + 55) as char
    }
}

/// The lowercase hex rendering of a byte sequence, two digits per byte.
pub open spec fn hex_of(s: Seq<u8>) -> Seq<char>
    decreases s.len(),
{
    if s.len() == 0 {
        Seq::empty()
    } else {
        seq![hex_digit_lower(s[0] / 16), hex_digit_lower(s[0] % 16)] + hex_of(s.drop_first())
    }
}

/// `c` is an ASCII hex digit, either case.
pub open spec fn is_hex_char(c: char) -> bool {
    is_digit_char(c) || ('a' <= c && c <= 'f') || ('A' <= c && c <= 'F')
}

/// The value of an ASCII hex digit character, either case.
pub open spec fn hex_char_val(c: char) -> u8
    recommends
        is_hex_char(c),
{
    if is_digit_char(c) {
        ((c as int) - 48) as u8
    } else if 'a' <= c && c <= 'f' {
        ((c as int) - 87) as u8
    } else {
        ((c as int) - 55) as u8
    }
}

/// `s` is decodable hex: even length, every character a hex digit.
pub open spec fn is_hex_str(s: Seq<char>) -> bool {
    s.len() % 2 == 0 && (forall|i: int| 0 <= i < s.len() ==> is_hex_char(s[i]))
}

/// `s` is the canonical (lowercase) hex rendering of some byte sequence.
pub open spec fn is_lower_hex_str(s: Seq<char>) -> bool {
    s.len() % 2 == 0 && (forall|i: int|
        0 <= i < s.len() ==> (is_digit_char(s[i]) || ('a' <= s[i] && s[i] <= 'f')))
}

/// The bytes a hex string decodes to, one per digit pair.
pub open spec fn bytes_of_hex(s: Seq<char>) -> Seq<u8>
    decreases s.len(),
{
    if s.len() < 2 {
        Seq::empty()
    } else {
        seq![(hex_char_val(s[0]) * 16 + hex_char_val(s[1])) as u8] + bytes_of_hex(s.skip(2))
    }
}

/// Each byte below 0x80 read as the ASCII character it encodes.
pub open spec fn chars_of_bytes(s: Seq<u8>) -> Seq<char> {
    s.map_values(|b: u8| b as char)
}

/// The digit values of a PIN string, one byte per character.
pub open spec fn pin_digits(pin: Seq<char>) -> Seq<u8> {
    pin.map_values(|c: char| digit_val(c))
}

/// Hex encoding yields two digits per byte, all of them lowercase hex.
pub proof fn lemma_hex_of_valid(s: Seq<u8>)
    ensures
        hex_of(s).len() == 2 * s.len(),
        is_lower_hex_str(hex_of(s)),
        is_hex_str(hex_of(s)),
    decreases s.len(),
{
    if s.len() > 0 {
        lemma_hex_of_valid(s.drop_first());
    }
}

/// A hex string decodes to one byte per digit pair.
pub proof fn lemma_bytes_of_hex_len(s: Seq<char>)
    ensures
        bytes_of_hex(s).len() == s.len() / 2,
    decreases s.len(),
{
    if s.len() >= 2 {
        lemma_bytes_of_hex_len(s.skip(2));
    }
}

/// Law: decoding the hex encoding of any byte sequence yields it back.
pub proof fn lemma_bytes_of_hex_of(s: Seq<u8>)
    ensures
        bytes_of_hex(hex_of(s)) == s,
    decreases s.len(),
{
    if s.len() == 0 {
        assert(bytes_of_hex(hex_of(s)) =~= s);
    } else {
        lemma_bytes_of_hex_of(s.drop_first());
        let h = hex_of(s);
        let hi = s[0] / 16;
        let lo = s[0] % 16;
        assert(h[0] == hex_digit_lower(hi) && h[1] == hex_digit_lower(lo));
        assert(hex_char_val(hex_digit_lower(hi)) == hi);
        assert(hex_char_val(hex_digit_lower(lo)) == lo);
        assert(hi * 16 + lo == s[0]);
        assert(h.skip(2) =~= hex_of(s.drop_first()));
        assert(bytes_of_hex(h) =~= s);
    }
}

/// Law: hex-encoding the bytes of a canonical (lowercase) hex string yields
/// it back.
pub proof fn lemma_hex_of_bytes_of(s: Seq<char>)
    requires
        is_lower_hex_str(s),
    ensures
        hex_of(bytes_of_hex(s)) == s,
    decreases s.len(),
{
    if s.len() == 0 {
        assert(hex_of(bytes_of_hex(s)) =~= s);
    } else {
        assert(is_lower_hex_str(s.skip(2))) by {
            assert forall|i: int| 0 <= i < s.skip(2).len() implies (is_digit_char(s.skip(2)[i])
                || ('a' <= s.skip(2)[i] && s.skip(2)[i] <= 'f')) by {
                assert(s.skip(2)[i] == s[i + 2]);
            }
        }
        lemma_hex_of_bytes_of(s.skip(2));
        let a = hex_char_val(s[0]);
        let b = hex_char_val(s[1]);
        let v = (a * 16 + b) as u8;
        assert(a < 16 && b < 16);
        assert(v / 16 == a && v % 16 == b) by (nonlinear_arith)
            requires
                a < 16,
                b < 16,
                v == a * 16 + b,
        ;
        assert(hex_digit_lower(a) == s[0]);
        assert(hex_digit_lower(b) == s[1]);
        let bs = bytes_of_hex(s);
        assert(bs[0] == v);
        assert(bs.drop_first() =~= bytes_of_hex(s.skip(2)));
        assert(hex_of(bs) =~= s);
    }
}

/// Relies on hex::encode: two lowercase hex digits for each input byte.
#[verifier::external_body]
pub(crate) fn hex_encode(b: &[u8]) -> (r: String)
    ensures
        r@ == hex_of(b@),
{
    hex::encode(b)
}

/// Relies on hex::decode: it succeeds exactly on strings of even length
/// whose characters are all hex digits, and yields one byte per digit pair.
#[verifier::external_body]
pub(crate) fn hex_decode(s: &str) -> (r: Option<Vec<u8>>)
    ensures
        r is Some <==> is_hex_str(s@),
        r matches Some(v) ==> v@ == bytes_of_hex(s@),
{
    hex::decode(s).ok()
}

/// Relies on String::from_utf8: bytes below 0x80 decode to one character
/// per byte.
#[verifier::external_body]
pub(crate) fn ascii_string(bytes: Vec<u8>) -> (r: String)
    requires
        forall|i: int| 0 <= i < bytes@.len() ==> bytes@[i] < 0x80,
    ensures
        r@ == chars_of_bytes(bytes@),
{
    match String::from_utf8(bytes) {
        Ok(s) => s,
        Err(_) => String::new(),
    }
}

/// The two uppercase hex digits of a byte, read as a packed-decimal field:
/// byte 0x23 renders as "23".
pub open spec fn bcd_chars(b: u8) -> Seq<char> {
    seq![hex_digit_upper(b / 16), hex_digit_upper(b % 16)]
}

/// The ASCII byte of the uppercase hex digit of a value 0..=15.
pub(crate) fn hex_upper_byte(n: u8) -> (r: u8)
    requires
        n < 16,
    ensures
        r < 0x80,
        r as char == hex_digit_upper(n),
{
    if n < 10 {
        n + 48
    } else {
        n + 55
    }
}

/// Render a packed-decimal byte as its two hex digits.
pub fn bcd_string(b: u8) -> (r: String)
    ensures
        r@ == bcd_chars(b),
{
    let mut digits: Vec<u8> = Vec::new();
    digits.push(hex_upper_byte(b / 16));
    digits.push(hex_upper_byte(b % 16));
    let r = ascii_string(digits);
    proof {
        assert(r@ =~= bcd_chars(b));
    }
    r
}

/// The value of a hex digit character, or `None` for any other character.
pub fn hex_val_of_char(c: char) -> (r: Option<u8>)
    ensures
        r is Some <==> is_hex_char(c),
        r matches Some(v) ==> v == hex_char_val(c) && v < 16,
{
    match c {
        '0' => Some(0),
        '1' => Some(1),
        '2' => Some(2),
        '3' => Some(3),
        '4' => Some(4),
        '5' => Some(5),
        '6' => Some(6),
        '7' => Some(7),
        '8' => Some(8),
        '9' => Some(9),
        'a' => Some(10),
        'b' => Some(11),
        'c' => Some(12),
        'd' => Some(13),
        'e' => Some(14),
        'f' => Some(15),
        'A' => Some(10),
        'B' => Some(11),
        'C' => Some(12),
        'D' => Some(13),
        'E' => Some(14),
        'F' => Some(15),
        _ => None,
    }
}

/// The characters of the bytes of `s` that are below 0x80, in order; any
/// other byte is dropped.
pub open spec fn ascii_filter(s: Seq<u8>) -> Seq<char>
    decreases s.len(),
{
    if s.len() == 0 {
        Seq::empty()
    } else {
        ascii_filter(s.drop_last()) + if s.last() < 0x80 {
            seq![s.last() as char]
        } else {
            Seq::<char>::empty()
        }
    }
}

/// The "20YY-MM-DD HH:MM:SS" rendering of seven packed-decimal timestamp
/// bytes in wire order: seconds, minutes, hours, day, reserved, month,
/// two-digit year.
pub open spec fn timestamp_chars(ts: Seq<u8>) -> Seq<char>
    recommends
        ts.len() == 7,
{
    "20"@ + bcd_chars(ts[6]) + "-"@ + bcd_chars(ts[5]) + "-"@ + bcd_chars(ts[3]) + " "@
        + bcd_chars(ts[2]) + ":"@ + bcd_chars(ts[1]) + ":"@ + bcd_chars(ts[0])
}

/// The uppercase hex rendering of a byte sequence, two digits per byte.
pub open spec fn hex_upper_of(s: Seq<u8>) -> Seq<char>
    decreases s.len(),
{
    if s.len() == 0 {
        Seq::empty()
    } else {
        hex_upper_of(s.drop_last()) + bcd_chars(s.last())
    }
}

/// Render a byte sequence as uppercase hex, two digits per byte.
pub fn hex_upper_string(b: &[u8]) -> (r: String)
    ensures
        r@ == hex_upper_of(b@),
{
    let mut out: Vec<u8> = Vec::new();
    let mut i: usize = 0;
    while i < b.len()
        invariant
            i <= b@.len(),
            forall|j: int| 0 <= j < out@.len() ==> out@[j] < 0x80,
            chars_of_bytes(out@) == hex_upper_of(b@.take(i as int)),
        decreases b@.len() - i,
    {
        out.push(hex_upper_byte(b[i] / 16));
        out.push(hex_upper_byte(b[i] % 16));
        proof {
            assert(b@.take(i + 1).drop_last() =~= b@.take(i as int));
            assert(chars_of_bytes(out@) =~= hex_upper_of(b@.take(i + 1)));
        }
        i = i + 1;
    }
    proof {
        assert(b@.take(b@.len() as int) =~= b@);
    }
    ascii_string(out)
}

/// The decimal rendering of a byte, without leading zeros.
pub open spec fn dec_chars(n: u8) -> Seq<char> {
    if n < 10 {
        seq![digit_char(n)]
    } else if n < 100 {
        seq![digit_char(n / 10), digit_char(n % 10)]
    } else {
        seq![digit_char(n / 100), digit_char((n / 10) % 10), digit_char(n % 10)]
    }
}

/// Render a byte in decimal.
pub fn dec_string(n: u8) -> (r: String)
    ensures
        r@ == dec_chars(n),
{
    let mut digits: Vec<u8> = Vec::new();
    if n >= 100 {
        digits.push(n / 100 + 48);
    }
    if n >= 10 {
        digits.push((n / 10) % 10 + 48);
    }
    digits.push(n % 10 + 48);
    let r = ascii_string(digits);
    proof {
        assert(r@ =~= dec_chars(n));
    }
    r
}

} // verus!
