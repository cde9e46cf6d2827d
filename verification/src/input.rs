//! Sanitizing of operator input fields: the UID, PIN and admin-password
//! editors accept free typing and keep only the characters the record
//! codecs can encode.

use vstd::prelude::*;
use crate::text::{ascii_string, chars_of_bytes, is_digit_char, is_hex_char};

verus! {

/// The first `n` elements of `s`, or all of `s` when it is shorter.
pub open spec fn take_at_most<A>(s: Seq<A>, n: int) -> Seq<A> {
    if s.len() <= n {
        s
    } else {
        s.take(n)
    }
}

/// A lowercase hex letter raised to uppercase; all else unchanged.
pub open spec fn upper_hex_char(c: char) -> char {
    if 'a' <= c && c <= 'f' {
        ((c as int) - 32) as char
    } else {
        c
    }
}

/// The hex digits of `s`, uppercased, in order; all else dropped.
pub open spec fn hex_filter(s: Seq<char>) -> Seq<char>
    decreases s.len(),
{
    if s.len() == 0 {
        Seq::empty()
    } else {
        hex_filter(s.drop_last()) + if is_hex_char(s.last()) {
            seq![upper_hex_char(s.last())]
        } else {
            Seq::<char>::empty()
        }
    }
}

/// The decimal digits of `s`, in order; all else dropped.
pub open spec fn digit_filter(s: Seq<char>) -> Seq<char>
    decreases s.len(),
{
    if s.len() == 0 {
        Seq::empty()
    } else {
        digit_filter(s.drop_last()) + if is_digit_char(s.last()) {
            seq![s.last()]
        } else {
            Seq::<char>::empty()
        }
    }
}

/// `s` left-padded with `'0'` to six characters, if shorter.
pub open spec fn zero_pad6(s: Seq<char>) -> Seq<char> {
    if s.len() >= 6 {
        s
    } else {
        Seq::new((6 - s.len()) as nat, |i: int| '0') + s
    }
}

/// The ASCII byte of the uppercased hex digit `c`, or `None` for any other
/// character.
fn upper_hex_ascii(c: char) -> (r: Option<u8>)
    ensures
        r is Some <==> is_hex_char(c),
        r matches Some(b) ==> b < 0x80 && b as char == upper_hex_char(c),
{
    match c {
        '0' => Some(48),
        '1' => Some(49),
        '2' => Some(50),
        '3' => Some(51),
        '4' => Some(52),
        '5' => Some(53),
        '6' => Some(54),
        '7' => Some(55),
        '8' => Some(56),
        '9' => Some(57),
        'a' => Some(65),
        'b' => Some(66),
        'c' => Some(67),
        'd' => Some(68),
        'e' => Some(69),
        'f' => Some(70),
        'A' => Some(65),
        'B' => Some(66),
        'C' => Some(67),
        'D' => Some(68),
        'E' => Some(69),
        'F' => Some(70),
        _ => None,
    }
}

/// The ASCII byte of the decimal digit `c`, or `None` for any other
/// character.
fn digit_ascii(c: char) -> (r: Option<u8>)
    ensures
        r is Some <==> is_digit_char(c),
        r matches Some(b) ==> b < 0x80 && b as char == c,
{
    match c {
        '0' => Some(48),
        '1' => Some(49),
        '2' => Some(50),
        '3' => Some(51),
        '4' => Some(52),
        '5' => Some(53),
        '6' => Some(54),
        '7' => Some(55),
        '8' => Some(56),
        '9' => Some(57),
        _ => None,
    }
}

/// Keep the hex digits of a UID editor's content, uppercased, up to
/// `max_length` of them.
pub fn sanitize_hex_input(input: &str, max_length: usize) -> (r: String)
    ensures
        r@ == take_at_most(hex_filter(input@), max_length as int),
{
    let n = input.unicode_len();
    let mut out: Vec<u8> = Vec::new();
    let mut i: usize = 0;
    while i < n
        invariant
            i <= n,
            n == input@.len(),
            out@.len() <= max_length,
            forall|j: int| 0 <= j < out@.len() ==> out@[j] < 0x80,
            chars_of_bytes(out@) == take_at_most(hex_filter(input@.take(i as int)), max_length as int),
        decreases n - i,
    {
        let c = input.get_char(i);
        proof {
            assert(input@.take(i + 1).drop_last() =~= input@.take(i as int));
        }
        match upper_hex_ascii(c) {
            Some(b) => {
                if out.len() < max_length {
                    out.push(b);
                }
                proof {
                    lemma_take_at_most_push(hex_filter(input@.take(i as int)), upper_hex_char(c), max_length as int);
                    assert(chars_of_bytes(out@) =~= take_at_most(
                        hex_filter(input@.take(i + 1)),
                        max_length as int,
                    ));
                }
            },
            None => {
                proof {
                    assert(hex_filter(input@.take(i + 1)) =~= hex_filter(input@.take(i as int)));
                }
            },
        }
        i = i + 1;
    }
    proof {
        assert(input@.take(n as int) =~= input@);
    }
    ascii_string(out)
}

/// Keep the decimal digits of a PIN editor's content, up to `max_length`
/// of them.
pub fn sanitize_pin(input: &str, max_length: usize) -> (r: String)
    ensures
        r@ == take_at_most(digit_filter(input@), max_length as int),
{
    let digits = digit_prefix(input, max_length);
    ascii_string(digits)
}

/// Keep the decimal digits of the admin-password editor's content, up to
/// `max_length` of them, and left-pad with `'0'` to the six password
/// digits when fewer were typed.
pub fn sanitize_admin_passwd(input: &str, max_length: usize) -> (r: String)
    ensures
        r@ == (if take_at_most(digit_filter(input@), max_length as int).len() < max_length {
            zero_pad6(take_at_most(digit_filter(input@), max_length as int))
        } else {
            take_at_most(digit_filter(input@), max_length as int)
        }),
{
    let digits = digit_prefix(input, max_length);
    if digits.len() < max_length {
        let mut padded: Vec<u8> = Vec::new();
        while padded.len() + digits.len() < 6
            invariant
                forall|j: int| 0 <= j < padded@.len() ==> padded@[j] == 48,
                digits@.len() < 6 ==> padded@.len() + digits@.len() <= 6,
                digits@.len() >= 6 ==> padded@.len() == 0,
            decreases 6 - padded@.len() - digits@.len(),
        {
            padded.push(48);
        }
        let ghost zeros = padded@;
        let mut tail = digits;
        let ghost ds = tail@;
        padded.append(&mut tail);
        proof {
            assert(chars_of_bytes(padded@) =~= zero_pad6(chars_of_bytes(ds)));
        }
        ascii_string(padded)
    } else {
        ascii_string(digits)
    }
}

/// The ASCII bytes of the first `max_length` decimal digits of `input`.
fn digit_prefix(input: &str, max_length: usize) -> (r: Vec<u8>)
    ensures
        forall|j: int| 0 <= j < r@.len() ==> r@[j] < 0x80,
        chars_of_bytes(r@) == take_at_most(digit_filter(input@), max_length as int),
        r@.len() <= max_length,
{
    let n = input.unicode_len();
    let mut out: Vec<u8> = Vec::new();
    let mut i: usize = 0;
    while i < n
        invariant
            i <= n,
            n == input@.len(),
            out@.len() <= max_length,
            forall|j: int| 0 <= j < out@.len() ==> out@[j] < 0x80,
            chars_of_bytes(out@) == take_at_most(
                digit_filter(input@.take(i as int)),
                max_length as int,
            ),
        decreases n - i,
    {
        let c = input.get_char(i);
        proof {
            assert(input@.take(i + 1).drop_last() =~= input@.take(i as int));
        }
        match digit_ascii(c) {
            Some(b) => {
                if out.len() < max_length {
                    out.push(b);
                }
                proof {
                    lemma_take_at_most_push(
                        digit_filter(input@.take(i as int)),
                        c,
                        max_length as int,
                    );
                    assert(chars_of_bytes(out@) =~= take_at_most(
                        digit_filter(input@.take(i + 1)),
                        max_length as int,
                    ));
                }
            },
            None => {
                proof {
                    assert(digit_filter(input@.take(i + 1)) =~= digit_filter(input@.take(i as int)));
                }
            },
        }
        i = i + 1;
    }
    proof {
        assert(input@.take(n as int) =~= input@);
    }
    out
}

/// Appending one kept element extends the truncated filter result exactly
/// when the cap is not yet reached.
proof fn lemma_take_at_most_push(s: Seq<char>, c: char, n: int)
    requires
        n >= 0,
    ensures
        take_at_most(s + seq![c], n) == (if take_at_most(s, n).len() < n {
            take_at_most(s, n) + seq![c]
        } else {
            take_at_most(s, n)
        }),
{
    if s.len() < n {
        assert(take_at_most(s + seq![c], n) =~= s + seq![c]);
    } else {
        assert((s + seq![c]).take(n) =~= take_at_most(s, n));
    }
}

} // verus!
