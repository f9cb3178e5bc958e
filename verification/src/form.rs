//! The `application/x-www-form-urlencoded` format: how a list of pairs is
//! written, how such a text is read, and that reading gives back what was
//! written.

use vstd::prelude::*;
use vstd::utf8::{decode_utf8, encode_utf8, valid_utf8};

verus! {

/// The bytes that the format leaves as they are: letters, digits, `*`, `-`,
/// `.` and `_`.
pub open spec fn unreserved(byte: u8) -> bool {
    ||| byte == 0x2a
    ||| byte == 0x2d
    ||| byte == 0x2e
    ||| byte == 0x5f
    ||| 0x30 <= byte <= 0x39
    ||| 0x41 <= byte <= 0x5a
    ||| 0x61 <= byte <= 0x7a
}

/// The upper-case hexadecimal digit for `value`, which is below 16.
pub open spec fn hex_digit(value: u8) -> char {
    if value < 10 {
        (0x30 + value) as u8 as char
    } else {
        (0x37 + value) as u8 as char
    }
}

/// How the format writes one byte: an unreserved byte as it is, a space as
/// `+`, any other byte as `%` and its two hexadecimal digits.
pub open spec fn encoded_byte(byte: u8) -> Seq<char> {
    if unreserved(byte) {
        seq![byte as char]
    } else if byte == 0x20 {
        seq!['+']
    } else {
        seq!['%', hex_digit(byte / 16), hex_digit(byte % 16)]
    }
}

/// The encodings of `bytes`, one after the other.
pub open spec fn encoded_bytes(bytes: Seq<u8>) -> Seq<char>
    decreases bytes.len(),
{
    if bytes.len() == 0 {
        seq![]
    } else {
        encoded_byte(bytes[0]) + encoded_bytes(bytes.skip(1))
    }
}

/// A text, encoded byte by byte in UTF-8.
pub open spec fn encoded_text(text: Seq<char>) -> Seq<char> {
    encoded_bytes(encode_utf8(text))
}

/// A name and a value, each encoded, with `=` between them.
pub open spec fn encoded_pair(pair: (Seq<char>, Seq<char>)) -> Seq<char> {
    encoded_text(pair.0) + seq!['='] + encoded_text(pair.1)
}

/// The text of `pairs` in the format: the encoded pairs in their order, with
/// `&` between them.
pub open spec fn form_urlencoded(pairs: Seq<(Seq<char>, Seq<char>)>) -> Seq<char>
    decreases pairs.len(),
{
    if pairs.len() == 0 {
        seq![]
    } else if pairs.len() == 1 {
        encoded_pair(pairs[0])
    } else {
        encoded_pair(pairs[0]) + seq!['&'] + form_urlencoded(pairs.skip(1))
    }
}

/// The value of a hexadecimal digit.
pub open spec fn hex_value(digit: char) -> Option<u8> {
    if '0' <= digit <= '9' {
        Some((digit as u8 - 0x30) as u8)
    } else if 'A' <= digit <= 'F' {
        Some((digit as u8 - 0x37) as u8)
    } else if 'a' <= digit <= 'f' {
        Some((digit as u8 - 0x57) as u8)
    } else {
        None
    }
}

/// The bytes that an encoded text stands for: `+` for a space, `%` and two
/// hexadecimal digits for the byte they give, any other ASCII character for
/// itself. Nothing where a `%` lacks its digits or a character is not ASCII.
pub open spec fn decoded_bytes(text: Seq<char>) -> Option<Seq<u8>>
    decreases text.len(),
{
    if text.len() == 0 {
        Some(seq![])
    } else if text[0] == '%' {
        if text.len() >= 3 && hex_value(text[1]) is Some && hex_value(text[2]) is Some {
            match decoded_bytes(text.skip(3)) {
                Some(rest) => Some(
                    seq![(hex_value(text[1])->0 * 16 + hex_value(text[2])->0) as u8] + rest,
                ),
                None => None,
            }
        } else {
            None
        }
    } else if text[0] == '+' {
        match decoded_bytes(text.skip(1)) {
            Some(rest) => Some(seq![0x20u8] + rest),
            None => None,
        }
    } else if (text[0] as u32) < 0x80 {
        match decoded_bytes(text.skip(1)) {
            Some(rest) => Some(seq![text[0] as u8] + rest),
            None => None,
        }
    } else {
        None
    }
}

/// The text that an encoded text stands for.
pub open spec fn decoded_text(text: Seq<char>) -> Option<Seq<char>> {
    match decoded_bytes(text) {
        Some(bytes) => if valid_utf8(bytes) {
            Some(decode_utf8(bytes))
        } else {
            None
        },
        None => None,
    }
}

/// The place of the first `mark` in `text`, or the length of `text` where
/// there is none.
pub open spec fn first_index(text: Seq<char>, mark: char) -> nat
    decreases text.len(),
{
    if text.len() == 0 {
        0
    } else if text[0] == mark {
        0
    } else {
        1 + first_index(text.skip(1), mark)
    }
}

/// The pair that `text` stands for: the name before the first `=` and the
/// value after it.
pub open spec fn decoded_pair(text: Seq<char>) -> Option<(Seq<char>, Seq<char>)> {
    let cut = first_index(text, '=') as int;
    if cut >= text.len() {
        None
    } else {
        match (decoded_text(text.take(cut)), decoded_text(text.skip(cut + 1))) {
            (Some(name), Some(value)) => Some((name, value)),
            _ => None,
        }
    }
}

/// The pairs that a text in the format stands for.
pub open spec fn form_urldecoded(text: Seq<char>) -> Option<Seq<(Seq<char>, Seq<char>)>>
    decreases text.len(),
{
    if text.len() == 0 {
        Some(seq![])
    } else {
        let cut = first_index(text, '&') as int;
        match decoded_pair(text.take(cut)) {
            Some(pair) => if cut >= text.len() {
                Some(seq![pair])
            } else {
                match form_urldecoded(text.skip(cut + 1)) {
                    Some(rest) => Some(seq![pair] + rest),
                    None => None,
                }
            },
            None => None,
        }
    }
}

/// Whether no character of `text` is `mark`.
pub open spec fn free_of(text: Seq<char>, mark: char) -> bool {
    forall|i: int| 0 <= i < text.len() ==> text[i] != mark
}

/// A hexadecimal digit has the value it was written for.
proof fn lemma_hex_digit(value: u8)
    requires
        value < 16,
    ensures
        hex_value(hex_digit(value)) == Some(value),
        hex_digit(value) != '&',
        hex_digit(value) != '=',
{
}

/// The encoding of a byte holds neither `&` nor `=`.
proof fn lemma_encoded_byte_free(byte: u8)
    ensures
        free_of(encoded_byte(byte), '&'),
        free_of(encoded_byte(byte), '='),
{
    lemma_hex_digit(byte / 16);
    lemma_hex_digit(byte % 16);
}

/// An encoded text holds neither `&` nor `=`.
pub proof fn lemma_encoded_bytes_free(bytes: Seq<u8>)
    ensures
        free_of(encoded_bytes(bytes), '&'),
        free_of(encoded_bytes(bytes), '='),
    decreases bytes.len(),
{
    if bytes.len() > 0 {
        lemma_encoded_byte_free(bytes[0]);
        lemma_encoded_bytes_free(bytes.skip(1));
    }
}

/// The first `mark` of a text that starts with a part free of `mark`,
/// followed by `mark`, is right behind that part.
proof fn lemma_first_index_after(head: Seq<char>, mark: char, tail: Seq<char>)
    requires
        free_of(head, mark),
    ensures
        first_index(head + seq![mark] + tail, mark) == head.len(),
    decreases head.len(),
{
    let text = head + seq![mark] + tail;
    if head.len() > 0 {
        assert(text[0] == head[0]);
        assert(text.skip(1) =~= head.skip(1) + seq![mark] + tail);
        lemma_first_index_after(head.skip(1), mark, tail);
    } else {
        assert(text[0] == mark);
    }
}

/// A text free of `mark` has no first `mark`.
proof fn lemma_first_index_none(text: Seq<char>, mark: char)
    requires
        free_of(text, mark),
    ensures
        first_index(text, mark) == text.len(),
    decreases text.len(),
{
    if text.len() > 0 {
        lemma_first_index_none(text.skip(1), mark);
    }
}

/// Decoding takes the encoding of a first byte off a text.
proof fn lemma_decoded_first_byte(byte: u8, rest: Seq<char>)
    ensures
        decoded_bytes(encoded_byte(byte) + rest) == match decoded_bytes(rest) {
            Some(bytes) => Some(seq![byte] + bytes),
            None => None,
        },
{
    let text = encoded_byte(byte) + rest;
    if unreserved(byte) {
        assert(text[0] == byte as char);
        assert(text.skip(1) =~= rest);
    } else if byte == 0x20 {
        assert(text[0] == '+');
        assert(text.skip(1) =~= rest);
    } else {
        lemma_hex_digit(byte / 16);
        lemma_hex_digit(byte % 16);
        assert(text[0] == '%');
        assert(text[1] == hex_digit(byte / 16));
        assert(text[2] == hex_digit(byte % 16));
        assert(text.skip(3) =~= rest);
        assert((byte / 16) * 16 + byte % 16 == byte);
    }
}

/// Decoding gives back the bytes that were encoded.
pub proof fn lemma_decoded_bytes(bytes: Seq<u8>)
    ensures
        decoded_bytes(encoded_bytes(bytes)) == Some(bytes),
    decreases bytes.len(),
{
    if bytes.len() > 0 {
        lemma_decoded_bytes(bytes.skip(1));
        lemma_decoded_first_byte(bytes[0], encoded_bytes(bytes.skip(1)));
        assert(seq![bytes[0]] + bytes.skip(1) =~= bytes);
    }
}

/// Decoding gives back the text that was encoded.
pub proof fn lemma_decoded_text(text: Seq<char>)
    ensures
        decoded_text(encoded_text(text)) == Some(text),
{
    lemma_decoded_bytes(encode_utf8(text));
    vstd::utf8::encode_utf8_valid_utf8(text);
    vstd::utf8::encode_utf8_decode_utf8(text);
}

/// Decoding gives back the pair that was encoded.
pub proof fn lemma_decoded_pair(pair: (Seq<char>, Seq<char>))
    ensures
        decoded_pair(encoded_pair(pair)) == Some(pair),
        free_of(encoded_pair(pair), '&'),
        encoded_pair(pair).len() > 0,
{
    let name = encoded_text(pair.0);
    let value = encoded_text(pair.1);
    let text = encoded_pair(pair);
    lemma_encoded_bytes_free(encode_utf8(pair.0));
    lemma_encoded_bytes_free(encode_utf8(pair.1));
    lemma_first_index_after(name, '=', value);
    assert(text.take(name.len() as int) =~= name);
    assert(text.skip(name.len() as int + 1) =~= value);
    lemma_decoded_text(pair.0);
    lemma_decoded_text(pair.1);
    assert(text[name.len() as int] == '=');
}

/// Reading a text in the format gives back the pairs that it was written
/// for, whatever their names and values hold.
pub proof fn lemma_form_round_trip(pairs: Seq<(Seq<char>, Seq<char>)>)
    ensures
        form_urldecoded(form_urlencoded(pairs)) == Some(pairs),
    decreases pairs.len(),
{
    if pairs.len() == 0 {
    } else {
        let head = encoded_pair(pairs[0]);
        lemma_decoded_pair(pairs[0]);
        if pairs.len() == 1 {
            lemma_first_index_none(head, '&');
            assert(head.take(head.len() as int) =~= head);
            assert(seq![pairs[0]] =~= pairs);
        } else {
            let tail = form_urlencoded(pairs.skip(1));
            let text = form_urlencoded(pairs);
            lemma_first_index_after(head, '&', tail);
            assert(text.take(head.len() as int) =~= head);
            assert(text.skip(head.len() as int + 1) =~= tail);
            lemma_form_round_trip(pairs.skip(1));
            assert(seq![pairs[0]] + pairs.skip(1) =~= pairs);
        }
    }
}

} // verus!
