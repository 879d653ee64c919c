use crate::letters::{ascii_lowercase_byte, lowercase_bytes_of, thirteen_letters};
use crate::spelling::{ascii_lowercase, ascii_lowercase_char, thirteen_spelled};
use vstd::prelude::*;
use vstd::utf8::{encode_scalar, encode_utf8, is_ascii_chars, is_ascii_chars_encode_utf8};

verus! {

/// A character below 128 and the byte with its number stand for each other.
proof fn lemma_ascii_char(c: char)
    ensures
        (c as u32) < 128 <==> '\0' <= c <= '\u{7f}',
        (c as u32) < 128 ==> (c as u8) < 128 && (c as u8) as char == c && (c as u8) as u32
            == c as u32,
{
}

/// The UTF-8 form of one character: a character below 128 is its own single byte, and
/// every byte of any other character is 128 or more.
proof fn lemma_scalar_bytes(c: char)
    ensures
        encode_scalar(c as u32).len() >= 1,
        (c as u32) < 128 ==> encode_scalar(c as u32) == seq![c as u8],
        (c as u32) >= 128 ==> forall|i: int|
            0 <= i < encode_scalar(c as u32).len() ==> #[trigger] encode_scalar(c as u32)[i]
                >= 128,
{
    let v = c as u32;
    assert(v < 128 ==> (v & 0x7F) as u8 == v as u8) by (bit_vector);
    assert(0xC0u8 | ((v >> 6) & 0x1F) as u8 >= 128) by (bit_vector);
    assert(0xE0u8 | ((v >> 12) & 0x0F) as u8 >= 128) by (bit_vector);
    assert(0xF0u8 | ((v >> 18) & 0x7) as u8 >= 128) by (bit_vector);
    assert(0x80u8 | (v & 0x3F) as u8 >= 128) by (bit_vector);
    assert(0x80u8 | ((v >> 6) & 0x3F) as u8 >= 128) by (bit_vector);
    assert(0x80u8 | ((v >> 12) & 0x3F) as u8 >= 128) by (bit_vector);
    if v < 128 {
        assert(encode_scalar(v) =~= seq![c as u8]);
    }
}

/// A byte below 128 occurs in the UTF-8 form of a text exactly when the text holds the
/// character with that number.
proof fn lemma_ascii_byte_of_text(text: Seq<char>, b: u8)
    requires
        b < 128,
    ensures
        encode_utf8(text).contains(b) <==> text.contains(b as char),
    decreases text.len(),
{
    let bytes = encode_utf8(text);
    if text.len() == 0 {
        assert(bytes.len() == 0);
    } else {
        let head = encode_scalar(text[0] as u32);
        let rest = text.drop_first();
        let tail = encode_utf8(rest);
        assert(bytes == head + tail);
        lemma_scalar_bytes(text[0]);
        lemma_ascii_byte_of_text(rest, b);
        if bytes.contains(b) {
            let j = choose|j: int| 0 <= j < bytes.len() && bytes[j] == b;
            if j < head.len() {
                assert(head[j] == b);
                lemma_ascii_char(text[0]);
                assert(text[0] == b as char);
            } else {
                assert(tail[j - head.len()] == b);
                let k = choose|k: int| 0 <= k < rest.len() && rest[k] == b as char;
                assert(text[k + 1] == b as char);
            }
        }
        if text.contains(b as char) {
            let i = choose|i: int| 0 <= i < text.len() && text[i] == b as char;
            if i == 0 {
                assert(head[0] == b);
                assert(bytes[0] == b);
            } else {
                assert(rest[i - 1] == b as char);
                let k = choose|k: int| 0 <= k < tail.len() && tail[k] == b;
                assert(bytes[head.len() + k] == b);
            }
        }
    }
}

/// Every byte of the UTF-8 form of a text is below 128 exactly when every character of
/// the text is.
proof fn lemma_ascii_bytes_of_ascii_text(text: Seq<char>)
    ensures
        is_ascii_chars(text) <==> forall|j: int|
            0 <= j < encode_utf8(text).len() ==> #[trigger] encode_utf8(text)[j] < 128,
    decreases text.len(),
{
    let bytes = encode_utf8(text);
    if is_ascii_chars(text) {
        is_ascii_chars_encode_utf8(text);
        assert forall|j: int| 0 <= j < bytes.len() implies #[trigger] bytes[j] < 128 by {
            assert(bytes[j] == text[j] as u8);
        }
    }
    if forall|j: int| 0 <= j < bytes.len() ==> #[trigger] bytes[j] < 128 {
        if text.len() > 0 {
            let head = encode_scalar(text[0] as u32);
            let rest = text.drop_first();
            let tail = encode_utf8(rest);
            assert(bytes == head + tail);
            lemma_scalar_bytes(text[0]);
            lemma_ascii_bytes_of_ascii_text(rest);
            assert(bytes[0] == head[0]);
            assert((text[0] as u32) < 128);
            lemma_ascii_char(text[0]);
            assert forall|j: int| 0 <= j < tail.len() implies #[trigger] tail[j] < 128 by {
                assert(bytes[head.len() + j] == tail[j]);
            }
            assert(is_ascii_chars(rest));
            assert forall|i: int| 0 <= i < text.len() implies '\0' <= #[trigger] text[i]
                <= '\u{7f}' by {
                if i > 0 {
                    assert(text[i] == rest[i - 1]);
                }
            }
        }
    }
}

/// A byte below 128 is among the lower-case bytes of a text exactly when the character
/// with that number is among the text's characters in ASCII lower case.
proof fn lemma_lowercase_ascii_byte_of_text(text: Seq<char>, b: u8)
    requires
        b < 128,
    ensures
        lowercase_bytes_of(text).contains(b) <==> ascii_lowercase(text).contains(b as char),
{
    let bytes = encode_utf8(text);
    let lowered_bytes = bytes.map_values(|x: u8| ascii_lowercase_byte(x));
    let lowered = ascii_lowercase(text);
    if lowered_bytes.contains(b) {
        let j = choose|j: int| 0 <= j < lowered_bytes.len() && lowered_bytes[j] == b;
        let x = bytes[j];
        assert(ascii_lowercase_byte(x) == b);
        assert(x < 128);
        assert(bytes.contains(x));
        lemma_ascii_byte_of_text(text, x);
        let i = choose|i: int| 0 <= i < text.len() && text[i] == x as char;
        assert(lowered[i] == ascii_lowercase_char(x as char));
        assert(lowered[i] == b as char);
    }
    if lowered.contains(b as char) {
        let i = choose|i: int| 0 <= i < lowered.len() && lowered[i] == b as char;
        let c = text[i];
        assert(ascii_lowercase_char(c) == b as char);
        assert((c as u32) < 128);
        let x = c as u8;
        assert(text[i] == x as char);
        assert(text.contains(x as char));
        lemma_ascii_byte_of_text(text, x);
        let j = choose|j: int| 0 <= j < bytes.len() && bytes[j] == x;
        assert(lowered_bytes[j] == ascii_lowercase_byte(x));
        assert(lowered_bytes[j] == b);
    }
}

/// The six letters of "thirteen", as characters.
pub open spec fn thirteen_characters() -> Set<char> {
    thirteen_spelled().to_set()
}

/// The characters of a text, each in ASCII lower case and each once.
pub open spec fn lowercase_characters_of(text: Seq<char>) -> Set<char> {
    ascii_lowercase(text).to_set()
}

/// The six letters of "thirteen" are t, h, i, r, e and n, and a byte is one of them
/// exactly when its character is.
proof fn lemma_thirteen_characters(b: u8)
    ensures
        thirteen_characters() == set!['t', 'h', 'i', 'r', 'e', 'n'],
        thirteen_letters().contains(b) ==> b < 128,
        thirteen_letters().contains(b) <==> b < 128 && thirteen_characters().contains(b as char),
{
    let word = thirteen_spelled();
    let letters = set!['t', 'h', 'i', 'r', 'e', 'n'];
    assert forall|c: char| #[trigger] word.to_set().contains(c) <==> letters.contains(c) by {
        if letters.contains(c) {
            assert(word[0] == 't' && word[1] == 'h' && word[2] == 'i' && word[3] == 'r' && word[5]
                == 'e' && word[7] == 'n');
        }
    }
    assert(word.to_set() =~= letters);
}

/// What a `CanSpell` asks of the bytes of a text says of its characters: the text holds
/// each letter of "thirteen", small or capital.
pub proof fn lemma_can_spell_by_characters(text: Seq<char>)
    ensures
        thirteen_letters().subset_of(lowercase_bytes_of(text)) <==> thirteen_characters().subset_of(
            lowercase_characters_of(text),
        ),
{
    let bytes = lowercase_bytes_of(text);
    let characters = lowercase_characters_of(text);
    if thirteen_letters().subset_of(bytes) {
        assert forall|c: char| thirteen_characters().contains(c) implies characters.contains(
            c,
        ) by {
            lemma_thirteen_characters(c as u8);
            assert(thirteen_letters().contains(c as u8));
            lemma_lowercase_ascii_byte_of_text(text, c as u8);
        }
    }
    if thirteen_characters().subset_of(characters) {
        assert forall|b: u8| thirteen_letters().contains(b) implies bytes.contains(b) by {
            lemma_thirteen_characters(b);
            lemma_lowercase_ascii_byte_of_text(text, b);
        }
    }
}

/// What an `AnagramOf` asks of the bytes of a text says of its characters: in lower
/// case and each taken once, they are the letters of "thirteen" and no others.
pub proof fn lemma_anagram_by_characters(text: Seq<char>)
    ensures
        lowercase_bytes_of(text) == thirteen_letters() <==> lowercase_characters_of(text)
            == thirteen_characters(),
{
    let bytes = encode_utf8(text);
    let lowered_bytes = bytes.map_values(|x: u8| ascii_lowercase_byte(x));
    let lowered = ascii_lowercase(text);
    lemma_ascii_bytes_of_ascii_text(text);
    if lowercase_bytes_of(text) == thirteen_letters() {
        assert forall|j: int| 0 <= j < bytes.len() implies #[trigger] bytes[j] < 128 by {
            assert(lowered_bytes[j] == ascii_lowercase_byte(bytes[j]));
            assert(lowered_bytes.to_set().contains(lowered_bytes[j]));
            lemma_thirteen_characters(lowered_bytes[j]);
        }
        assert(is_ascii_chars(text));
        assert forall|c: char| #[trigger]
            lowercase_characters_of(text).contains(c) <==> thirteen_characters().contains(c) by {
            if lowered.contains(c) {
                let i = choose|i: int| 0 <= i < lowered.len() && lowered[i] == c;
                assert(c == ascii_lowercase_char(text[i]));
                assert('\0' <= text[i] <= '\u{7f}');
                assert((c as u32) < 128);
            }
            lemma_ascii_char(c);
            if (c as u32) < 128 {
                lemma_lowercase_ascii_byte_of_text(text, c as u8);
            }
            lemma_thirteen_characters(c as u8);
        }
        assert(lowercase_characters_of(text) =~= thirteen_characters());
    }
    if lowercase_characters_of(text) == thirteen_characters() {
        assert forall|i: int| 0 <= i < text.len() implies '\0' <= #[trigger] text[i]
            <= '\u{7f}' by {
            assert(lowered[i] == ascii_lowercase_char(text[i]));
            assert(lowered.to_set().contains(lowered[i]));
            lemma_thirteen_characters(0);
        }
        assert(is_ascii_chars(text));
        assert forall|b: u8| #[trigger]
            lowercase_bytes_of(text).contains(b) <==> thirteen_letters().contains(b) by {
            if lowered_bytes.contains(b) {
                let j = choose|j: int| 0 <= j < lowered_bytes.len() && lowered_bytes[j] == b;
                assert(bytes[j] < 128);
                assert(b < 128);
            }
            if b < 128 {
                lemma_lowercase_ascii_byte_of_text(text, b);
            }
            lemma_thirteen_characters(b);
        }
        assert(lowercase_bytes_of(text) =~= thirteen_letters());
    }
}

} // verus!
