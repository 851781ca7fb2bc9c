//! Editing a line of text by character position.
//!
//! A cursor counts characters, not bytes, so that text with multi-byte
//! characters is edited correctly. The functions here turn a character
//! position into the byte offset that `String` works with, and insert and
//! remove single characters.

use vstd::prelude::*;
use vstd::string::*;
use vstd::utf8::*;

verus! {

/// A cursor position brought back into the text: never more than its length.
pub open spec fn clamped(position: int, len: int) -> int {
    if position > len {
        len
    } else {
        position
    }
}

/// The number of bytes that the characters in front of the cursor take up in
/// UTF-8. A cursor behind the last character counts as one at the end.
pub open spec fn spec_byte_index(text: Seq<char>, character_index: int) -> int {
    encode_utf8(text.take(clamped(character_index, text.len() as int))).len() as int
}

/// `text` with `c` put in at the cursor; a cursor behind the end appends.
pub open spec fn spec_insert_char(text: Seq<char>, character_index: int, c: char) -> Seq<char> {
    text.insert(clamped(character_index, text.len() as int), c)
}

/// `text` without the character in front of the cursor. Nothing is removed
/// when the cursor stands at the start or behind the end.
pub open spec fn spec_delete_before(text: Seq<char>, character_index: int) -> Seq<char> {
    if 0 < character_index <= text.len() {
        text.remove(character_index - 1)
    } else {
        text
    }
}

/// The part of `text` in front of its first space, or all of it where it has none.
pub open spec fn spec_first_token(text: Seq<char>) -> Seq<char>
    decreases text.len(),
{
    if text.len() == 0 || text[0] == ' ' {
        Seq::empty()
    } else {
        seq![text[0]] + spec_first_token(text.drop_first())
    }
}

/// Encoding distributes over concatenation.
proof fn lemma_encode_concat(a: Seq<char>, b: Seq<char>)
    ensures
        encode_utf8(a + b) == encode_utf8(a) + encode_utf8(b),
    decreases a.len(),
{
    if a.len() == 0 {
        assert(a + b =~= b);
        assert(encode_utf8(a) + encode_utf8(b) =~= encode_utf8(b));
    } else {
        lemma_encode_concat(a.drop_first(), b);
        assert((a + b).drop_first() =~= a.drop_first() + b);
        assert((a + b)[0] == a[0]);
        assert(encode_utf8(a + b) =~= encode_utf8(a) + encode_utf8(b));
    }
}

/// The end of an encoded prefix is a character boundary of the whole encoding.
proof fn lemma_prefix_is_boundary(a: Seq<char>, b: Seq<char>)
    ensures
        is_char_boundary(encode_utf8(a + b), encode_utf8(a).len() as int),
    decreases a.len(),
{
    let whole = a + b;
    let bytes = encode_utf8(whole);
    encode_utf8_valid_utf8(whole);
    if a.len() == 0 {
    } else {
        encode_utf8_first_scalar(whole);
        encode_utf8_first_scalar(a);
        lemma_encode_concat(a, b);
        assert(whole.drop_first() =~= a.drop_first() + b);
        assert(whole[0] == a[0]);
        assert(pop_first_scalar(bytes) =~= encode_utf8(whole.drop_first()));
        lemma_prefix_is_boundary(a.drop_first(), b);
        let first: int = encode_scalar(a[0] as u32).len() as int;
        assert(length_of_first_scalar(bytes) == first);
        assert(encode_utf8(a).len() == first + encode_utf8(a.drop_first()).len());
        assert(first > 0) by {
            char_is_scalar(a[0]);
        }
    }
}

/// Texts with the same encoding are the same text.
proof fn lemma_encode_injective(a: Seq<char>, b: Seq<char>)
    requires
        encode_utf8(a) == encode_utf8(b),
    ensures
        a == b,
{
    encode_utf8_decode_utf8(a);
    encode_utf8_decode_utf8(b);
}

/// `String::insert`: puts `ch` into the text at the byte offset `idx`, which
/// has to lie on a character boundary. All bytes in front of the offset and
/// behind it stay as they are, with the encoding of `ch` between them.
#[verifier::external_body]
fn string_insert(text: &mut String, idx: usize, ch: char)
    requires
        is_char_boundary(encode_utf8(old(text)@), idx as int),
    ensures
        encode_utf8(final(text)@) == encode_utf8(old(text)@).subrange(0, idx as int) + encode_utf8(
            seq![ch],
        ) + encode_utf8(old(text)@).subrange(idx as int, encode_utf8(old(text)@).len() as int),
{
    text.insert(idx, ch);
}

/// `String::push`: appends `ch` to the end of the text.
#[verifier::external_body]
pub(crate) fn string_push(text: &mut String, ch: char)
    ensures
        final(text)@ == old(text)@.push(ch),
{
    text.push(ch);
}

/// The number of characters in `text`.
pub fn char_count(text: &String) -> (count: usize)
    ensures
        count == text@.len(),
{
    text.as_str().unicode_len()
}

/// The byte offset in `text` of the cursor at `character_index`.
pub fn byte_index(text: &String, character_index: usize) -> (offset: usize)
    ensures
        offset == spec_byte_index(text@, character_index as int),
        is_char_boundary(encode_utf8(text@), offset as int),
{
    let len: usize = char_count(text);
    let upto: usize = if character_index > len {
        len
    } else {
        character_index
    };
    let prefix = text.as_str().substring_char(0, upto);
    proof {
        let front = text@.take(upto as int);
        let back = text@.skip(upto as int);
        assert(front + back =~= text@);
        lemma_prefix_is_boundary(front, back);
    }
    prefix.as_bytes().len()
}

/// Puts `c` into `text` at the cursor and leaves everything else in place.
pub fn insert_char(text: &mut String, character_index: usize, c: char)
    ensures
        final(text)@ == spec_insert_char(old(text)@, character_index as int, c),
{
    let offset: usize = byte_index(text, character_index);
    let ghost at: int = clamped(character_index as int, text@.len() as int);
    let ghost before: Seq<char> = text@;
    string_insert(text, offset, c);
    proof {
        let front = before.take(at);
        let back = before.skip(at);
        assert(front + back =~= before);
        lemma_encode_concat(front, back);
        let bytes = encode_utf8(before);
        assert(bytes.subrange(0, offset as int) =~= encode_utf8(front));
        assert(bytes.subrange(offset as int, bytes.len() as int) =~= encode_utf8(back));
        lemma_encode_concat(front, seq![c]);
        lemma_encode_concat(front + seq![c], back);
        assert(front + seq![c] + back =~= before.insert(at, c));
        lemma_encode_injective(text@, before.insert(at, c));
    }
}

/// Takes the character in front of the cursor out of `text`, where there is one.
pub fn delete_before(text: &mut String, character_index: usize)
    ensures
        final(text)@ == spec_delete_before(old(text)@, character_index as int),
{
    let len: usize = char_count(text);
    if character_index != 0 && character_index <= len {
        let mut rest = String::from_str(text.as_str().substring_char(0, character_index - 1));
        rest.append(text.as_str().substring_char(character_index, len));
        *text = rest;
    }
}

/// The part of `text` in front of its first space.
pub fn first_token(text: &str) -> (token: String)
    ensures
        token@ == spec_first_token(text@),
{
    let len: usize = text.unicode_len();
    let mut end: usize = 0;
    while end < len && text.get_char(end) != ' '
        invariant
            end <= len,
            len == text@.len(),
            forall|i: int| 0 <= i < end ==> text@[i] != ' ',
        decreases len - end,
    {
        end = end + 1;
    }
    proof {
        lemma_first_token_is_prefix(text@, end as int);
    }
    String::from_str(text.substring_char(0, end))
}

/// Where no space stands in front of `end`, and one stands at `end` or the
/// text ends there, the first token is the text up to `end`.
proof fn lemma_first_token_is_prefix(text: Seq<char>, end: int)
    requires
        0 <= end <= text.len(),
        forall|i: int| 0 <= i < end ==> text[i] != ' ',
        end == text.len() || text[end] == ' ',
    ensures
        spec_first_token(text) == text.subrange(0, end),
    decreases end,
{
    if end == 0 {
        assert(text.subrange(0, 0) =~= Seq::<char>::empty());
    } else {
        let rest = text.drop_first();
        assert forall|i: int| 0 <= i < end - 1 implies rest[i] != ' ' by {
            assert(rest[i] == text[i + 1]);
        }
        lemma_first_token_is_prefix(rest, end - 1);
        assert(text.subrange(0, end) =~= seq![text[0]] + rest.subrange(0, end - 1));
    }
}

} // verus!
