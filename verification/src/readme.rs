//! Putting the badges into a README: one insertion, just after the title.

use vstd::prelude::*;
use vstd::utf8::{
    decode_utf8, decode_utf8_encode_utf8, decode_utf8_split, encode_utf8, encode_utf8_decode_utf8,
    encode_utf8_first_scalar, encode_utf8_valid_utf8, is_char_boundary, pop_first_scalar,
    valid_utf8_split,
};

verus! {

/// Whether `offset`, counted in bytes of the UTF-8 form of `text`, falls between two
/// characters of `text`, or before its first or after its last.
pub open spec fn can_insert_at(text: Seq<char>, offset: int) -> bool {
    is_char_boundary(encode_utf8(text), offset)
}

/// `text` with `block` put in after the first `offset` bytes of its UTF-8 form.
pub open spec fn spliced(text: Seq<char>, offset: int, block: Seq<char>) -> Seq<char> {
    let bytes = encode_utf8(text);
    decode_utf8(bytes.subrange(0, offset)) + block + decode_utf8(
        bytes.subrange(offset, bytes.len() as int),
    )
}

/// The UTF-8 form of two texts in a row is the two forms in a row.
pub proof fn lemma_encode_utf8_concat(first: Seq<char>, second: Seq<char>)
    ensures
        encode_utf8(first + second) == encode_utf8(first) + encode_utf8(second),
    decreases first.len(),
{
    if first.len() == 0 {
        assert(first + second =~= second);
        assert(encode_utf8(first) + encode_utf8(second) =~= encode_utf8(second));
    } else {
        lemma_encode_utf8_concat(first.drop_first(), second);
        assert((first + second).drop_first() =~= first.drop_first() + second);
        assert((first + second)[0] == first[0]);
        assert(encode_utf8(first + second) =~= encode_utf8(first) + encode_utf8(second));
    }
}

/// In bytes, the insertion is a plain splice: the bytes before the offset, the bytes
/// of the block, the bytes from the offset on.
pub proof fn lemma_spliced_bytes(text: Seq<char>, offset: int, block: Seq<char>)
    requires
        can_insert_at(text, offset),
    ensures
        encode_utf8(spliced(text, offset, block)) == encode_utf8(text).subrange(0, offset)
            + encode_utf8(block) + encode_utf8(text).subrange(
            offset,
            encode_utf8(text).len() as int,
        ),
{
    let bytes = encode_utf8(text);
    let before = bytes.subrange(0, offset);
    let after = bytes.subrange(offset, bytes.len() as int);
    encode_utf8_valid_utf8(text);
    valid_utf8_split(bytes, offset);
    decode_utf8_encode_utf8(before);
    decode_utf8_encode_utf8(after);
    lemma_encode_utf8_concat(decode_utf8(before), block);
    lemma_encode_utf8_concat(decode_utf8(before) + block, decode_utf8(after));
}

/// In characters, the insertion leaves the text as it was on both sides of the
/// block: nothing else is edited.
pub proof fn lemma_spliced_keeps_text(text: Seq<char>, offset: int, block: Seq<char>)
    requires
        can_insert_at(text, offset),
    ensures
        exists|at: int|
            0 <= at <= text.len() && spliced(text, offset, block) == #[trigger] text.take(at)
                + block + text.skip(at),
{
    let bytes = encode_utf8(text);
    let before = decode_utf8(bytes.subrange(0, offset));
    let after = decode_utf8(bytes.subrange(offset, bytes.len() as int));
    encode_utf8_valid_utf8(text);
    decode_utf8_split(bytes, offset);
    encode_utf8_decode_utf8(text);
    assert(text == before + after);
    let at = before.len() as int;
    assert(text.take(at) =~= before);
    assert(text.skip(at) =~= after);
    assert(spliced(text, offset, block) == text.take(at) + block + text.skip(at));
}

/// The place between two texts written in a row is one where text can be inserted.
pub proof fn lemma_can_insert_between(first: Seq<char>, second: Seq<char>)
    ensures
        can_insert_at(first + second, encode_utf8(first).len() as int),
    decreases first.len(),
{
    let whole = first + second;
    let bytes = encode_utf8(whole);
    encode_utf8_valid_utf8(whole);
    if first.len() > 0 {
        encode_utf8_first_scalar(whole);
        encode_utf8_first_scalar(first);
        assert(whole[0] == first[0]);
        assert(whole.drop_first() =~= first.drop_first() + second);
        assert(pop_first_scalar(bytes) =~= encode_utf8(whole.drop_first()));
        lemma_can_insert_between(first.drop_first(), second);
    }
}

/// Inserting twice at one offset leaves two copies of the block, one after the other,
/// between the two sides of the text: the second insertion does not see the first.
pub proof fn lemma_spliced_twice(text: Seq<char>, offset: int, block: Seq<char>)
    requires
        can_insert_at(text, offset),
    ensures
        can_insert_at(spliced(text, offset, block), offset),
        exists|at: int|
            0 <= at <= text.len() && spliced(spliced(text, offset, block), offset, block)
                == #[trigger] text.take(at) + block + block + text.skip(at),
        block.len() > 0 ==> spliced(spliced(text, offset, block), offset, block) != spliced(
            text,
            offset,
            block,
        ),
{
    let bytes = encode_utf8(text);
    let before = decode_utf8(bytes.subrange(0, offset));
    let after = decode_utf8(bytes.subrange(offset, bytes.len() as int));
    let once = spliced(text, offset, block);
    encode_utf8_valid_utf8(text);
    valid_utf8_split(bytes, offset);
    decode_utf8_encode_utf8(bytes.subrange(0, offset));
    decode_utf8_split(bytes, offset);
    encode_utf8_decode_utf8(text);
    assert(text == before + after);
    assert(once =~= before + (block + after));
    lemma_can_insert_between(before, block + after);
    lemma_encode_utf8_concat(before, block + after);
    let once_bytes = encode_utf8(once);
    assert(once_bytes.subrange(0, offset) =~= encode_utf8(before));
    assert(once_bytes.subrange(offset, once_bytes.len() as int) =~= encode_utf8(block + after));
    encode_utf8_decode_utf8(before);
    encode_utf8_decode_utf8(block + after);
    let twice = spliced(once, offset, block);
    assert(twice =~= before + block + block + after);
    let at = before.len() as int;
    assert(text.take(at) =~= before);
    assert(text.skip(at) =~= after);
    assert(twice == text.take(at) + block + block + text.skip(at));
    assert(twice.len() == once.len() + block.len());
}

/// Inserts `block` into `text` after its first `offset` bytes.
pub fn insert_at(text: &str, offset: usize, block: &str) -> (out: String)
    requires
        can_insert_at(text@, offset as int),
    ensures
        out@ == spliced(text@, offset as int, block@),
{
    let (before, after) = text.split_at(offset);
    proof {
        encode_utf8_decode_utf8(before@);
        encode_utf8_decode_utf8(after@);
    }
    let mut out = String::from_str(before);
    out.append(block);
    out.append(after);
    out
}


} // verus!
