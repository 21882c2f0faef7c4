//! Byte and UTF-16 widths of characters, and the byte offsets of the
//! characters of a text, as the Unicode encodings define them.
use vstd::prelude::*;

verus! {

/// Number of bytes of `c` in UTF-8.
pub open spec fn utf8_width(c: char) -> nat {
    if (c as u32) < 0x80 {
        1
    } else if (c as u32) < 0x800 {
        2
    } else if (c as u32) < 0x10000 {
        3
    } else {
        4
    }
}

/// Number of code units of `c` in UTF-16.
pub open spec fn utf16_width(c: char) -> nat {
    if (c as u32) < 0x10000 {
        1
    } else {
        2
    }
}

/// UTF-8 byte length of a character sequence.
pub open spec fn utf8_len(s: Seq<char>) -> nat
    decreases s.len(),
{
    if s.len() == 0 {
        0
    } else {
        utf8_len(s.drop_last()) + utf8_width(s.last())
    }
}

/// UTF-16 length of a character sequence.
pub open spec fn utf16_len(s: Seq<char>) -> nat
    decreases s.len(),
{
    if s.len() == 0 {
        0
    } else {
        utf16_len(s.drop_last()) + utf16_width(s.last())
    }
}

/// UTF-8 byte offset of the character at position `i` of `s`.
pub open spec fn byte_offset_of(s: Seq<char>, i: int) -> nat {
    utf8_len(s.take(i))
}

/// `byte` is the offset of a character boundary of `s`: the start of some
/// character, or the end of the text.
pub open spec fn is_boundary(s: Seq<char>, byte: int) -> bool {
    exists|i: int| 0 <= i <= s.len() && byte_offset_of(s, i) == byte
}

/// Byte length of `c` in UTF-8 (`char::len_utf8`).
pub fn char_utf8_width(c: char) -> (w: usize)
    ensures
        w == utf8_width(c),
{
    let v = c as u32;
    if v < 0x80 {
        1
    } else if v < 0x800 {
        2
    } else if v < 0x10000 {
        3
    } else {
        4
    }
}

/// Number of UTF-16 code units of `c` (`char::len_utf16`).
pub fn char_utf16_width(c: char) -> (w: usize)
    ensures
        w == utf16_width(c),
{
    if (c as u32) < 0x10000 {
        1
    } else {
        2
    }
}

/// Taking one more character adds its width.
pub proof fn lemma_utf8_len_take(s: Seq<char>, i: int)
    requires
        0 <= i < s.len(),
    ensures
        utf8_len(s.take(i + 1)) == utf8_len(s.take(i)) + utf8_width(s[i]),
        utf16_len(s.take(i + 1)) == utf16_len(s.take(i)) + utf16_width(s[i]),
{
    assert(s.take(i + 1).drop_last() =~= s.take(i));
}

/// Byte offsets grow strictly with the character position.
pub proof fn lemma_byte_offset_strictly_increasing(s: Seq<char>, i: int, j: int)
    requires
        0 <= i < j <= s.len(),
    ensures
        byte_offset_of(s, i) < byte_offset_of(s, j),
    decreases j - i,
{
    lemma_utf8_len_take(s, j - 1);
    if i < j - 1 {
        lemma_byte_offset_strictly_increasing(s, i, j - 1);
    }
}

/// The code point position whose byte offset is `offset`.
pub open spec fn position_of(s: Seq<char>, offset: int) -> int {
    choose|i: int| 0 <= i <= s.len() && byte_offset_of(s, i) == offset
}

/// The position of the character boundary at byte `byte` of `c`.
pub fn char_index_of_byte(c: &Vec<char>, byte: usize) -> (r: usize)
    requires
        is_boundary(c@, byte as int),
    ensures
        r <= c@.len(),
        byte_offset_of(c@, r as int) == byte,
        r as int == position_of(c@, byte as int),
{
    let ghost j = choose|j: int| 0 <= j <= c@.len() && byte_offset_of(c@, j) == byte;
    let n = c.len();
    let mut i: usize = 0;
    let mut acc: usize = 0;
    assert(c@.take(0) =~= Seq::<char>::empty());
    while acc < byte
        invariant
            0 <= j <= c@.len(),
            n == c@.len(),
            byte_offset_of(c@, j) == byte,
            i <= j,
            acc == byte_offset_of(c@, i as int),
        decreases j - i,
    {
        proof {
            assert(i < j);
            lemma_utf8_len_take(c@, i as int);
            if i + 1 < j {
                lemma_byte_offset_strictly_increasing(c@, i + 1, j);
            }
        }
        acc = acc + char_utf8_width(c[i]);
        i = i + 1;
    }
    proof {
        if (i as int) < j {
            lemma_byte_offset_strictly_increasing(c@, i as int, j);
        }
        let p = position_of(c@, byte as int);
        if p != i {
            if p < i {
                lemma_byte_offset_strictly_increasing(c@, p, i as int);
            } else {
                lemma_byte_offset_strictly_increasing(c@, i as int, p);
            }
        }
    }
    i
}

} // verus!
