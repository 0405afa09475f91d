//! Editing a one-line text input whose cursor is a byte offset into the
//! UTF-8 text, as the command line and input dialogs keep it.

use vstd::prelude::*;
use vstd::utf8::{encode_scalar, encode_utf8};
use crate::text::{chars_of, string_of};

verus! {

/// The number of UTF-8 bytes of a character.
pub open spec fn char_len(c: char) -> nat {
    encode_scalar(c as u32).len()
}

/// The number of UTF-8 bytes of a text (`str::len`).
pub open spec fn byte_len(s: Seq<char>) -> nat {
    encode_utf8(s).len()
}

/// `pos` falls between two characters of `s` (or at either end).
pub open spec fn is_boundary(s: Seq<char>, pos: int) -> bool {
    exists|k: int| 0 <= k <= s.len() && byte_len(s.take(k)) == pos
}

/// The character index at the byte offset `pos`, which is a boundary.
pub open spec fn char_index(s: Seq<char>, pos: int) -> int {
    choose|k: int| 0 <= k <= s.len() && byte_len(s.take(k)) == pos
}

/// The number of UTF-8 bytes of a text, read from its byte slice (whose
/// length always fits in `usize`).
pub fn byte_length(s: &str) -> (n: usize)
    ensures
        n == byte_len(s@),
{
    let b = s.as_bytes();
    b.len()
}

/// Every character takes one to four bytes.
pub proof fn lemma_char_len(c: char)
    ensures
        1 <= char_len(c) <= 4,
{
}

/// Adding a character at the end adds its bytes.
pub proof fn lemma_byte_len_push(s: Seq<char>, c: char)
    ensures
        byte_len(s.push(c)) == byte_len(s) + char_len(c),
    decreases s.len(),
{
    let t = s.push(c);
    assert(t[0] == if s.len() > 0 { s[0] } else { c });
    if s.len() > 0 {
        lemma_byte_len_push(s.drop_first(), c);
        assert(t.drop_first() =~= s.drop_first().push(c));
        assert(encode_utf8(t) == encode_scalar(s[0] as u32) + encode_utf8(t.drop_first()));
        assert(encode_utf8(s) == encode_scalar(s[0] as u32) + encode_utf8(s.drop_first()));
    } else {
        assert(t.drop_first() =~= Seq::<char>::empty());
        assert(encode_utf8(t.drop_first()) =~= Seq::<u8>::empty());
        assert(encode_utf8(t) =~= encode_scalar(c as u32));
        assert(encode_utf8(s) =~= Seq::<u8>::empty());
    }
}

/// A text takes at most four bytes a character.
pub proof fn lemma_byte_len_bound(s: Seq<char>)
    ensures
        byte_len(s) <= 4 * s.len(),
    decreases s.len(),
{
    if s.len() > 0 {
        lemma_byte_len_bound(s.drop_last());
        assert(s.drop_last().push(s.last()) =~= s);
        lemma_byte_len_push(s.drop_last(), s.last());
        lemma_char_len(s.last());
    } else {
        assert(encode_utf8(s) =~= Seq::<u8>::empty());
    }
}

/// The bytes of prefixes grow strictly with their length.
pub proof fn lemma_byte_len_prefix(s: Seq<char>, i: int, j: int)
    requires
        0 <= i < j <= s.len(),
    ensures
        byte_len(s.take(i)) < byte_len(s.take(j)),
    decreases j - i,
{
    assert(s.take(j) =~= s.take(j - 1).push(s[j - 1]));
    lemma_byte_len_push(s.take(j - 1), s[j - 1]);
    lemma_char_len(s[j - 1]);
    if i < j - 1 {
        lemma_byte_len_prefix(s, i, j - 1);
    }
}

/// A boundary determines its character index.
pub proof fn lemma_char_index(s: Seq<char>, pos: int, k: int)
    requires
        0 <= k <= s.len(),
        byte_len(s.take(k)) == pos,
    ensures
        is_boundary(s, pos),
        char_index(s, pos) == k,
{
    let c = char_index(s, pos);
    if c < k {
        lemma_byte_len_prefix(s, c, k);
    } else if c > k {
        lemma_byte_len_prefix(s, k, c);
    }
}

/// The number of UTF-8 bytes of a character (`char::len_utf8`).
pub fn len_utf8(c: char) -> (r: usize)
    ensures
        r == char_len(c),
{
    let u = c as u32;
    if u <= 0x7f {
        1
    } else if u <= 0x7ff {
        2
    } else if u <= 0xffff {
        3
    } else {
        4
    }
}

/// Finds the character index of byte offset `pos`.
pub fn find_index(v: &Vec<char>, pos: usize) -> (k: usize)
    requires
        is_boundary(v@, pos as int),
    ensures
        k <= v.len(),
        k == char_index(v@, pos as int),
        byte_len(v@.take(k as int)) == pos,
{
    let ghost target = char_index(v@, pos as int);
    let mut k: usize = 0;
    let mut acc: usize = 0;
    assert(v@.take(0) =~= Seq::<char>::empty());
    while acc < pos
        invariant
            0 <= target <= v.len(),
            byte_len(v@.take(target)) == pos,
            k <= target,
            acc == byte_len(v@.take(k as int)),
        decreases target - k,
    {
        proof {
            if k == target {
                assert(false);
            }
            assert(v@.take(k + 1) =~= v@.take(k as int).push(v@[k as int]));
            lemma_byte_len_push(v@.take(k as int), v@[k as int]);
            if k + 1 < target {
                lemma_byte_len_prefix(v@, k + 1, target);
            }
        }
        acc = acc + len_utf8(v[k]);
        k = k + 1;
    }
    proof {
        if k < target {
            lemma_byte_len_prefix(v@, k as int, target);
        }
    }
    k
}

/// Inserts `c` at byte offset `pos` and returns the new text and the
/// offset just after the inserted character (`String::insert`).
pub fn insert_at(s: &String, pos: usize, c: char) -> (r: (String, usize))
    requires
        is_boundary(s@, pos as int),
        byte_len(s@) + 4 <= usize::MAX,
    ensures
        r.0@ == s@.insert(char_index(s@, pos as int), c),
        r.1 == pos + char_len(c),
        is_boundary(r.0@, r.1 as int),
        char_index(r.0@, r.1 as int) == char_index(s@, pos as int) + 1,
{
    let mut v = chars_of(s.as_str());
    let k = find_index(&v, pos);
    v.insert(k, c);
    let t = string_of(v.as_slice());
    proof {
        assert(v@.take(k + 1) =~= s@.take(k as int).push(c));
        lemma_byte_len_push(s@.take(k as int), c);
        lemma_char_index(v@, pos + char_len(c), k + 1);
        lemma_char_len(c);
        if k < s@.len() {
            lemma_byte_len_prefix(s@, k as int, s@.len() as int);
        }
        assert(s@.take(s@.len() as int) =~= s@);
    }
    (t, pos + len_utf8(c))
}

/// Byte offset of the character boundary before `pos` (0 stays 0).
pub fn prev_boundary(s: &String, pos: usize) -> (r: usize)
    requires
        is_boundary(s@, pos as int),
    ensures
        is_boundary(s@, r as int),
        pos == 0 ==> r == 0,
        pos > 0 ==> char_index(s@, r as int) == char_index(s@, pos as int) - 1,
{
    let v = chars_of(s.as_str());
    let k = find_index(&v, pos);
    if k == 0 {
        assert(v@.take(0) =~= Seq::<char>::empty());
        return 0;
    }
    proof {
        lemma_byte_len_prefix(v@, 0, k as int);
    }
    let mut acc: usize = 0;
    let mut i: usize = 0;
    assert(v@.take(0) =~= Seq::<char>::empty());
    while i + 1 < k
        invariant
            0 < k <= v.len(),
            i < k,
            acc == byte_len(v@.take(i as int)),
            byte_len(v@.take(k as int)) == pos,
        decreases k - i,
    {
        proof {
            assert(v@.take(i + 1) =~= v@.take(i as int).push(v@[i as int]));
            lemma_byte_len_push(v@.take(i as int), v@[i as int]);
            lemma_byte_len_prefix(v@, i + 1, k as int);
        }
        acc = acc + len_utf8(v[i]);
        i = i + 1;
    }
    proof {
        lemma_char_index(v@, acc as int, i as int);
    }
    acc
}

/// Byte offset of the character boundary after `pos` (the end stays put).
pub fn next_boundary(s: &String, pos: usize) -> (r: usize)
    requires
        is_boundary(s@, pos as int),
        byte_len(s@) <= usize::MAX,
    ensures
        is_boundary(s@, r as int),
        char_index(s@, pos as int) == s@.len() ==> r == pos,
        char_index(s@, pos as int) < s@.len() ==> char_index(s@, r as int) == char_index(
            s@,
            pos as int,
        ) + 1,
{
    let v = chars_of(s.as_str());
    let k = find_index(&v, pos);
    if k == v.len() {
        return pos;
    }
    proof {
        assert(v@.take(k + 1) =~= v@.take(k as int).push(v@[k as int]));
        lemma_byte_len_push(v@.take(k as int), v@[k as int]);
        lemma_char_index(v@, pos + char_len(v@[k as int]), k + 1);
        if k + 1 < v.len() {
            lemma_byte_len_prefix(v@, k + 1, v.len() as int);
        }
        assert(v@.take(v.len() as int) =~= v@);
    }
    let w = len_utf8(v[k]);
    pos + w
}

/// Removes the character just before byte offset `pos` (which is past the
/// start) and returns the new text and the offset where it stood
/// (`String::remove`).
pub fn remove_before(s: &String, pos: usize) -> (r: (String, usize))
    requires
        is_boundary(s@, pos as int),
        pos > 0,
    ensures
        char_index(s@, pos as int) >= 1,
        r.0@ == s@.remove(char_index(s@, pos as int) - 1),
        is_boundary(r.0@, r.1 as int),
        char_index(r.0@, r.1 as int) == char_index(s@, pos as int) - 1,
{
    let prev = prev_boundary(s, pos);
    let mut v = chars_of(s.as_str());
    let k = find_index(&v, pos);
    proof {
        assert(v@.take(0) =~= Seq::<char>::empty());
    }
    v.remove(k - 1);
    let t = string_of(v.as_slice());
    proof {
        let ki = char_index(s@, prev as int);
        assert(v@.take(ki) =~= s@.take(ki));
        lemma_char_index(v@, prev as int, ki);
    }
    (t, prev)
}

/// The byte offset of the end of the text.
pub proof fn lemma_end_boundary(s: Seq<char>)
    ensures
        is_boundary(s, byte_len(s) as int),
        char_index(s, byte_len(s) as int) == s.len(),
{
    assert(s.take(s.len() as int) =~= s);
    lemma_char_index(s, byte_len(s) as int, s.len() as int);
}

/// The start of the text.
pub proof fn lemma_start_boundary(s: Seq<char>)
    ensures
        is_boundary(s, 0),
        char_index(s, 0) == 0,
{
    assert(s.take(0) =~= Seq::<char>::empty());
    lemma_char_index(s, 0, 0);
}

} // verus!
