//! Three-way comparison results and the orders used for sorting.

use vstd::prelude::*;

verus! {

/// The result of comparing two values.
#[derive(Debug, Clone, Copy, PartialEq, Eq, Structural)]
pub enum Comparison {
    Less,
    Equal,
    Greater,
}

/// The comparison with its sides swapped.
pub open spec fn flip(c: Comparison) -> Comparison {
    match c {
        Comparison::Less => Comparison::Greater,
        Comparison::Equal => Comparison::Equal,
        Comparison::Greater => Comparison::Less,
    }
}

/// Compares two integers.
pub open spec fn compare_int(a: int, b: int) -> Comparison {
    if a < b {
        Comparison::Less
    } else if a == b {
        Comparison::Equal
    } else {
        Comparison::Greater
    }
}

/// Lexicographic comparison of two texts by code point; this is the order
/// of `str`, whose UTF-8 bytes compare as the code points do.
pub open spec fn compare_text(a: Seq<char>, b: Seq<char>) -> Comparison
    decreases a.len(),
{
    if a.len() == 0 {
        if b.len() == 0 {
            Comparison::Equal
        } else {
            Comparison::Less
        }
    } else if b.len() == 0 {
        Comparison::Greater
    } else if a[0] != b[0] {
        compare_int(a[0] as int, b[0] as int)
    } else {
        compare_text(a.drop_first(), b.drop_first())
    }
}

/// Comparing texts the other way round gives the flipped result, and
/// `Equal` means equal.
pub proof fn lemma_compare_text_flip(a: Seq<char>, b: Seq<char>)
    ensures
        compare_text(b, a) == flip(compare_text(a, b)),
        compare_text(a, b) == Comparison::Equal <==> a == b,
    decreases a.len(),
{
    if a.len() > 0 && b.len() > 0 {
        if a[0] == b[0] {
            lemma_compare_text_flip(a.drop_first(), b.drop_first());
            if a.drop_first() == b.drop_first() {
                assert(a =~= seq![a[0]] + a.drop_first());
                assert(b =~= seq![b[0]] + b.drop_first());
            }
        } else {
            assert((a[0] as int) != (b[0] as int));
        }
    } else if a.len() == 0 && b.len() == 0 {
        assert(a =~= b);
    }
}

/// The text order is transitive.
pub proof fn lemma_compare_text_trans(a: Seq<char>, b: Seq<char>, c: Seq<char>)
    requires
        compare_text(a, b) != Comparison::Greater,
        compare_text(b, c) != Comparison::Greater,
    ensures
        compare_text(a, c) != Comparison::Greater,
    decreases a.len(),
{
    if a.len() > 0 && b.len() > 0 && c.len() > 0 {
        if a[0] == b[0] && b[0] == c[0] {
            lemma_compare_text_trans(a.drop_first(), b.drop_first(), c.drop_first());
        } else {
            assert((a[0] as int) != (b[0] as int) || (b[0] as int) != (c[0] as int));
        }
    }
}

/// Compares two texts lexicographically.
pub fn compare_chars(a: &Vec<char>, b: &Vec<char>) -> (r: Comparison)
    ensures
        r == compare_text(a@, b@),
{
    let mut i: usize = 0;
    assert(a@.skip(0) =~= a@);
    assert(b@.skip(0) =~= b@);
    while i < a.len() && i < b.len() && a[i] == b[i]
        invariant
            i <= a.len(),
            i <= b.len(),
            compare_text(a@.skip(i as int), b@.skip(i as int)) == compare_text(a@, b@),
        decreases a.len() - i,
    {
        assert(a@.skip(i as int).drop_first() =~= a@.skip(i + 1));
        assert(b@.skip(i as int).drop_first() =~= b@.skip(i + 1));
        i += 1;
    }
    let ghost sa = a@.skip(i as int);
    let ghost sb = b@.skip(i as int);
    if i < a.len() {
        assert(sa[0] == a@[i as int]);
    }
    if i < b.len() {
        assert(sb[0] == b@[i as int]);
    }
    if i == a.len() {
        if i == b.len() {
            Comparison::Equal
        } else {
            Comparison::Less
        }
    } else if i == b.len() {
        Comparison::Greater
    } else if a[i] < b[i] {
        assert(sa[0] != sb[0]);
        Comparison::Less
    } else {
        Comparison::Greater
    }
}

} // verus!
