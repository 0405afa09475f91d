//! Display widths of characters and strings in terminal columns, as the
//! `unicode-width` crate computes them.

use vstd::prelude::*;
use unicode_width::{UnicodeWidthChar, UnicodeWidthStr};

verus! {

/// What `UnicodeWidthChar::width` gives for a character: its width in
/// columns, or `None` for a control character.
pub uninterp spec fn char_width_of(c: char) -> Option<usize>;

/// What `UnicodeWidthStr::width` gives for a string: its width in columns,
/// ligatures and emoji sequences taken into account.
pub uninterp spec fn str_width_of(s: Seq<char>) -> usize;

/// The columns a character takes when a control character counts as none.
pub open spec fn columns(c: char) -> nat {
    match char_width_of(c) {
        Some(w) => w as nat,
        None => 0,
    }
}

/// `UnicodeWidthChar::width` of `unicode-width`: `None` below U+0020 and
/// from U+007F to U+009F, 1 for the rest of ASCII, and a table value of at
/// most 3 from U+00A0 on.
#[verifier::external_body]
pub(crate) fn char_width(c: char) -> (r: Option<usize>)
    ensures
        r == char_width_of(c),
        (c as u32) < 0x20 ==> r == None::<usize>,
        0x20 <= (c as u32) < 0x7F ==> r == Some(1usize),
        0x7F <= (c as u32) < 0xA0 ==> r == None::<usize>,
        0xA0 <= (c as u32) ==> r.is_some() && r.unwrap() <= 3,
{
    UnicodeWidthChar::width(c)
}

/// `UnicodeWidthStr::width` of `unicode-width`.
#[verifier::external_body]
pub(crate) fn str_width(s: &str) -> (r: usize)
    ensures
        r == str_width_of(s@),
{
    UnicodeWidthStr::width(s)
}

/// The columns a character takes, a control character counting as none.
pub fn char_columns(c: char) -> (r: usize)
    ensures
        r == columns(c),
        r <= 3,
{
    match char_width(c) {
        Some(w) => w,
        None => 0,
    }
}

/// The columns of a sequence of characters, each counted on its own.
pub open spec fn columns_sum(s: Seq<char>) -> nat
    decreases s.len(),
{
    if s.len() == 0 {
        0
    } else {
        columns_sum(s.drop_last()) + columns(s.last())
    }
}

/// How many leading characters of `s` fit in `budget` columns, taken one
/// by one until the next would not fit.
pub open spec fn head_fit(s: Seq<char>, budget: nat) -> nat
    decreases s.len(),
{
    if s.len() == 0 || columns(s[0]) > budget {
        0
    } else {
        1 + head_fit(s.drop_first(), (budget - columns(s[0])) as nat)
    }
}

/// How many trailing characters of `s` fit in `budget` columns, taken one
/// by one from the end until the next would not fit.
pub open spec fn tail_fit(s: Seq<char>, budget: nat) -> nat
    decreases s.len(),
{
    if s.len() == 0 || columns(s.last()) > budget {
        0
    } else {
        1 + tail_fit(s.drop_last(), (budget - columns(s.last())) as nat)
    }
}

/// The number of leading characters of `v` that fit in `budget` columns.
pub fn fit_head(v: &Vec<char>, budget: usize) -> (k: usize)
    ensures
        k == head_fit(v@, budget as nat),
        k <= v.len(),
{
    let mut k: usize = 0;
    let mut used: usize = 0;
    assert(v@.skip(0) =~= v@);
    while k < v.len()
        invariant
            k <= v.len(),
            used <= budget,
            head_fit(v@, budget as nat) == k + head_fit(v@.skip(k as int), (budget - used) as nat),
        decreases v.len() - k,
    {
        let w = char_columns(v[k]);
        let ghost rest = v@.skip(k as int);
        assert(rest[0] == v@[k as int]);
        if w > budget - used {
            return k;
        }
        assert(rest.drop_first() =~= v@.skip(k + 1));
        used = used + w;
        k = k + 1;
    }
    k
}

/// The number of trailing characters of `v` that fit in `budget` columns.
pub fn fit_tail(v: &Vec<char>, budget: usize) -> (k: usize)
    ensures
        k == tail_fit(v@, budget as nat),
        k <= v.len(),
{
    let n = v.len();
    let mut k: usize = 0;
    let mut used: usize = 0;
    assert(v@.take(n as int) =~= v@);
    while k < n
        invariant
            n == v.len(),
            k <= n,
            used <= budget,
            tail_fit(v@, budget as nat) == k + tail_fit(v@.take(n - k), (budget - used) as nat),
        decreases n - k,
    {
        let w = char_columns(v[n - 1 - k]);
        let ghost rest = v@.take(n - k);
        assert(rest.last() == v@[n - 1 - k]);
        if w > budget - used {
            return k;
        }
        assert(rest.drop_last() =~= v@.take(n - (k + 1)));
        used = used + w;
        k = k + 1;
    }
    k
}


/// The leading characters that `head_fit` keeps take at most `budget`
/// columns, counted one by one.
pub proof fn lemma_head_fit_fits(s: Seq<char>, budget: nat)
    ensures
        head_fit(s, budget) <= s.len(),
        columns_sum(s.take(head_fit(s, budget) as int)) <= budget,
    decreases s.len(),
{
    let k = head_fit(s, budget);
    if s.len() == 0 || columns(s[0]) > budget {
        assert(s.take(0) =~= Seq::<char>::empty());
    } else {
        let rest = s.drop_first();
        let b2 = (budget - columns(s[0])) as nat;
        lemma_head_fit_fits(rest, b2);
        lemma_columns_sum_front(s.take(k as int));
        assert(s.take(k as int).drop_first() =~= rest.take(head_fit(rest, b2) as int));
    }
}

/// Counting columns from the front gives the same sum.
pub proof fn lemma_columns_sum_front(s: Seq<char>)
    requires
        s.len() > 0,
    ensures
        columns_sum(s) == columns(s[0]) + columns_sum(s.drop_first()),
    decreases s.len(),
{
    if s.len() > 1 {
        lemma_columns_sum_front(s.drop_last());
        assert(s.drop_last().drop_first() =~= s.drop_first().drop_last());
        assert(s.drop_last()[0] == s[0]);
        assert(s.drop_first().last() == s.last());
    } else {
        assert(s.drop_last() =~= Seq::<char>::empty());
        assert(s.drop_first() =~= Seq::<char>::empty());
    }
}

/// The trailing characters that `tail_fit` keeps take at most `budget`
/// columns, counted one by one.
pub proof fn lemma_tail_fit_fits(s: Seq<char>, budget: nat)
    ensures
        tail_fit(s, budget) <= s.len(),
        columns_sum(s.skip(s.len() - tail_fit(s, budget))) <= budget,
    decreases s.len(),
{
    let k = tail_fit(s, budget);
    if s.len() == 0 || columns(s.last()) > budget {
        assert(s.skip(s.len() as int) =~= Seq::<char>::empty());
    } else {
        let rest = s.drop_last();
        let b2 = (budget - columns(s.last())) as nat;
        lemma_tail_fit_fits(rest, b2);
        let t = s.skip(s.len() - k);
        assert(t.drop_last() =~= rest.skip(rest.len() - tail_fit(rest, b2)));
        assert(t.last() == s.last());
    }
}

/// Dropping leading characters never adds columns.
pub proof fn lemma_columns_sum_skip(s: Seq<char>, j: int)
    requires
        0 <= j <= s.len(),
    ensures
        columns_sum(s.skip(j)) <= columns_sum(s),
    decreases j,
{
    if j > 0 {
        lemma_columns_sum_front(s);
        lemma_columns_sum_skip(s.drop_first(), j - 1);
        assert(s.drop_first().skip(j - 1) =~= s.skip(j));
    } else {
        assert(s.skip(0) =~= s);
    }
}

} // verus!
