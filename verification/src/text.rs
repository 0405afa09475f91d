//! Character-level text helpers: whitespace, trimming, splitting into
//! words, and conversions between `str`/`String` and `Vec<char>`.

use vstd::prelude::*;

verus! {

/// Unicode `White_Space`, the property that `char::is_whitespace` tests.
pub open spec fn is_ws(c: char) -> bool {
    let u = c as u32;
    (0x09 <= u && u <= 0x0d) || u == 0x20 || u == 0x85 || u == 0xa0 || u == 0x1680 || (0x2000 <= u
        && u <= 0x200a) || u == 0x2028 || u == 0x2029 || u == 0x202f || u == 0x205f || u == 0x3000
}

/// Whether `c` is a whitespace character.
pub fn is_whitespace(c: char) -> (r: bool)
    ensures
        r == is_ws(c),
{
    let u = c as u32;
    (0x09 <= u && u <= 0x0d) || u == 0x20 || u == 0x85 || u == 0xa0 || u == 0x1680 || (0x2000 <= u
        && u <= 0x200a) || u == 0x2028 || u == 0x2029 || u == 0x202f || u == 0x205f || u == 0x3000
}

/// The characters of `s`, in order.
pub fn chars_of(s: &str) -> (v: Vec<char>)
    ensures
        v@ == s@,
{
    let mut v: Vec<char> = Vec::new();
    for c in it: s.chars()
        invariant
            it.seq() == s@,
            v@ == it.seq().take(it.index() as int),
    {
        v.push(c);
    }
    v
}

/// Appends one character to a string (`String::push`).
#[verifier::external_body]
pub(crate) fn push_char(s: &mut String, c: char)
    ensures
        final(s)@ == old(s)@.push(c),
{
    s.push(c);
}

/// Builds a string from a sequence of characters.
pub fn string_of(v: &[char]) -> (s: String)
    ensures
        s@ == v@,
{
    let mut s = String::new();
    let mut i: usize = 0;
    while i < v.len()
        invariant
            i <= v.len(),
            s@ == v@.take(i as int),
        decreases v.len() - i,
    {
        push_char(&mut s, v[i]);
        i += 1;
        assert(s@ =~= v@.take(i as int));
    }
    assert(v@.take(v.len() as int) =~= v@);
    s
}

/// What `str::to_lowercase` returns for a string, a function of its
/// characters alone (the Unicode lowercase mapping).
pub uninterp spec fn lowercase(s: Seq<char>) -> Seq<char>;

/// `str::to_lowercase`: the lowercase mapping of a string.
#[verifier::external_body]
pub(crate) fn to_lowercase(s: &str) -> (r: String)
    ensures
        r@ == lowercase(s@),
{
    s.to_lowercase()
}


/// Length of the longest prefix of `s` whose characters are all whitespace
/// (`ws == true`) or all non-whitespace (`ws == false`).
pub open spec fn run_len(s: Seq<char>, ws: bool) -> nat
    decreases s.len(),
{
    if s.len() > 0 && is_ws(s[0]) == ws {
        1 + run_len(s.drop_first(), ws)
    } else {
        0
    }
}

/// Length of the longest suffix of `s` whose characters are all whitespace.
pub open spec fn tail_ws_len(s: Seq<char>) -> nat
    decreases s.len(),
{
    if s.len() > 0 && is_ws(s.last()) {
        1 + tail_ws_len(s.drop_last())
    } else {
        0
    }
}

/// `s` without leading and trailing whitespace (`str::trim`).
pub open spec fn trim(s: Seq<char>) -> Seq<char> {
    let t = s.skip(run_len(s, true) as int);
    t.take(t.len() - tail_ws_len(t))
}

/// The whitespace suffix is no longer than the text.
pub proof fn lemma_tail_ws_len_bound(s: Seq<char>)
    ensures
        tail_ws_len(s) <= s.len(),
    decreases s.len(),
{
    if s.len() > 0 && is_ws(s.last()) {
        lemma_tail_ws_len_bound(s.drop_last());
    }
}

/// `run_len` is exactly the length of the maximal uniform prefix.
pub proof fn lemma_run_len(s: Seq<char>, ws: bool, k: int)
    requires
        0 <= k <= s.len(),
        forall|j: int| 0 <= j < k ==> is_ws(#[trigger] s[j]) == ws,
        k == s.len() || is_ws(s[k]) != ws,
    ensures
        run_len(s, ws) == k,
    decreases k,
{
    if k > 0 {
        let t = s.drop_first();
        assert forall|j: int| 0 <= j < k - 1 implies is_ws(#[trigger] t[j]) == ws by {
            assert(t[j] == s[j + 1]);
        }
        if k < s.len() {
            assert(t[k - 1] == s[k]);
        }
        lemma_run_len(t, ws, k - 1);
    }
}

/// The characters that `run_len` counts do have the property, and the one
/// after them (if any) does not.
pub proof fn lemma_run_len_bounds(s: Seq<char>, ws: bool)
    ensures
        run_len(s, ws) <= s.len(),
        forall|j: int| 0 <= j < run_len(s, ws) ==> is_ws(#[trigger] s[j]) == ws,
        run_len(s, ws) < s.len() ==> is_ws(s[run_len(s, ws) as int]) != ws,
    decreases s.len(),
{
    if s.len() > 0 && is_ws(s[0]) == ws {
        let t = s.drop_first();
        lemma_run_len_bounds(t, ws);
        assert forall|j: int| 0 <= j < run_len(s, ws) implies is_ws(#[trigger] s[j]) == ws by {
            if j > 0 {
                assert(s[j] == t[j - 1]);
            }
        }
        if run_len(s, ws) < s.len() {
            assert(s[run_len(s, ws) as int] == t[run_len(t, ws) as int]);
        }
    }
}

/// `tail_ws_len` is exactly the length of the maximal whitespace suffix.
pub proof fn lemma_tail_ws_len(s: Seq<char>, k: int)
    requires
        0 <= k <= s.len(),
        forall|j: int| s.len() - k <= j < s.len() ==> is_ws(#[trigger] s[j]),
        k == s.len() || !is_ws(s[s.len() - k - 1]),
    ensures
        tail_ws_len(s) == k,
    decreases k,
{
    if k > 0 {
        let t = s.drop_last();
        assert forall|j: int| t.len() - (k - 1) <= j < t.len() implies is_ws(#[trigger] t[j]) by {
            assert(t[j] == s[j]);
        }
        if k < s.len() {
            assert(t[t.len() - (k - 1) - 1] == s[s.len() - k - 1]);
        }
        lemma_tail_ws_len(t, k - 1);
    }
}

/// Index just past the maximal run of characters with `is_ws(c) == ws`
/// that starts at `start`.
pub fn run_end(v: &Vec<char>, start: usize, ws: bool) -> (e: usize)
    requires
        start <= v.len(),
    ensures
        start <= e <= v.len(),
        e - start == run_len(v@.skip(start as int), ws),
{
    let mut e = start;
    while e < v.len() && is_whitespace(v[e]) == ws
        invariant
            start <= e <= v.len(),
            forall|j: int| start <= j < e ==> is_ws(#[trigger] v@[j]) == ws,
        decreases v.len() - e,
    {
        e += 1;
    }
    let ghost t = v@.skip(start as int);
    assert forall|j: int| 0 <= j < e - start implies is_ws(#[trigger] t[j]) == ws by {
        assert(t[j] == v@[start + j]);
    }
    proof {
        if e < v.len() {
            assert(t[e - start] == v@[e as int]);
        }
        lemma_run_len(t, ws, e - start);
    }
    e
}

/// The characters `v[lo..hi]` as a string.
pub fn string_of_range(v: &Vec<char>, lo: usize, hi: usize) -> (s: String)
    requires
        lo <= hi <= v.len(),
    ensures
        s@ == v@.subrange(lo as int, hi as int),
{
    let mut s = String::new();
    let mut i: usize = lo;
    while i < hi
        invariant
            lo <= i <= hi <= v.len(),
            s@ == v@.subrange(lo as int, i as int),
        decreases hi - i,
    {
        push_char(&mut s, v[i]);
        i += 1;
        assert(s@ =~= v@.subrange(lo as int, i as int));
    }
    s
}

/// Bounds `(lo, hi)` of `v` without leading and trailing whitespace.
pub fn trim_bounds(v: &Vec<char>) -> (r: (usize, usize))
    ensures
        r.0 <= r.1 <= v.len(),
        v@.subrange(r.0 as int, r.1 as int) == trim(v@),
{
    let lo = run_end(v, 0, true);
    let mut hi = v.len();
    while hi > lo && is_whitespace(v[hi - 1])
        invariant
            lo <= hi <= v.len(),
            forall|j: int| hi <= j < v.len() ==> is_ws(#[trigger] v@[j]),
        decreases hi,
    {
        hi -= 1;
    }
    proof {
        let t = v@.skip(lo as int);
        assert(v@.skip(0) =~= v@);
        let k = v.len() - hi;
        assert forall|j: int| t.len() - k <= j < t.len() implies is_ws(#[trigger] t[j]) by {
            assert(t[j] == v@[lo + j]);
        }
        if k < t.len() {
            assert(t[t.len() - k - 1] == v@[hi - 1]);
        }
        lemma_tail_ws_len(t, k);
        assert(v@.subrange(lo as int, hi as int) =~= t.take(t.len() - k));
    }
    (lo, hi)
}

/// `s` with leading and trailing whitespace removed.
pub fn trim_str(s: &str) -> (r: String)
    ensures
        r@ == trim(s@),
{
    let v = chars_of(s);
    let (lo, hi) = trim_bounds(&v);
    string_of_range(&v, lo, hi)
}

/// Whether the (exact) characters of a string are all whitespace.
pub fn is_blank(s: &str) -> (r: bool)
    ensures
        r == (trim(s@).len() == 0),
{
    let v = chars_of(s);
    let (lo, hi) = trim_bounds(&v);
    lo == hi
}


/// The whitespace-separated words of `s` (`str::split_whitespace`).
pub open spec fn words(s: Seq<char>) -> Seq<Seq<char>>
    decreases s.len(),
{
    let t = s.skip(run_len(s, true) as int);
    if run_len(s, true) >= s.len() {
        seq![]
    } else {
        let w = run_len(t, false);
        proof {
            lemma_run_len_bounds(t, false);
        }
        if w == 0 {
            seq![]
        } else {
            seq![t.take(w as int)] + words(t.skip(w as int))
        }
    }
}

/// The views of a sequence of strings.
pub open spec fn views(v: Seq<String>) -> Seq<Seq<char>> {
    v.map_values(|x: String| x@)
}

/// Unfolds `words` at a point where a word starts.
proof fn lemma_words_step(s: Seq<char>)
    requires
        run_len(s, true) < s.len(),
    ensures
        run_len(s.skip(run_len(s, true) as int), false) >= 1,
        words(s) == seq![
            s.skip(run_len(s, true) as int).take(
                run_len(s.skip(run_len(s, true) as int), false) as int,
            ),
        ] + words(
            s.skip(
                (run_len(s, true) + run_len(s.skip(run_len(s, true) as int), false)) as int,
            ),
        ),
{
    let a = run_len(s, true);
    let t = s.skip(a as int);
    lemma_run_len_bounds(s, true);
    assert(t[0] == s[a as int]);
    let w = run_len(t, false);
    lemma_run_len_bounds(t, false);
    assert(t.skip(w as int) =~= s.skip((a + w) as int));
}

/// The whitespace-separated words of `s`.
pub fn split_whitespace(s: &str) -> (r: Vec<String>)
    ensures
        views(r@) == words(s@),
{
    let v = chars_of(s);
    let mut r: Vec<String> = Vec::new();
    let mut i: usize = 0;
    assert(v@.skip(0) =~= v@);
    loop
        invariant
            i <= v.len(),
            v@ == s@,
            views(r@) + words(v@.skip(i as int)) == words(v@),
        decreases v.len() - i,
    {
        let ghost before = v@.skip(i as int);
        let a = run_end(&v, i, true);
        if a == v.len() {
            proof {
                assert(words(before) =~= Seq::<Seq<char>>::empty());
                assert(views(r@) + words(before) =~= views(r@));
            }
            return r;
        }
        proof {
            assert(before.skip(run_len(before, true) as int) =~= v@.skip(a as int));
        }
        let e = run_end(&v, a, false);
        proof {
            lemma_words_step(before);
            assert(before.skip((run_len(before, true) + run_len(v@.skip(a as int), false)) as int)
                =~= v@.skip(e as int));
            assert(v@.skip(a as int).take((e - a) as int) =~= v@.subrange(a as int, e as int));
        }
        let word = string_of_range(&v, a, e);
        let ghost old_r = r@;
        r.push(word);
        proof {
            assert(views(r@) =~= views(old_r).push(v@.subrange(a as int, e as int)));
            assert(views(r@) + words(v@.skip(e as int)) =~= views(old_r) + words(before));
        }
        i = e;
    }
}


/// Appends a string slice to a string (`String::push_str`).
#[verifier::external_body]
pub(crate) fn push_str(s: &mut String, t: &str)
    ensures
        final(s)@ == old(s)@ + t@,
{
    s.push_str(t);
}

/// The decimal digit character for `d` (which is below 10).
pub open spec fn digit_char(d: nat) -> char {
    (48 + d) as char
}

/// The decimal representation of `n`, without leading zeros.
pub open spec fn decimal(n: nat) -> Seq<char>
    decreases n,
{
    if n < 10 {
        seq![digit_char(n)]
    } else {
        decimal(n / 10).push(digit_char(n % 10))
    }
}

/// Appends the decimal representation of `n`.
pub fn push_decimal(s: &mut String, n: u64)
    ensures
        final(s)@ == old(s)@ + decimal(n as nat),
    decreases n,
{
    if n >= 10 {
        push_decimal(s, n / 10);
    }
    let d = (n % 10) as u8;
    let c = (48u8 + d) as char;
    let ghost before = s@;
    push_char(s, c);
    proof {
        if n >= 10 {
            assert(s@ =~= old(s)@ + decimal(n as nat));
        } else {
            assert(s@ =~= old(s)@ + decimal(n as nat));
        }
    }
}

/// The decimal representation of `n` as a new string.
pub fn decimal_string(n: u64) -> (s: String)
    ensures
        s@ == decimal(n as nat),
{
    let mut s = String::new();
    push_decimal(&mut s, n);
    assert(s@ =~= decimal(n as nat));
    s
}


/// `a` followed by `b`.
pub fn concat2(a: &str, b: &str) -> (r: String)
    ensures
        r@ == a@ + b@,
{
    let mut r = String::new();
    push_str(&mut r, a);
    push_str(&mut r, b);
    assert(r@ =~= a@ + b@);
    r
}

/// `a`, `b` and `c`, one after the other.
pub fn concat3(a: &str, b: &str, c: &str) -> (r: String)
    ensures
        r@ == a@ + b@ + c@,
{
    let mut r = concat2(a, b);
    push_str(&mut r, c);
    r
}


/// Whether two character vectors are equal.
pub fn chars_eq(a: &Vec<char>, b: &Vec<char>) -> (r: bool)
    ensures
        r == (a@ == b@),
{
    if a.len() != b.len() {
        return false;
    }
    let mut i: usize = 0;
    while i < a.len()
        invariant
            i <= a.len() == b.len(),
            forall|j: int| 0 <= j < i ==> a@[j] == b@[j],
        decreases a.len() - i,
    {
        if a[i] != b[i] {
            return false;
        }
        i += 1;
    }
    assert(a@ =~= b@);
    true
}

/// Whether two strings have the same characters.
pub fn str_eq(a: &str, b: &str) -> (r: bool)
    ensures
        r == (a@ == b@),
{
    let va = chars_of(a);
    let vb = chars_of(b);
    chars_eq(&va, &vb)
}

/// The parts joined with `sep` between consecutive parts (`[T]::join`).
pub open spec fn join(parts: Seq<Seq<char>>, sep: Seq<char>) -> Seq<char>
    decreases parts.len(),
{
    if parts.len() == 0 {
        seq![]
    } else if parts.len() == 1 {
        parts[0]
    } else {
        join(parts.drop_last(), sep) + sep + parts.last()
    }
}

/// Joins strings with a separator.
pub fn join_strings(parts: &Vec<String>, sep: &str) -> (r: String)
    ensures
        r@ == join(views(parts@), sep@),
{
    let mut r = String::new();
    let mut i: usize = 0;
    while i < parts.len()
        invariant
            i <= parts.len(),
            r@ == join(views(parts@).take(i as int), sep@),
        decreases parts.len() - i,
    {
        let ghost prev = views(parts@).take(i as int);
        if i > 0 {
            push_str(&mut r, sep);
        }
        push_str(&mut r, parts[i].as_str());
        proof {
            let next = views(parts@).take(i + 1);
            assert(next.drop_last() =~= prev);
            if i == 0 {
                assert(r@ =~= join(next, sep@));
            }
        }
        i += 1;
    }
    assert(views(parts@).take(parts.len() as int) =~= views(parts@));
    r
}


/// Number of leading characters of `s` before the first line feed.
pub open spec fn until_nl(s: Seq<char>) -> nat
    decreases s.len(),
{
    if s.len() > 0 && s[0] != '\n' {
        1 + until_nl(s.drop_first())
    } else {
        0
    }
}

/// `until_nl` is exactly the index of the first line feed (or the length).
pub proof fn lemma_until_nl(s: Seq<char>, k: int)
    requires
        0 <= k <= s.len(),
        forall|j: int| 0 <= j < k ==> #[trigger] s[j] != '\n',
        k == s.len() || s[k] == '\n',
    ensures
        until_nl(s) == k,
    decreases k,
{
    if k > 0 {
        let t = s.drop_first();
        assert forall|j: int| 0 <= j < k - 1 implies #[trigger] t[j] != '\n' by {
            assert(t[j] == s[j + 1]);
        }
        if k < s.len() {
            assert(t[k - 1] == s[k]);
        }
        lemma_until_nl(t, k - 1);
    }
}

/// `until_nl` never passes the end.
pub proof fn lemma_until_nl_bound(s: Seq<char>)
    ensures
        until_nl(s) <= s.len(),
    decreases s.len(),
{
    if s.len() > 0 && s[0] != '\n' {
        lemma_until_nl_bound(s.drop_first());
    }
}

/// A line without the carriage return that ends it, if any.
pub open spec fn strip_cr(l: Seq<char>) -> Seq<char> {
    if l.len() > 0 && l.last() == '\r' {
        l.drop_last()
    } else {
        l
    }
}

/// The lines of `s` (`str::lines`): split at line feeds, a carriage return
/// before a line feed dropped, and no empty line after a final line feed.
pub open spec fn lines(s: Seq<char>) -> Seq<Seq<char>>
    decreases s.len(),
{
    if s.len() == 0 {
        seq![]
    } else {
        let k = until_nl(s);
        proof {
            lemma_until_nl_bound(s);
        }
        if k >= s.len() {
            seq![s]
        } else {
            seq![strip_cr(s.take(k as int))] + lines(s.skip((k + 1) as int))
        }
    }
}

/// The lines of a text.
pub fn lines_of(s: &str) -> (r: Vec<String>)
    ensures
        views(r@) == lines(s@),
{
    let v = chars_of(s);
    let mut r: Vec<String> = Vec::new();
    let mut i: usize = 0;
    assert(v@.skip(0) =~= v@);
    while i < v.len()
        invariant
            i <= v.len(),
            v@ == s@,
            views(r@) + lines(v@.skip(i as int)) == lines(v@),
        decreases v.len() - i,
    {
        let ghost rest = v@.skip(i as int);
        let mut j = i;
        while j < v.len() && v[j] != '\n'
            invariant
                i <= j <= v.len(),
                forall|m: int| i <= m < j ==> #[trigger] v@[m] != '\n',
            decreases v.len() - j,
        {
            j += 1;
        }
        proof {
            assert forall|m: int| 0 <= m < j - i implies #[trigger] rest[m] != '\n' by {
                assert(rest[m] == v@[i + m]);
            }
            if j < v.len() {
                assert(rest[j - i] == v@[j as int]);
            }
            lemma_until_nl(rest, j - i);
        }
        let ghost old_r = r@;
        if j == v.len() {
            let line = string_of_range(&v, i, j);
            r.push(line);
            proof {
                assert(rest =~= v@.subrange(i as int, j as int));
                assert(views(r@) =~= views(old_r).push(rest));
                assert(v@.skip(j as int) =~= Seq::<char>::empty());
                assert(views(r@) + lines(v@.skip(j as int)) =~= views(old_r) + lines(rest));
            }
            i = j;
        } else {
            let end = if j > i && v[j - 1] == '\r' {
                j - 1
            } else {
                j
            };
            let line = string_of_range(&v, i, end);
            r.push(line);
            proof {
                let piece = rest.take(j - i);
                assert(piece =~= v@.subrange(i as int, j as int));
                assert(strip_cr(piece) =~= v@.subrange(i as int, end as int));
                assert(rest.skip(j - i + 1) =~= v@.skip(j + 1));
                assert(views(r@) =~= views(old_r).push(strip_cr(piece)));
                assert(views(r@) + lines(v@.skip(j + 1)) =~= views(old_r) + lines(rest));
            }
            i = j + 1;
        }
    }
    assert(views(r@) + lines(v@.skip(i as int)) =~= views(r@));
    r
}


/// Whether `p` is a prefix of `s` (`str::starts_with`).
pub fn starts_with(s: &str, p: &str) -> (r: bool)
    ensures
        r == p@.is_prefix_of(s@),
{
    let vs = chars_of(s);
    let vp = chars_of(p);
    if vp.len() > vs.len() {
        return false;
    }
    let mut i: usize = 0;
    while i < vp.len()
        invariant
            vp.len() <= vs.len(),
            vs@ == s@,
            vp@ == p@,
            i <= vp.len(),
            forall|j: int| 0 <= j < i ==> vp@[j] == vs@[j],
        decreases vp.len() - i,
    {
        if vp[i] != vs[i] {
            assert(vs@.subrange(0, vp.len() as int)[i as int] == vs@[i as int]);
            return false;
        }
        i += 1;
    }
    assert(vp@ =~= vs@.subrange(0, vp.len() as int));
    true
}

/// Number of characters of `s` before the first `c` (its length if none).
pub open spec fn until_char(s: Seq<char>, c: char) -> nat
    decreases s.len(),
{
    if s.len() > 0 && s[0] != c {
        1 + until_char(s.drop_first(), c)
    } else {
        0
    }
}

/// `until_char` is exactly the index of the first `c` (or the length).
pub proof fn lemma_until_char(s: Seq<char>, c: char, k: int)
    requires
        0 <= k <= s.len(),
        forall|j: int| 0 <= j < k ==> #[trigger] s[j] != c,
        k == s.len() || s[k] == c,
    ensures
        until_char(s, c) == k,
    decreases k,
{
    if k > 0 {
        let t = s.drop_first();
        assert forall|j: int| 0 <= j < k - 1 implies #[trigger] t[j] != c by {
            assert(t[j] == s[j + 1]);
        }
        if k < s.len() {
            assert(t[k - 1] == s[k]);
        }
        lemma_until_char(t, c, k - 1);
    }
}

/// The index of the first `c` in `v`, or its length.
pub fn find_char(v: &Vec<char>, c: char) -> (k: usize)
    ensures
        k == until_char(v@, c),
        k <= v.len(),
{
    let mut k: usize = 0;
    while k < v.len() && v[k] != c
        invariant
            k <= v.len(),
            forall|j: int| 0 <= j < k ==> #[trigger] v@[j] != c,
        decreases v.len() - k,
    {
        k += 1;
    }
    proof {
        lemma_until_char(v@, c, k as int);
    }
    k
}


/// Whether `p` occurs in `s` (`str::contains`).
pub open spec fn has_infix(s: Seq<char>, p: Seq<char>) -> bool {
    exists|i: int| 0 <= i && i + p.len() <= s.len() && #[trigger] s.subrange(i, i + p.len()) == p
}

/// Whether `p` occurs in `s`.
pub fn contains_str(s: &str, p: &str) -> (r: bool)
    ensures
        r == has_infix(s@, p@),
{
    let vs = chars_of(s);
    let vp = chars_of(p);
    if vp.len() > vs.len() {
        assert(!has_infix(s@, p@));
        return false;
    }
    let mut i: usize = 0;
    while i <= vs.len() - vp.len()
        invariant
            vs@ == s@,
            vp@ == p@,
            vp.len() <= vs.len(),
            i <= vs.len() - vp.len() + 1,
            forall|k: int| 0 <= k < i ==> #[trigger] vs@.subrange(k, k + vp.len()) != vp@,
        decreases vs.len() - vp.len() + 1 - i,
    {
        let mut j: usize = 0;
        while j < vp.len() && vs[i + j] == vp[j]
            invariant
                i + vp.len() <= vs.len(),
                j <= vp.len(),
                forall|m: int| 0 <= m < j ==> vs@[i + m] == vp@[m],
            decreases vp.len() - j,
        {
            j += 1;
        }
        if j == vp.len() {
            assert(vs@.subrange(i as int, i + vp.len()) =~= vp@);
            return true;
        }
        assert(vs@.subrange(i as int, i + vp.len())[j as int] != vp@[j as int]);
        i += 1;
    }
    assert(!has_infix(s@, p@)) by {
        if has_infix(s@, p@) {
            let k = choose|k: int| 0 <= k && k + p@.len() <= s@.len() && #[trigger] s@.subrange(k, k + p@.len()) == p@;
            assert(vs@.subrange(k, k + vp.len()) == vp@);
        }
    }
    false
}

/// `s` without the prefix `p`, if it starts with it (`str::strip_prefix`).
pub fn strip_prefix_str(s: &str, p: &str) -> (r: Option<String>)
    ensures
        p@.is_prefix_of(s@) ==> (r matches Some(x) && x@ == s@.skip(p@.len() as int)),
        !p@.is_prefix_of(s@) ==> r is None,
{
    if starts_with(s, p) {
        let v = chars_of(s);
        let n = p.unicode_len();
        Some(string_of_range(&v, n, v.len()))
    } else {
        None
    }
}

/// The number of leading characters of `s` equal to `c`.
pub open spec fn run_of(s: Seq<char>, c: char) -> nat
    decreases s.len(),
{
    if s.len() > 0 && s[0] == c {
        1 + run_of(s.drop_first(), c)
    } else {
        0
    }
}

/// `run_of` is the length of the maximal leading run of `c`.
pub proof fn lemma_run_of(s: Seq<char>, c: char, k: int)
    requires
        0 <= k <= s.len(),
        forall|j: int| 0 <= j < k ==> #[trigger] s[j] == c,
        k == s.len() || s[k] != c,
    ensures
        run_of(s, c) == k,
    decreases k,
{
    if k > 0 {
        let t = s.drop_first();
        assert forall|j: int| 0 <= j < k - 1 implies #[trigger] t[j] == c by {
            assert(t[j] == s[j + 1]);
        }
        if k < s.len() {
            assert(t[k - 1] == s[k]);
        }
        lemma_run_of(t, c, k - 1);
    }
}

/// `s` without its leading run of `c` (`str::trim_start_matches`).
pub fn trim_start_char(s: &str, c: char) -> (r: String)
    ensures
        r@ == s@.skip(run_of(s@, c) as int),
{
    let v = chars_of(s);
    let mut i: usize = 0;
    while i < v.len() && v[i] == c
        invariant
            i <= v.len(),
            forall|j: int| 0 <= j < i ==> #[trigger] v@[j] == c,
        decreases v.len() - i,
    {
        i += 1;
    }
    proof {
        lemma_run_of(v@, c, i as int);
    }
    string_of_range(&v, i, v.len())
}


/// The octal representation of `n`, without leading zeros.
pub open spec fn octal(n: nat) -> Seq<char>
    decreases n,
{
    if n < 8 {
        seq![digit_char(n)]
    } else {
        octal(n / 8).push(digit_char(n % 8))
    }
}

/// Appends the octal representation of `n` (`{:o}`).
pub fn push_octal(s: &mut String, n: u32)
    ensures
        final(s)@ == old(s)@ + octal(n as nat),
    decreases n,
{
    if n >= 8 {
        push_octal(s, n / 8);
    }
    let d = (n % 8) as u8;
    let c = (48u8 + d) as char;
    push_char(s, c);
    assert(s@ =~= old(s)@ + octal(n as nat));
}

} // verus!
