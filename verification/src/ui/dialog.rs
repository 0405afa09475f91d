//! Placement and cursor columns of dialogs.

use vstd::prelude::*;
use crate::edit::{byte_len, char_index, find_index, is_boundary};
use crate::text::{chars_of, contains_str, has_infix, is_blank, lowercase, to_lowercase, trim};
use crate::width::{char_columns, columns, columns_sum};

verus! {

/// The columns of the text before byte offset `byte_offset` (at most the
/// whole text), a control character counting as none.
pub open spec fn display_width_before(s: Seq<char>, byte_offset: nat) -> nat {
    let end = if byte_offset <= byte_len(s) { byte_offset } else { byte_len(s) };
    columns_sum(s.take(char_index(s, end as int)))
}

/// The column at which a byte offset of an input text is shown.
pub fn byte_offset_to_display_width(s: &str, byte_offset: usize) -> (r: usize)
    requires
        is_boundary(s@, if byte_offset <= byte_len(s@) { byte_offset as int } else { byte_len(s@) as int }),
        3 * s@.len() <= usize::MAX,
    ensures
        r == display_width_before(s@, byte_offset as nat),
{
    let len = crate::edit::byte_length(s);
    let end = if byte_offset <= len { byte_offset } else { len };
    assert(len == byte_len(s@));
    let v = chars_of(s);
    assert(v@ == s@);
    let k = find_index(&v, end);
    assert(v@.take(0) =~= Seq::<char>::empty());
    let mut sum: usize = 0;
    let mut i: usize = 0;
    while i < k
        invariant
            k <= v.len(),
            v@ == s@,
            3 * v@.len() <= usize::MAX,
            i <= k,
            sum == columns_sum(v@.take(i as int)),
            sum <= 3 * i,
        decreases k - i,
    {
        let w = char_columns(v[i]);
        assert(v@.take(i + 1).drop_last() =~= v@.take(i as int));
        sum = sum + w;
        i = i + 1;
    }
    sum
}

/// A rectangle in terminal cells.
#[derive(Clone, Copy, Debug, PartialEq, Eq, Structural)]
pub struct Rect {
    pub x: u16,
    pub y: u16,
    pub width: u16,
    pub height: u16,
}

/// A rectangle of the given size, centred in `area`; a size larger than the
/// area starts at the area's corner.
pub open spec fn centered(width: u16, height: u16, area: Rect) -> Rect {
    let dw: int = if area.width >= width { area.width - width } else { 0 };
    let dh: int = if area.height >= height { area.height - height } else { 0 };
    Rect { x: (area.x + dw / 2) as u16, y: (area.y + dh / 2) as u16, width, height }
}

/// Centres a rectangle of the given size in `area`.
pub fn centered_rect(width: u16, height: u16, area: Rect) -> (r: Rect)
    requires
        area.x + area.width <= u16::MAX,
        area.y + area.height <= u16::MAX,
    ensures
        r == centered(width, height, area),
{
    let dw = area.width.saturating_sub(width);
    let dh = area.height.saturating_sub(height);
    Rect { x: area.x + dw / 2, y: area.y + dh / 2, width, height }
}


/// The text values of branch rows (shown name, current, checkout argument).
pub open spec fn branch_rows(v: Seq<(String, bool, String)>) -> Seq<(Seq<char>, bool, Seq<char>)> {
    v.map_values(|b: (String, bool, String)| (b.0@, b.1, b.2@))
}

/// Whether a row's shown name contains the lowercased filter, ignoring case.
pub open spec fn row_matches(lowered_filter: Seq<char>) -> spec_fn((Seq<char>, bool, Seq<char>)) -> bool {
    |b: (Seq<char>, bool, Seq<char>)| has_infix(lowercase(b.0), lowered_filter)
}

/// The rows a branch filter keeps: all for a blank filter, else those whose
/// shown name contains it, ignoring case, in order.
pub open spec fn filtered_rows(rows: Seq<(Seq<char>, bool, Seq<char>)>, filter: Seq<char>) -> Seq<
    (Seq<char>, bool, Seq<char>),
> {
    if trim(filter).len() == 0 {
        rows
    } else {
        rows.filter(row_matches(lowercase(filter)))
    }
}

/// Filters branch rows by a typed keyword, ignoring case.
pub fn filter_branches_display(branches: &Vec<(String, bool, String)>, filter: &str) -> (r: Vec<
    (String, bool, String),
>)
    ensures
        branch_rows(r@) == filtered_rows(branch_rows(branches@), filter@),
{
    let blank = is_blank(filter);
    let f = to_lowercase(filter);
    let ghost p = row_matches(f@);
    let mut r: Vec<(String, bool, String)> = Vec::new();
    let mut i: usize = 0;
    assert(branch_rows(branches@).take(0) =~= Seq::<(Seq<char>, bool, Seq<char>)>::empty());
    assert(Seq::<(Seq<char>, bool, Seq<char>)>::empty().filter(p) =~= Seq::<(Seq<char>, bool, Seq<char>)>::empty()) by {
        reveal(Seq::filter);
    }
    while i < branches.len()
        invariant
            i <= branches@.len(),
            p == row_matches(f@),
            f@ == lowercase(filter@),
            blank == (trim(filter@).len() == 0),
            blank ==> branch_rows(r@) == branch_rows(branches@).take(i as int),
            !blank ==> branch_rows(r@) == branch_rows(branches@).take(i as int).filter(p),
        decreases branches@.len() - i,
    {
        let b = &branches[i];
        let ghost row = (b.0@, b.1, b.2@);
        let ghost prev = branch_rows(branches@).take(i as int);
        proof {
            assert(branch_rows(branches@).take(i + 1) =~= prev.push(row));
            prev.lemma_filter_push(row, p);
        }
        let keep = if blank {
            true
        } else {
            let low = to_lowercase(b.0.as_str());
            contains_str(low.as_str(), f.as_str())
        };
        if keep {
            let ghost before = r@;
            r.push((b.0.clone(), b.1, b.2.clone()));
            assert(branch_rows(r@) =~= branch_rows(before).push(row));
        }
        i += 1;
    }
    assert(branch_rows(branches@).take(branches@.len() as int) =~= branch_rows(branches@));
    r
}


/// The characters of a text shown in `room` columns after skipping `skip`
/// columns: characters are skipped while less than `skip` columns were;
/// then they are taken while they fit.
pub open spec fn visible_text(s: Seq<char>, skip: int, room: int) -> Seq<char>
    decreases s.len(),
{
    if s.len() == 0 {
        Seq::empty()
    } else if skip > 0 {
        visible_text(s.drop_first(), sat_sub(skip, columns(s[0]) as int), room)
    } else if columns(s[0]) > room {
        Seq::empty()
    } else {
        seq![s[0]] + visible_text(s.drop_first(), skip, room - columns(s[0]))
    }
}

/// How a one-line input is shown in a field `field_width` columns wide.
#[derive(Debug)]
pub struct InputView {
    /// The columns scrolled off on the left.
    pub scroll: usize,
    /// The characters shown.
    pub text: String,
    /// The cursor's column in the field.
    pub cursor_col: usize,
    /// Whether text is hidden on the left (shown as `‹`).
    pub more_left: bool,
    /// Whether text is hidden on the right (shown as `›`).
    pub more_right: bool,
}

/// Lays out an input field: scrolls just enough to show the cursor.
pub fn input_view(value: &str, cursor_pos: usize, field_width: usize) -> (v: InputView)
    requires
        is_boundary(value@, cursor_pos as int),
        3 * value@.len() + field_width <= usize::MAX,
    ensures
        ({
            let cur = display_width_before(value@, cursor_pos as nat) as int;
            let total = display_width_before(value@, byte_len(value@)) as int;
            let scroll = if cur <= field_width { 0 } else { cur - field_width };
            &&& v.scroll == scroll
            &&& v.text@ == visible_text(value@, scroll, field_width as int)
            &&& v.cursor_col == cur - scroll
            &&& v.more_left == (scroll > 0)
            &&& v.more_right == (total > scroll + field_width)
        }),
{
    let len = crate::edit::byte_length(value);
    proof {
        crate::edit::lemma_end_boundary(value@);
    }
    let cur = byte_offset_to_display_width(value, cursor_pos);
    let total = byte_offset_to_display_width(value, len);
    let scroll = if cur <= field_width { 0 } else { cur - field_width };
    let v = chars_of(value);
    let mut text = String::new();
    let mut skip: usize = scroll;
    let mut room: usize = field_width;
    let mut i: usize = 0;
    let ghost whole = visible_text(value@, scroll as int, field_width as int);
    assert(v@.skip(0) =~= v@);
    while i < v.len()
        invariant
            i <= v.len(),
            v@ == value@,
            room <= field_width,
            skip <= scroll,
            text@ + visible_text(v@.skip(i as int), skip as int, room as int) == whole,
        ensures
            text@ == whole,
        decreases v.len() - i,
    {
        let c = v[i];
        let w = char_columns(c);
        let ghost rest = v@.skip(i as int);
        assert(rest[0] == c);
        assert(rest.drop_first() =~= v@.skip(i + 1));
        if skip > 0 {
            skip = skip.saturating_sub(w);
        } else {
            if w > room {
                assert(visible_text(rest, skip as int, room as int) =~= Seq::<char>::empty());
                assert(text@ + Seq::<char>::empty() =~= text@);
                break;
            }
            let ghost before = text@;
            crate::text::push_char(&mut text, c);
            room = room - w;
            assert(text@ + visible_text(v@.skip(i + 1), skip as int, room as int) =~= before + (seq![c] + visible_text(v@.skip(i + 1), skip as int, room as int)));
        }
        i += 1;
        proof {
            if i == v.len() {
                assert(v@.skip(i as int) =~= Seq::<char>::empty());
                assert(text@ + Seq::<char>::empty() =~= text@);
            }
        }
    }
    InputView {
        scroll,
        text,
        cursor_col: cur - scroll,
        more_left: scroll > 0,
        more_right: total > scroll + field_width,
    }
}

/// The rows of a branch list shown: from the scroll position, pulled back
/// so the view is full where it can be, to the end of the view or list.
pub open spec fn branch_window_of(len: int, scroll: int, visible: int) -> (int, int) {
    let start = if scroll < sat_sub(len, visible) { scroll } else { sat_sub(len, visible) };
    let end = if start + visible < len { start + visible } else { len };
    (start, end)
}

/// `a - b`, or 0 when `b` is larger.
pub open spec fn sat_sub(a: int, b: int) -> int {
    if a >= b {
        a - b
    } else {
        0
    }
}

/// The first and past-the-last rows of a branch list shown in `visible`
/// rows.
pub fn branch_window(len: usize, scroll: usize, visible: usize) -> (r: (usize, usize))
    requires
        len + visible <= usize::MAX,
    ensures
        r == ((branch_window_of(len as int, scroll as int, visible as int).0 as usize,
            branch_window_of(len as int, scroll as int, visible as int).1 as usize)),
{
    let lim = len.saturating_sub(visible);
    let start = if scroll < lim { scroll } else { lim };
    let end = if start + visible < len { start + visible } else { len };
    (start, end)
}

} // verus!
