//! Text of the file panes.

use vstd::prelude::*;
use crate::fs::entry::FileEntry;
use crate::text::{chars_of, push_char, push_str, string_of_range};
use crate::utils::format::{format_size, size_text};
use crate::width::{fit_head, head_fit, str_width, str_width_of};

verus! {

/// A text cut to `max_width` columns: unchanged when it fits, else as many
/// leading characters as fit in one column less, followed by `~`.
pub open spec fn truncated(s: Seq<char>, max_width: nat) -> Seq<char> {
    if str_width_of(s) <= max_width {
        s
    } else {
        let target: nat = if max_width >= 1 { (max_width - 1) as nat } else { 0 };
        s.take(head_fit(s, target) as int).push('~')
    }
}

/// Cuts a text to `max_width` columns, marking a cut with `~`.
pub fn truncate_to_width(s: &str, max_width: usize) -> (r: String)
    ensures
        r@ == truncated(s@, max_width as nat),
{
    if str_width(s) <= max_width {
        return s.to_owned();
    }
    let target = if max_width >= 1 { max_width - 1 } else { 0 };
    let v = chars_of(s);
    let k = fit_head(&v, target);
    let mut r = string_of_range(&v, 0, k);
    push_char(&mut r, '~');
    assert(r@ =~= truncated(s@, max_width as nat));
    r
}


/// The name column of an entry's row in a pane `width` columns wide: the
/// name (with `/` after a directory) cut to the columns left beside the
/// mark, size and time, and the blank columns after it.
pub open spec fn name_cell_of(e: FileEntry, width: nat) -> (Seq<char>, nat) {
    let name_max: nat = if width >= 21 { (width - 21) as nat } else { 0 };
    let name = if e.spec_is_dir() { e.name@.push('/') } else { e.name@ };
    let shown = truncated(name, name_max);
    let w = str_width_of(shown) as nat;
    (shown, if name_max >= w { (name_max - w) as nat } else { 0 })
}

/// The name column of an entry's row, and the padding after it.
pub fn name_cell(e: &FileEntry, width: u16) -> (r: (String, usize))
    ensures
        (r.0@, r.1 as nat) == name_cell_of(*e, width as nat),
{
    let name_max: usize = if width >= 21 { (width - 21) as usize } else { 0 };
    let mut name = e.name.clone();
    if e.is_dir() {
        push_char(&mut name, '/');
    }
    let shown = truncate_to_width(name.as_str(), name_max);
    let w = str_width(shown.as_str());
    let padding = if name_max >= w { name_max - w } else { 0 };
    (shown, padding)
}

/// The size column of an entry's row: `   --` for a directory, else the
/// readable size right-aligned in eight characters.
pub open spec fn size_cell_of(e: FileEntry) -> Seq<char> {
    if e.spec_is_dir() {
        "   --"@
    } else {
        let s = size_text(e.size as nat);
        Seq::new(if s.len() < 8 { (8 - s.len()) as nat } else { 0 }, |i: int| ' ') + s
    }
}

/// The size column of an entry's row.
pub fn size_cell(e: &FileEntry) -> (r: String)
    ensures
        r@ == size_cell_of(*e),
{
    if e.is_dir() {
        let mut s = String::new();
        push_str(&mut s, "   --");
        assert(s@ =~= "   --"@);
        return s;
    }
    let f = format_size(e.size);
    let n = chars_of(f.as_str()).len();
    let mut s = String::new();
    let mut i: usize = n;
    let ghost pad: nat = if n < 8 { (8 - n) as nat } else { 0 };
    while i < 8
        invariant
            n <= i <= 8 || (n > 8 && i == n),
            s@ == Seq::new((i - n) as nat, |k: int| ' '),
        decreases 8 - i,
    {
        let ghost before = s@;
        push_char(&mut s, ' ');
        assert(s@ =~= Seq::new((i + 1 - n) as nat, |k: int| ' '));
        i += 1;
    }
    assert(s@ =~= Seq::new(pad, |k: int| ' '));
    push_str(&mut s, f.as_str());
    s
}

} // verus!
