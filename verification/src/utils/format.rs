//! Human-readable text for sizes, permissions and paths.

use vstd::prelude::*;
use crate::command::executor::leading_slashes;
use crate::paths::{home_dir, path_strip_prefix, stripped_prefix};
use crate::text::{chars_of, decimal, digit_char, push_char, push_decimal, push_str, string_of_range};
use crate::width::{columns_sum, fit_head, fit_tail, head_fit, lemma_columns_sum_skip, lemma_head_fit_fits, lemma_tail_fit_fits, str_width, str_width_of, tail_fit};

verus! {

/// The type letter in front of a permission string.
pub open spec fn type_letter(is_dir: bool, is_symlink: bool) -> char {
    if is_symlink {
        'l'
    } else if is_dir {
        'd'
    } else {
        '-'
    }
}

/// `c` when bit `bit` of `mode` is set, `-` otherwise.
pub open spec fn bit_char(mode: u32, bit: u32, c: char) -> char {
    if mode & bit != 0 {
        c
    } else {
        '-'
    }
}

/// The nine `rwx` characters for the owner, group and other bits of `mode`.
pub open spec fn rwx_chars(mode: u32) -> Seq<char> {
    seq![
        bit_char(mode, 0o400, 'r'),
        bit_char(mode, 0o200, 'w'),
        bit_char(mode, 0o100, 'x'),
        bit_char(mode, 0o040, 'r'),
        bit_char(mode, 0o020, 'w'),
        bit_char(mode, 0o010, 'x'),
        bit_char(mode, 0o004, 'r'),
        bit_char(mode, 0o002, 'w'),
        bit_char(mode, 0o001, 'x'),
    ]
}

/// The permission text: `-rwxr-xr-x` style, or, when the mode is 0 (no
/// permission bits are known), the type letter and the kind of entry.
pub open spec fn permissions_text(mode: u32, is_dir: bool, is_symlink: bool) -> Seq<char> {
    let t = type_letter(is_dir, is_symlink);
    if mode == 0 {
        let kind = if is_symlink {
            "リンク"@
        } else if is_dir {
            "フォルダ"@
        } else {
            "ファイル"@
        };
        seq![t, ' '] + kind
    } else {
        seq![t] + rwx_chars(mode)
    }
}

fn push_bit(s: &mut String, mode: u32, bit: u32, c: char)
    ensures
        final(s)@ == old(s)@.push(bit_char(mode, bit, c)),
{
    if mode & bit != 0 {
        push_char(s, c);
    } else {
        push_char(s, '-');
    }
}

/// Formats permission bits for display.
pub fn format_permissions(mode: u32, is_dir: bool, is_symlink: bool) -> (r: String)
    ensures
        r@ == permissions_text(mode, is_dir, is_symlink),
{
    let t = if is_symlink {
        'l'
    } else if is_dir {
        'd'
    } else {
        '-'
    };
    let mut s = String::new();
    push_char(&mut s, t);
    if mode == 0 {
        push_char(&mut s, ' ');
        if is_symlink {
            push_str(&mut s, "リンク");
        } else if is_dir {
            push_str(&mut s, "フォルダ");
        } else {
            push_str(&mut s, "ファイル");
        }
        assert(s@ =~= permissions_text(mode, is_dir, is_symlink));
        return s;
    }
    push_bit(&mut s, mode, 0o400, 'r');
    push_bit(&mut s, mode, 0o200, 'w');
    push_bit(&mut s, mode, 0o100, 'x');
    push_bit(&mut s, mode, 0o040, 'r');
    push_bit(&mut s, mode, 0o020, 'w');
    push_bit(&mut s, mode, 0o010, 'x');
    push_bit(&mut s, mode, 0o004, 'r');
    push_bit(&mut s, mode, 0o002, 'w');
    push_bit(&mut s, mode, 0o001, 'x');
    assert(s@ =~= permissions_text(mode, is_dir, is_symlink));
    s
}


/// 2 to the power `e`.
pub open spec fn pow2(e: nat) -> nat
    decreases e,
{
    if e == 0 {
        1
    } else {
        2 * pow2((e - 1) as nat)
    }
}

/// The number of binary digits of `n`.
pub open spec fn bit_len(n: nat) -> nat
    decreases n,
{
    if n == 0 {
        0
    } else {
        1 + bit_len(n / 2)
    }
}

/// `x / d` rounded to the nearest whole number, ties to the even one.
pub open spec fn div_round_even(x: nat, d: nat) -> nat {
    let q = x / d;
    let r = x % d;
    if 2 * r > d || (2 * r == d && q % 2 == 1) {
        q + 1
    } else {
        q
    }
}

/// The double-precision value nearest to `n`: `n` rounded to 53
/// significant binary digits, ties to even.
pub open spec fn nearest_double(n: nat) -> nat {
    if bit_len(n) <= 53 {
        n
    } else {
        let m = pow2((bit_len(n) - 53) as nat);
        div_round_even(n, m) * m
    }
}

/// 1024 to the power `k`, for the units up to TB.
pub open spec fn unit_divisor(k: nat) -> nat {
    if k == 0 {
        1
    } else if k == 1 {
        1024
    } else if k == 2 {
        1048576
    } else if k == 3 {
        1073741824
    } else {
        1099511627776
    }
}

/// The largest unit, up to TB, that `v` reaches.
pub open spec fn unit_index(v: nat) -> nat {
    if v < 1024 {
        0
    } else if v < 1048576 {
        1
    } else if v < 1073741824 {
        2
    } else if v < 1099511627776 {
        3
    } else {
        4
    }
}

/// The name of unit `k`.
pub open spec fn unit_name(k: nat) -> Seq<char> {
    if k == 0 {
        "B"@
    } else if k == 1 {
        "KB"@
    } else if k == 2 {
        "MB"@
    } else if k == 3 {
        "GB"@
    } else {
        "TB"@
    }
}

/// The human-readable size: whole bytes below 1024, else the size (as a
/// double) in the largest unit it reaches, up to TB, with one decimal
/// rounded half to even.
pub open spec fn size_text(bytes: nat) -> Seq<char> {
    if bytes == 0 {
        "0B"@
    } else {
        let v = nearest_double(bytes);
        let k = unit_index(v);
        if k == 0 {
            decimal(bytes) + "B"@
        } else {
            let t = div_round_even(v * 10, unit_divisor(k));
            decimal(t / 10) + seq!['.', digit_char(t % 10)] + unit_name(k)
        }
    }
}

proof fn lemma_bit_len_bound(n: nat, b: nat)
    requires
        n < pow2(b),
    ensures
        bit_len(n) <= b,
    decreases b,
{
    if n > 0 {
        lemma_bit_len_bound(n / 2, (b - 1) as nat);
    }
}

proof fn lemma_pow2_mono(i: nat, j: nat)
    requires
        i <= j,
    ensures
        1 <= pow2(i) <= pow2(j),
    decreases j,
{
    if j > 0 {
        if i < j {
            lemma_pow2_mono(i, (j - 1) as nat);
        } else {
            lemma_pow2_mono((i - 1) as nat, (j - 1) as nat);
        }
    }
}

proof fn lemma_pow2_values()
    ensures
        pow2(11) == 2048,
        pow2(64) == 0x1_0000_0000_0000_0000,
{
    reveal_with_fuel(pow2, 65);
}

/// `x / d` rounded half to even, and a bound on it.
fn div_round_even_exec(x: u128, d: u128) -> (t: u128)
    requires
        0 < d <= 0x1_0000_0000_0000_0000_0000,
        x <= 0x1_0000_0000_0000_0000_0000,
    ensures
        t == div_round_even(x as nat, d as nat),
        t * d <= x + d,
{
    let q = x / d;
    let r = x % d;
    proof {
        vstd::arithmetic::div_mod::lemma_fundamental_div_mod(x as int, d as int);
    }
    let t = if 2 * r > d || (2 * r == d && q % 2 == 1) {
        q + 1
    } else {
        q
    };
    assert(t * d <= x + d) by (nonlinear_arith)
        requires
            t <= q + 1,
            x == d * q + r,
            r >= 0,
            d > 0,
    ;
    t
}

/// The double-precision value nearest to `n`.
fn nearest_double_exec(n: u64) -> (v: u128)
    ensures
        v == nearest_double(n as nat),
        v <= n + 2048,
{
    let mut b: u32 = 0;
    let mut x: u64 = n;
    proof {
        lemma_pow2_values();
        lemma_bit_len_bound(n as nat, 64);
    }
    while x > 0
        invariant
            b + bit_len(x as nat) == bit_len(n as nat),
            bit_len(n as nat) <= 64,
        decreases x,
    {
        x = x / 2;
        b = b + 1;
    }
    if b <= 53 {
        return n as u128;
    }
    let e = b - 53;
    let mut m: u128 = 1;
    let mut i: u32 = 0;
    while i < e
        invariant
            i <= e <= 11,
            m == pow2(i as nat),
        decreases e - i,
    {
        proof {
            lemma_pow2_mono(i as nat, 11);
            lemma_pow2_values();
        }
        m = m * 2;
        i = i + 1;
    }
    proof {
        lemma_pow2_mono(e as nat, 11);
        lemma_pow2_values();
    }
    let t = div_round_even_exec(n as u128, m);
    t * m
}

/// Formats a byte count for display: `0B`, `512B`, `1.0KB`, `1.5KB`, `1.0MB`.
pub fn format_size(bytes: u64) -> (r: String)
    ensures
        r@ == size_text(bytes as nat),
{
    if bytes == 0 {
        let mut s = String::new();
        push_str(&mut s, "0B");
        assert(s@ =~= "0B"@);
        return s;
    }
    let v = nearest_double_exec(bytes);
    let mut k: u32 = 0;
    let mut d: u128 = 1;
    while k < 4 && v >= d * 1024
        invariant
            k <= 4,
            d == unit_divisor(k as nat),
            k > 0 ==> v >= d,
        decreases 4 - k,
    {
        d = d * 1024;
        k = k + 1;
    }
    assert(k as nat == unit_index(v as nat));
    let mut s = String::new();
    if k == 0 {
        push_decimal(&mut s, bytes);
        push_str(&mut s, "B");
        assert(s@ =~= size_text(bytes as nat));
        return s;
    }
    let x = v * 10;
    let t = div_round_even_exec(x, d);
    proof {
        vstd::arithmetic::div_mod::lemma_div_is_ordered_by_denominator(x as int, 1024, d as int);
        vstd::arithmetic::div_mod::lemma_fundamental_div_mod(x as int, d as int);
    }
    assert(t <= x / 1024 + 1) by (nonlinear_arith)
        requires
            t * d <= x + d,
            d >= 1024,
            x / d <= x / 1024,
            x == d * (x / d) + x % d,
            0 <= x % d < d,
    ;
    push_decimal(&mut s, (t / 10) as u64);
    push_char(&mut s, '.');
    let c = (48u8 + (t % 10) as u8) as char;
    push_char(&mut s, c);
    if k == 1 {
        push_str(&mut s, "KB");
    } else if k == 2 {
        push_str(&mut s, "MB");
    } else if k == 3 {
        push_str(&mut s, "GB");
    } else {
        push_str(&mut s, "TB");
    }
    assert(s@ =~= size_text(bytes as nat));
    s
}


/// A path as shown: under the home directory it starts with `~`.
pub open spec fn shown_path(path: Seq<char>, home: Option<Seq<char>>) -> Seq<char> {
    match home {
        Some(h) => match stripped_prefix(path, h) {
            Some(rel) => if rel.len() == 0 {
                "~"@
            } else {
                "~/"@ + rel
            },
            None => path,
        },
        None => path,
    }
}

/// A text cut to `max_width` columns: unchanged when it fits; else, when
/// there is room, `.../` and the longest tail that fits in four columns
/// less, without leading `/`; else the longest head that fits.
pub open spec fn shortened(d: Seq<char>, max_width: nat) -> Seq<char> {
    if str_width_of(d) <= max_width {
        d
    } else if max_width > 4 {
        let k = tail_fit(d, (max_width - 4) as nat);
        let tail = d.skip(d.len() - k);
        ".../"@ + tail.skip(leading_slashes(tail) as int)
    } else {
        d.take(head_fit(d, max_width) as int)
    }
}

/// A text has no more leading slashes than characters.
proof fn lemma_leading_slashes_bound(s: Seq<char>)
    ensures
        leading_slashes(s) <= s.len(),
    decreases s.len(),
{
    if s.len() > 0 && s[0] == '/' {
        lemma_leading_slashes_bound(s.drop_first());
    }
}

/// A shortened text fits its columns: after `.../` the kept tail takes at
/// most `max_width - 4` columns, and a cut head at most `max_width`, each
/// counted character by character; a text that fits is kept whole.
pub proof fn lemma_shortened_fits(d: Seq<char>, max_width: nat)
    ensures
        str_width_of(d) <= max_width ==> shortened(d, max_width) == d,
        str_width_of(d) > max_width && max_width > 4 ==> {
            &&& shortened(d, max_width).take(4) == ".../"@
            &&& columns_sum(shortened(d, max_width).skip(4)) <= max_width - 4
        },
        str_width_of(d) > max_width && max_width <= 4 ==> columns_sum(shortened(d, max_width))
            <= max_width,
{
    if str_width_of(d) > max_width {
        if max_width > 4 {
            let b = (max_width - 4) as nat;
            let k = tail_fit(d, b);
            lemma_tail_fit_fits(d, b);
            let tail = d.skip(d.len() - k);
            let j = leading_slashes(tail) as int;
            lemma_leading_slashes_bound(tail);
            lemma_columns_sum_skip(tail, j);
            reveal_strlit(".../");
            let r = shortened(d, max_width);
            assert(r.take(4) =~= ".../"@);
            assert(r.skip(4) =~= tail.skip(j));
        } else {
            lemma_head_fit_fits(d, max_width);
        }
    }
}

/// The columns a shortened path `r` of the text `d` takes, counted
/// character by character: after `.../` the kept tail fits in
/// `max_width - 4`, and a cut head fits in `max_width`.
pub open spec fn fits_columns(r: Seq<char>, d: Seq<char>, max_width: nat) -> bool {
    &&& str_width_of(d) > max_width && max_width > 4 ==> {
        &&& r.take(4) == ".../"@
        &&& columns_sum(r.skip(4)) <= max_width - 4
    }
    &&& str_width_of(d) > max_width && max_width <= 4 ==> columns_sum(r) <= max_width
}

/// Shows a path in at most `max_width` columns, given the home directory.
pub fn format_path_with_home(path: &str, home: Option<String>, max_width: usize) -> (r: String)
    ensures
        r@ == shortened(shown_path(path@, crate::command::executor::opt_view(home)), max_width as nat),
        fits_columns(r@, shown_path(path@, crate::command::executor::opt_view(home)), max_width as nat),
{
    let display = match home {
        Some(h) => match path_strip_prefix(path, h.as_str()) {
            Some(rel) => {
                if rel.as_str().is_empty() {
                    let mut s = String::new();
                    push_str(&mut s, "~");
                    s
                } else {
                    let mut s = String::new();
                    push_str(&mut s, "~/");
                    push_str(&mut s, rel.as_str());
                    s
                }
            },
            None => path.to_owned(),
        },
        None => path.to_owned(),
    };
    let ghost d = shown_path(path@, crate::command::executor::opt_view(home));
    assert(display@ =~= d);
    proof {
        lemma_shortened_fits(d, max_width as nat);
    }
    if str_width(display.as_str()) <= max_width {
        return display;
    }
    let v = chars_of(display.as_str());
    if max_width > 4 {
        let k = fit_tail(&v, max_width - 4);
        let start = v.len() - k;
        let mut i = start;
        while i < v.len() && v[i] == '/'
            invariant
                start <= i <= v.len(),
                forall|j: int| start <= j < i ==> #[trigger] v@[j] == '/',
            decreases v.len() - i,
        {
            i += 1;
        }
        proof {
            let tail = v@.skip(start as int);
            assert forall|j: int| 0 <= j < i - start implies #[trigger] tail[j] == '/' by {
                assert(tail[j] == v@[start + j]);
            }
            if i < v.len() {
                assert(tail[i - start] == v@[i as int]);
            }
            crate::command::executor::lemma_leading_slashes(tail, i - start);
            assert(tail.skip(i - start) =~= v@.subrange(i as int, v.len() as int));
        }
        let rest = string_of_range(&v, i, v.len());
        let mut s = String::new();
        push_str(&mut s, ".../");
        push_str(&mut s, rest.as_str());
        assert(s@ =~= shortened(d, max_width as nat));
        s
    } else {
        let k = fit_head(&v, max_width);
        let s = string_of_range(&v, 0, k);
        assert(s@ =~= shortened(d, max_width as nat));
        s
    }
}

/// Shows a path in at most `max_width` columns, `~` standing for the home
/// directory that the environment names.
pub fn format_path(path: &str, max_width: usize) -> (r: String)
    ensures
        exists|h: Option<Seq<char>>| r@ == #[trigger] shortened(shown_path(path@, h), max_width as nat)
            && fits_columns(r@, shown_path(path@, h), max_width as nat),
{
    let home = home_dir();
    format_path_with_home(path, home, max_width)
}


/// How a modification time is shown: the time of day, the date, or the
/// year alone.
#[derive(Debug, Clone, Copy, PartialEq, Eq, Structural)]
pub enum TimeForm {
    Time,
    Date,
    Year,
}

/// The form for a time on `(year, day of the year)` seen on `(now_year,
/// now_day)`, both in the local time zone: the time for today, the date
/// for another day of this year, the year otherwise.
pub open spec fn time_form_of(year: i32, day: u32, now_year: i32, now_day: u32) -> TimeForm {
    if year == now_year && day == now_day {
        TimeForm::Time
    } else if year == now_year {
        TimeForm::Date
    } else {
        TimeForm::Year
    }
}

/// Chooses how a modification time is shown, given its local date and
/// today's.
pub fn time_form(year: i32, day: u32, now_year: i32, now_day: u32) -> (r: TimeForm)
    ensures
        r == time_form_of(year, day, now_year, now_day),
{
    if year == now_year && day == now_day {
        TimeForm::Time
    } else if year == now_year {
        TimeForm::Date
    } else {
        TimeForm::Year
    }
}

/// Sizes below 1024 bytes are shown as whole bytes.
pub proof fn lemma_small_sizes(bytes: nat)
    requires
        0 < bytes < 1024,
    ensures
        size_text(bytes) == decimal(bytes) + "B"@,
{
    assert(pow2(53) >= 1024) by {
        lemma_pow2_mono(11, 53);
        lemma_pow2_values();
    }
    lemma_bit_len_bound(bytes, 53);
}

} // verus!
