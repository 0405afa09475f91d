//! What the file manager reads from Git: the branch in `.git/HEAD`, the
//! directory a `.git` file points to, the branches `git branch -a` lists,
//! and the message shown after a Git command.

use vstd::prelude::*;
use crate::paths::{joined, path_join};
use crate::text::{
    chars_of, contains_str, has_infix, is_blank, lines, lines_of, push_char, push_str, run_of,
    split_whitespace, starts_with, string_of_range, strip_prefix_str, trim, trim_start_char,
    trim_str, views, words,
};

verus! {

/// Whether `c` is an ASCII hexadecimal digit.
pub open spec fn is_hex(c: char) -> bool {
    ('0' <= c && c <= '9') || ('a' <= c && c <= 'f') || ('A' <= c && c <= 'F')
}

/// The branch named by the content of `.git/HEAD`: the name after
/// `ref: refs/heads/`, or, for a detached head (a hash), `(` and its first
/// seven digits and `)`.
pub open spec fn branch_of_head(content: Seq<char>) -> Option<Seq<char>> {
    let c = trim(content);
    let p = "ref: refs/heads/"@;
    if p.is_prefix_of(c) {
        Some(c.skip(p.len() as int))
    } else if c.len() >= 7 && forall|i: int| 0 <= i < c.len() ==> is_hex(#[trigger] c[i]) {
        Some("("@ + c.take(7) + ")"@)
    } else {
        None
    }
}

/// The Git directory that a `.git` file in `current` points to: the path
/// after `gitdir: `, relative to `current` unless absolute.
pub open spec fn gitdir_of(current: Seq<char>, content: Seq<char>) -> Option<Seq<char>> {
    let c = trim(content);
    let p = "gitdir: "@;
    if p.is_prefix_of(c) {
        let g = c.skip(p.len() as int);
        Some(
            if g.len() > 0 && g[0] == '/' {
                g
            } else {
                joined(current, g)
            },
        )
    } else {
        None
    }
}

/// The branch named by the content of `.git/HEAD`.
pub fn branch_from_head(content: &str) -> (r: Option<String>)
    ensures
        crate::command::executor::opt_view(r) == branch_of_head(content@),
{
    let c = trim_str(content);
    proof {
        reveal_strlit("ref: refs/heads/");
    }
    match strip_prefix_str(c.as_str(), "ref: refs/heads/") {
        Some(name) => return Some(name),
        None => {},
    }
    let v = chars_of(c.as_str());
    if v.len() < 7 {
        return None;
    }
    let mut i: usize = 0;
    while i < v.len()
        invariant
            i <= v.len(),
            v@ == c@,
            c@ == trim(content@),
            !"ref: refs/heads/"@.is_prefix_of(c@),
            forall|k: int| 0 <= k < i ==> is_hex(#[trigger] v@[k]),
        decreases v.len() - i,
    {
        let ch = v[i];
        if !(('0' <= ch && ch <= '9') || ('a' <= ch && ch <= 'f') || ('A' <= ch && ch <= 'F')) {
            assert(!is_hex(c@[i as int]));
            assert(!(forall|k: int| 0 <= k < c@.len() ==> is_hex(#[trigger] c@[k])));
            assert(branch_of_head(content@) is None);
            return None;
        }
        i += 1;
    }
    let mut s = String::new();
    push_char(&mut s, '(');
    let h = string_of_range(&v, 0, 7);
    push_str(&mut s, h.as_str());
    push_char(&mut s, ')');
    proof {
        reveal_strlit("(");
        reveal_strlit(")");
    }
    assert(s@ =~= "("@ + c@.take(7) + ")"@);
    Some(s)
}

/// The Git directory a `.git` file in `current` points to.
pub fn gitdir_from_file(current: &str, content: &str) -> (r: Option<String>)
    ensures
        crate::command::executor::opt_view(r) == gitdir_of(current@, content@),
{
    let c = trim_str(content);
    match strip_prefix_str(c.as_str(), "gitdir: ") {
        Some(g) => {
            let v = chars_of(g.as_str());
            if v.len() > 0 && v[0] == '/' {
                Some(g)
            } else {
                Some(path_join(current, g.as_str()))
            }
        },
        None => None,
    }
}

/// One branch offered for checkout.
#[derive(Debug)]
pub struct GitBranchItem {
    /// The name shown: a local name, or `origin/name` for a remote one.
    pub display: String,
    /// Whether it is checked out.
    pub is_current: bool,
    /// What `git checkout` gets: the branch name without `origin/`.
    pub checkout_arg: String,
}

/// The value of a branch item.
pub struct BranchSpec {
    pub display: Seq<char>,
    pub is_current: bool,
    pub checkout_arg: Seq<char>,
}

impl View for GitBranchItem {
    type V = BranchSpec;

    open spec fn view(&self) -> BranchSpec {
        BranchSpec { display: self.display@, is_current: self.is_current, checkout_arg: self.checkout_arg@ }
    }
}

/// The branch listed on one line of `git branch -a`, if any: blank lines
/// and the `remotes/... HEAD -> ...` line list none; `*` marks the current
/// branch; `remotes/origin/` names a remote branch.
pub open spec fn branch_of_line(line: Seq<char>) -> Option<BranchSpec> {
    let l = trim(line);
    if l.len() == 0 {
        None
    } else {
        let current = l[0] == '*';
        let rest = trim(l.skip(run_of(l, '*') as int));
        if "remotes/"@.is_prefix_of(rest) && has_infix(rest, "HEAD ->"@) {
            None
        } else if "remotes/origin/"@.is_prefix_of(rest) {
            let name = rest.skip("remotes/origin/"@.len() as int);
            Some(BranchSpec { display: "origin/"@ + name, is_current: current, checkout_arg: name })
        } else {
            Some(BranchSpec { display: rest, is_current: current, checkout_arg: rest })
        }
    }
}

/// The branches listed on the lines, in order.
pub open spec fn branches_of_lines(ls: Seq<Seq<char>>) -> Seq<BranchSpec>
    decreases ls.len(),
{
    if ls.len() == 0 {
        Seq::empty()
    } else {
        let prev = branches_of_lines(ls.drop_last());
        match branch_of_line(ls.last()) {
            Some(b) => prev.push(b),
            None => prev,
        }
    }
}

/// The values of branch items.
pub open spec fn branch_views(v: Seq<GitBranchItem>) -> Seq<BranchSpec> {
    v.map_values(|b: GitBranchItem| b@)
}

/// The branch on one line of `git branch -a`, if any.
pub fn parse_branch_line(line: &str) -> (r: Option<GitBranchItem>)
    ensures
        match r {
            Some(b) => branch_of_line(line@) == Some(b@),
            None => branch_of_line(line@) is None,
        },
{
    let l = trim_str(line);
    if l.as_str().is_empty() {
        return None;
    }
    let lv = chars_of(l.as_str());
    let current = lv[0] == '*';
    let t = trim_start_char(l.as_str(), '*');
    let rest = trim_str(t.as_str());
    if starts_with(rest.as_str(), "remotes/") && contains_str(rest.as_str(), "HEAD ->") {
        return None;
    }
    proof {
        reveal_strlit("remotes/origin/");
    }
    match strip_prefix_str(rest.as_str(), "remotes/origin/") {
        Some(name) => {
            let mut display = String::new();
            push_str(&mut display, "origin/");
            push_str(&mut display, name.as_str());
            let arg = name.clone();
            Some(GitBranchItem { display, is_current: current, checkout_arg: arg })
        },
        None => {
            let arg = rest.clone();
            Some(GitBranchItem { display: rest, is_current: current, checkout_arg: arg })
        },
    }
}

/// The branches that `git branch -a` printed, in order.
pub fn parse_branch_list(stdout: &str) -> (r: Vec<GitBranchItem>)
    ensures
        branch_views(r@) == branches_of_lines(lines(stdout@)),
{
    let ls = lines_of(stdout);
    let ghost lv = views(ls@);
    let mut r: Vec<GitBranchItem> = Vec::new();
    let mut i: usize = 0;
    assert(lv.take(0) =~= Seq::<Seq<char>>::empty());
    while i < ls.len()
        invariant
            i <= ls@.len(),
            lv == views(ls@),
            branch_views(r@) == branches_of_lines(lv.take(i as int)),
        decreases ls@.len() - i,
    {
        assert(lv.take(i + 1).drop_last() =~= lv.take(i as int));
        assert(lv.take(i + 1).last() == ls@[i as int]@);
        match parse_branch_line(ls[i].as_str()) {
            Some(b) => {
                let ghost before = r@;
                r.push(b);
                assert(branch_views(r@) =~= branch_views(before).push(b@));
            },
            None => {},
        }
        i += 1;
    }
    assert(lv.take(ls@.len() as int) =~= lv);
    r
}

/// What a Git command's output comes to on screen: its trimmed output, a
/// line feed, and its trimmed error output, leaving out what is empty;
/// `完了` when both are.
pub open spec fn output_message(stdout: Seq<char>, stderr: Seq<char>) -> Seq<char> {
    let o = trim(stdout);
    let e = trim(stderr);
    let r = if e.len() == 0 {
        o
    } else if o.len() == 0 {
        e
    } else {
        o + "\n"@ + e
    };
    if r.len() == 0 {
        "完了"@
    } else {
        r
    }
}

/// The message for a Git command's output.
pub fn output_text(stdout: &str, stderr: &str) -> (r: String)
    ensures
        r@ == output_message(stdout@, stderr@),
{
    let o = trim_str(stdout);
    let e = trim_str(stderr);
    let mut result = String::new();
    if !o.as_str().is_empty() {
        push_str(&mut result, o.as_str());
    }
    if !e.as_str().is_empty() {
        if !result.as_str().is_empty() {
            push_char(&mut result, '\n');
        }
        push_str(&mut result, e.as_str());
    }
    if result.as_str().is_empty() {
        let mut done = String::new();
        push_str(&mut done, "完了");
        assert(done@ =~= output_message(stdout@, stderr@));
        return done;
    }
    proof {
        reveal_strlit("\n");
    }
    assert(result@ =~= output_message(stdout@, stderr@));
    result
}

/// The outcome of `git checkout`.
#[derive(Debug)]
pub struct GitCheckoutResult {
    pub success: bool,
    pub message: String,
}

/// The arguments given to `git`: `checkout` and the words typed.
pub fn checkout_args(args: &str) -> (r: Vec<String>)
    ensures
        views(r@) == seq!["checkout"@] + words(args@),
{
    let ws = split_whitespace(args);
    let mut r: Vec<String> = Vec::new();
    r.push("checkout".to_owned());
    let mut i: usize = 0;
    while i < ws.len()
        invariant
            i <= ws@.len(),
            views(r@) == seq!["checkout"@] + views(ws@).take(i as int),
        decreases ws@.len() - i,
    {
        let ghost before = r@;
        r.push(ws[i].clone());
        assert(views(r@) =~= views(before).push(ws@[i as int]@));
        assert(views(ws@).take(i + 1) =~= views(ws@).take(i as int).push(ws@[i as int]@));
        assert(views(r@) =~= seq!["checkout"@] + views(ws@).take(i + 1));
        i += 1;
    }
    assert(views(ws@).take(ws@.len() as int) =~= views(ws@));
    r
}

/// The outcome of a `git checkout` that ran, from its exit status and
/// output.
pub fn checkout_result(success: bool, stdout: &str, stderr: &str) -> (r: GitCheckoutResult)
    ensures
        r.success == success,
        r.message@ == output_message(stdout@, stderr@),
{
    GitCheckoutResult { success, message: output_text(stdout, stderr) }
}

} // verus!
