//! Tab completion of command names, arguments and paths.
//!
//! Names and arguments are completed from fixed lists. A path argument is
//! completed from a directory listing: `complete` says which directory to
//! list and with which prefix, and `complete_from_dir` filters the listing.

use vstd::prelude::*;
use super::executor::leading_slashes;
use crate::paths::{file_name_of, home_dir, joined, parent_of, path_file_name, path_join, path_parent};
use crate::text::{chars_of, find_char, starts_with, str_eq, string_of_range, until_char};

verus! {

/// The texts of a sequence of string slices.
pub open spec fn str_views(s: Seq<&str>) -> Seq<Seq<char>> {
    s.map_values(|x: &str| x@)
}

/// The built-in command names.
pub open spec fn builtin_name_list() -> Seq<Seq<char>> {
    seq![
        "help"@,
        "quit"@,
        "q"@,
        "cd"@,
        "sort"@,
        "set"@,
        "mkdir"@,
        "touch"@,
        "bookmark"@,
        "find"@,
    ]
}

/// The topics of the help screen.
pub open spec fn help_topic_list() -> Seq<Seq<char>> {
    seq!["navigation"@, "operations"@, "commands"@, "mouse"@, "config"@, "keybindings"@]
}

/// The sort keys offered after `sort`.
pub open spec fn sort_option_list() -> Seq<Seq<char>> {
    seq!["name"@, "size"@, "date"@, "ext"@]
}

/// The options offered after `set`.
pub open spec fn set_option_list() -> Seq<Seq<char>> {
    seq!["hidden"@]
}

/// Whether a candidate starts with the typed prefix.
pub open spec fn has_prefix(prefix: Seq<char>) -> spec_fn(Seq<char>) -> bool {
    |o: Seq<char>| prefix.is_prefix_of(o)
}

/// The options that start with `prefix`, in their order.
pub open spec fn matching(prefix: Seq<char>, options: Seq<Seq<char>>) -> Seq<Seq<char>> {
    options.filter(has_prefix(prefix))
}

/// What a completion request comes to.
#[derive(Debug)]
pub enum Completion {
    /// These candidates, in this order.
    Candidates(Vec<String>),
    /// The names in directory `dir` that start with `prefix` (directories
    /// only, if `dirs_only`), to be read from disk.
    ListDir { dir: String, prefix: String, dirs_only: bool },
}

/// The mathematical value of a completion.
pub enum CompletionSpec {
    Candidates(Seq<Seq<char>>),
    ListDir { dir: Seq<char>, prefix: Seq<char>, dirs_only: bool },
}

/// The texts of a vector of strings.
pub open spec fn string_views(v: Seq<String>) -> Seq<Seq<char>> {
    v.map_values(|s: String| s@)
}

impl View for Completion {
    type V = CompletionSpec;

    open spec fn view(&self) -> CompletionSpec {
        match self {
            Completion::Candidates(c) => CompletionSpec::Candidates(string_views(c@)),
            Completion::ListDir { dir, prefix, dirs_only } => CompletionSpec::ListDir {
                dir: dir@,
                prefix: prefix@,
                dirs_only: *dirs_only,
            },
        }
    }
}

/// The directory to list and the name prefix, for a typed path: the part
/// before the last component names the directory (`~` for home, `/` for the
/// root, else relative to `current_dir`); a path without `/` is a prefix of
/// a name in `current_dir`.
pub open spec fn path_listing(
    prefix: Seq<char>,
    current_dir: Seq<char>,
    home: Option<Seq<char>>,
    dirs_only: bool,
) -> CompletionSpec {
    if until_char(prefix, '/') < prefix.len() {
        let parent = match parent_of(prefix) {
            Some(p) => p,
            None => "."@,
        };
        let file = match file_name_of(prefix) {
            Some(f) => f,
            None => Seq::<char>::empty(),
        };
        let dir = if parent.len() > 0 && parent[0] == '~' {
            let rest = parent.drop_first();
            let h = match home {
                Some(h) => h,
                None => Seq::<char>::empty(),
            };
            joined(h, rest.skip(leading_slashes(rest) as int))
        } else if parent.len() > 0 && parent[0] == '/' {
            parent
        } else {
            joined(current_dir, parent)
        };
        CompletionSpec::ListDir { dir, prefix: file, dirs_only }
    } else {
        CompletionSpec::ListDir { dir: current_dir, prefix, dirs_only }
    }
}

/// What completing the argument `prefix` of command `cmd` comes to.
pub open spec fn argument_completion(
    cmd: Seq<char>,
    prefix: Seq<char>,
    current_dir: Seq<char>,
    home: Option<Seq<char>>,
) -> CompletionSpec {
    if cmd == "cd"@ || cmd == "mkdir"@ {
        path_listing(prefix, current_dir, home, true)
    } else if cmd == "touch"@ {
        path_listing(prefix, current_dir, home, false)
    } else if cmd == "sort"@ {
        CompletionSpec::Candidates(matching(prefix, sort_option_list()))
    } else if cmd == "set"@ {
        CompletionSpec::Candidates(matching(prefix, set_option_list()))
    } else if cmd == "help"@ {
        CompletionSpec::Candidates(matching(prefix, help_topic_list()))
    } else {
        CompletionSpec::Candidates(Seq::empty())
    }
}

/// What completing a command line comes to: without a space, the command
/// name is completed; otherwise the text after the first space is the
/// argument of the command before it.
pub open spec fn completion_of(
    input: Seq<char>,
    current_dir: Seq<char>,
    home: Option<Seq<char>>,
) -> CompletionSpec {
    let k = until_char(input, ' ');
    if k == input.len() {
        CompletionSpec::Candidates(matching(input, builtin_name_list()))
    } else {
        argument_completion(input.take(k as int), input.skip(k as int + 1), current_dir, home)
    }
}

/// Whether completing `input` reads the home directory: a path argument
/// whose directory part starts with `~`.
pub open spec fn completion_needs_home(input: Seq<char>) -> bool {
    let k = until_char(input, ' ');
    let cmd = input.take(k as int);
    let prefix = input.skip(k as int + 1);
    &&& k < input.len()
    &&& cmd == "cd"@ || cmd == "mkdir"@ || cmd == "touch"@
    &&& until_char(prefix, '/') < prefix.len()
    &&& parent_of(prefix) matches Some(p) && p.len() > 0 && p[0] == '~'
}

fn builtin_names() -> (v: Vec<&'static str>)
    ensures
        str_views(v@) == builtin_name_list(),
{
    let v = vec!["help", "quit", "q", "cd", "sort", "set", "mkdir", "touch", "bookmark", "find"];
    assert(str_views(v@) =~= builtin_name_list());
    v
}

fn help_topics() -> (v: Vec<&'static str>)
    ensures
        str_views(v@) == help_topic_list(),
{
    let v = vec!["navigation", "operations", "commands", "mouse", "config", "keybindings"];
    assert(str_views(v@) =~= help_topic_list());
    v
}

fn sort_options() -> (v: Vec<&'static str>)
    ensures
        str_views(v@) == sort_option_list(),
{
    let v = vec!["name", "size", "date", "ext"];
    assert(str_views(v@) =~= sort_option_list());
    v
}

fn set_options() -> (v: Vec<&'static str>)
    ensures
        str_views(v@) == set_option_list(),
{
    let v = vec!["hidden"];
    assert(str_views(v@) =~= set_option_list());
    v
}

/// The options that start with `prefix`, in their order.
pub fn complete_from_list(prefix: &str, options: &[&str]) -> (r: Vec<String>)
    ensures
        string_views(r@) == matching(prefix@, str_views(options@)),
{
    let mut r: Vec<String> = Vec::new();
    let mut i: usize = 0;
    while i < options.len()
        invariant
            i <= options@.len(),
            string_views(r@) == matching(prefix@, str_views(options@.take(i as int))),
        decreases options@.len() - i,
    {
        let o = options[i];
        proof {
            let s = str_views(options@.take(i as int));
            assert(str_views(options@.take(i + 1)) =~= s.push(o@));
            s.lemma_filter_push(o@, has_prefix(prefix@));
        }
        if starts_with(o, prefix) {
            let ghost before = r@;
            r.push(o.to_owned());
            assert(string_views(r@) =~= string_views(before).push(o@));
        }
        i += 1;
    }
    assert(options@.take(options@.len() as int) =~= options@);
    r
}

/// Completes the argument `prefix` of command `cmd`, given the home directory.
pub fn complete_argument(cmd: &str, prefix: &str, current_dir: &str, home: Option<String>) -> (r:
    Completion)
    ensures
        r@ == argument_completion(cmd@, prefix@, current_dir@, crate::command::executor::opt_view(
            home,
        )),
{
    if str_eq(cmd, "cd") || str_eq(cmd, "mkdir") {
        complete_path(prefix, current_dir, home, true)
    } else if str_eq(cmd, "touch") {
        complete_path(prefix, current_dir, home, false)
    } else if str_eq(cmd, "sort") {
        let o = sort_options();
        Completion::Candidates(complete_from_list(prefix, o.as_slice()))
    } else if str_eq(cmd, "set") {
        let o = set_options();
        Completion::Candidates(complete_from_list(prefix, o.as_slice()))
    } else if str_eq(cmd, "help") {
        let o = help_topics();
        Completion::Candidates(complete_from_list(prefix, o.as_slice()))
    } else {
        let r: Vec<String> = Vec::new();
        assert(string_views(r@) =~= Seq::empty());
        Completion::Candidates(r)
    }
}

/// Works out which directory to list for a typed path, and the prefix of the
/// names to offer.
pub fn complete_path(prefix: &str, current_dir: &str, home: Option<String>, dirs_only: bool) -> (r:
    Completion)
    ensures
        r@ == path_listing(prefix@, current_dir@, crate::command::executor::opt_view(home), dirs_only),
{
    let v = chars_of(prefix);
    let slash = find_char(&v, '/');
    if slash < v.len() {
        let parent = match path_parent(prefix) {
            Some(p) => p,
            None => ".".to_owned(),
        };
        let file = match path_file_name(prefix) {
            Some(f) => f,
            None => String::new(),
        };
        let pv = chars_of(parent.as_str());
        let dir = if pv.len() > 0 && pv[0] == '~' {
            let mut i: usize = 1;
            while i < pv.len() && pv[i] == '/'
                invariant
                    1 <= i <= pv.len(),
                    forall|k: int| 1 <= k < i ==> #[trigger] pv@[k] == '/',
                decreases pv.len() - i,
            {
                i += 1;
            }
            proof {
                let rest = pv@.drop_first();
                super::executor::lemma_leading_slashes(rest, i - 1);
                assert(rest.skip(i - 1) =~= pv@.subrange(i as int, pv.len() as int));
            }
            let tail = string_of_range(&pv, i, pv.len());
            let h = match home {
                Some(h) => h,
                None => String::new(),
            };
            path_join(h.as_str(), tail.as_str())
        } else if pv.len() > 0 && pv[0] == '/' {
            parent
        } else {
            path_join(current_dir, parent.as_str())
        };
        Completion::ListDir { dir, prefix: file, dirs_only }
    } else {
        Completion::ListDir { dir: current_dir.to_owned(), prefix: prefix.to_owned(), dirs_only }
    }
}

/// Completes a command line, given the home directory.
pub fn complete_with_home(input: &str, current_dir: &str, home: Option<String>) -> (r: Completion)
    ensures
        r@ == completion_of(input@, current_dir@, crate::command::executor::opt_view(home)),
{
    let v = chars_of(input);
    let k = find_char(&v, ' ');
    if k == v.len() {
        let o = builtin_names();
        Completion::Candidates(complete_from_list(input, o.as_slice()))
    } else {
        let cmd = string_of_range(&v, 0, k);
        let prefix = string_of_range(&v, k + 1, v.len());
        proof {
            assert(cmd@ =~= input@.take(k as int));
            assert(prefix@ =~= input@.skip(k + 1));
        }
        complete_argument(cmd.as_str(), prefix.as_str(), current_dir, home)
    }
}

/// Whether completing `input` reads the home directory.
pub fn needs_home(input: &str) -> (b: bool)
    ensures
        b == completion_needs_home(input@),
{
    let v = chars_of(input);
    let k = find_char(&v, ' ');
    if k == v.len() {
        return false;
    }
    let cmd = string_of_range(&v, 0, k);
    let prefix = string_of_range(&v, k + 1, v.len());
    proof {
        assert(cmd@ =~= input@.take(k as int));
        assert(prefix@ =~= input@.skip(k + 1));
    }
    let c = cmd.as_str();
    if !(str_eq(c, "cd") || str_eq(c, "mkdir") || str_eq(c, "touch")) {
        return false;
    }
    let pv = chars_of(prefix.as_str());
    if find_char(&pv, '/') == pv.len() {
        return false;
    }
    match path_parent(prefix.as_str()) {
        Some(p) => {
            let q = chars_of(p.as_str());
            q.len() > 0 && q[0] == '~'
        },
        None => false,
    }
}

/// Completes a command line. The home directory is looked up only where a
/// path argument starts with `~`; the result is then that of
/// `complete_with_home` for whatever the lookup gave.
pub fn complete(input: &str, current_dir: &str) -> (r: Completion)
    ensures
        !completion_needs_home(input@) ==> r@ == completion_of(input@, current_dir@, None),
        completion_needs_home(input@) ==> exists|h: Option<Seq<char>>|
            r@ == #[trigger] completion_of(input@, current_dir@, h),
{
    if needs_home(input) {
        let home = home_dir();
        complete_with_home(input, current_dir, home)
    } else {
        complete_with_home(input, current_dir, None)
    }
}

/// Whether a directory entry is offered: it starts with the prefix, and is a
/// directory where only directories are asked for.
pub open spec fn offered(prefix: Seq<char>, dirs_only: bool) -> spec_fn((Seq<char>, bool)) -> bool {
    |e: (Seq<char>, bool)| (!dirs_only || e.1) && prefix.is_prefix_of(e.0)
}

/// The names and kinds of directory entries.
pub open spec fn entry_views(entries: Seq<(String, bool)>) -> Seq<(Seq<char>, bool)> {
    entries.map_values(|e: (String, bool)| (e.0@, e.1))
}

/// The names of the offered entries, in listing order.
pub open spec fn listed(entries: Seq<(Seq<char>, bool)>, prefix: Seq<char>, dirs_only: bool) -> Seq<
    Seq<char>,
> {
    entries.filter(offered(prefix, dirs_only)).map_values(|e: (Seq<char>, bool)| e.0)
}

/// Filters a directory listing (name, is a directory) for completion.
pub fn complete_from_dir(entries: &Vec<(String, bool)>, prefix: &str, dirs_only: bool) -> (r: Vec<
    String,
>)
    ensures
        string_views(r@) == listed(entry_views(entries@), prefix@, dirs_only),
{
    let mut r: Vec<String> = Vec::new();
    let mut i: usize = 0;
    while i < entries.len()
        invariant
            i <= entries@.len(),
            string_views(r@) == listed(entry_views(entries@.take(i as int)), prefix@, dirs_only),
        decreases entries@.len() - i,
    {
        let name = &entries[i].0;
        let is_dir = entries[i].1;
        proof {
            let s = entry_views(entries@.take(i as int));
            let e = (name@, is_dir);
            assert(entry_views(entries@.take(i + 1)) =~= s.push(e));
            s.lemma_filter_push(e, offered(prefix@, dirs_only));
            let f = s.filter(offered(prefix@, dirs_only));
            assert(f.push(e).map_values(|e: (Seq<char>, bool)| e.0) =~= f.map_values(
                |e: (Seq<char>, bool)| e.0,
            ).push(name@));
        }
        if (!dirs_only || is_dir) && starts_with(name.as_str(), prefix) {
            let ghost before = r@;
            r.push(name.clone());
            assert(string_views(r@) =~= string_views(before).push(name@));
        }
        i += 1;
    }
    assert(entries@.take(entries@.len() as int) =~= entries@);
    r
}


/// Every candidate offered starts with the typed prefix, and every option
/// that starts with it is offered.
pub proof fn lemma_matching_prefix(prefix: Seq<char>, options: Seq<Seq<char>>)
    ensures
        forall|i: int| 0 <= i < matching(prefix, options).len() ==> prefix.is_prefix_of(
            #[trigger] matching(prefix, options)[i],
        ),
        forall|i: int| 0 <= i < options.len() && prefix.is_prefix_of(#[trigger] options[i])
            ==> matching(prefix, options).contains(options[i]),
{
    options.filter_lemma(has_prefix(prefix));
}

} // verus!
