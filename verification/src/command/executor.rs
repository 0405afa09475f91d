//! Turning a parsed command line into the action it asks for.

use vstd::prelude::*;
use super::parser::{ParseResult, ParseSpec, ParsedCommand};
use crate::error::{AppError, ErrorSpec};
use crate::fs::entry::SortCriteria;
use crate::paths::{home_dir, joined, path_join};
use crate::text::{chars_of, join, join_strings, lowercase, str_eq, string_of_range, to_lowercase, views};

verus! {

/// What an executed command asks the application to do.
#[derive(Debug)]
pub enum CommandAction {
    /// Show the help screen, on a topic if one is given.
    ShowHelp(Option<String>),
    /// Quit.
    Quit,
    /// Change to the directory (expanded, not yet resolved on disk).
    ChangeDir(String),
    /// Sort by another key.
    SetSort(SortCriteria),
    /// Show or hide hidden files.
    ToggleHidden,
    /// Run a shell command.
    Shell(String),
    /// Create a directory.
    CreateDir(String),
    /// Create an empty file.
    CreateFile(String),
    /// Add a bookmark.
    Bookmark(Option<String>),
    /// Search file names.
    Find(String),
}

/// The mathematical value of a command action.
pub enum ActionSpec {
    ShowHelp(Option<Seq<char>>),
    Quit,
    ChangeDir(Seq<char>),
    SetSort(SortCriteria),
    ToggleHidden,
    Shell(Seq<char>),
    CreateDir(Seq<char>),
    CreateFile(Seq<char>),
    Bookmark(Option<Seq<char>>),
    Find(Seq<char>),
}

/// The view of an optional string.
pub open spec fn opt_view(o: Option<String>) -> Option<Seq<char>> {
    match o {
        Some(s) => Some(s@),
        None => None,
    }
}

impl View for CommandAction {
    type V = ActionSpec;

    open spec fn view(&self) -> ActionSpec {
        match self {
            CommandAction::ShowHelp(t) => ActionSpec::ShowHelp(opt_view(*t)),
            CommandAction::Quit => ActionSpec::Quit,
            CommandAction::ChangeDir(p) => ActionSpec::ChangeDir(p@),
            CommandAction::SetSort(c) => ActionSpec::SetSort(*c),
            CommandAction::ToggleHidden => ActionSpec::ToggleHidden,
            CommandAction::Shell(c) => ActionSpec::Shell(c@),
            CommandAction::CreateDir(n) => ActionSpec::CreateDir(n@),
            CommandAction::CreateFile(n) => ActionSpec::CreateFile(n@),
            CommandAction::Bookmark(n) => ActionSpec::Bookmark(opt_view(*n)),
            CommandAction::Find(q) => ActionSpec::Find(q@),
        }
    }
}

/// The value of an execution result.
pub open spec fn result_view(r: Result<CommandAction, AppError>) -> Result<ActionSpec, ErrorSpec> {
    match r {
        Ok(a) => Ok(a@),
        Err(e) => Err(e@),
    }
}

/// The full name for an alias (`q`, `bm`); other names stand for themselves.
pub open spec fn alias_of(name: Seq<char>) -> Seq<char> {
    if name == "q"@ {
        "quit"@
    } else if name == "bm"@ {
        "bookmark"@
    } else {
        name
    }
}

/// The sort key a word names, compared lowercased.
pub open spec fn criteria_of(word: Seq<char>) -> Result<SortCriteria, ErrorSpec> {
    let l = lowercase(word);
    if l == "name"@ || l == "n"@ {
        Ok(SortCriteria::Name)
    } else if l == "size"@ || l == "s"@ {
        Ok(SortCriteria::Size)
    } else if l == "date"@ || l == "d"@ || l == "time"@ || l == "modified"@ {
        Ok(SortCriteria::Date)
    } else if l == "ext"@ || l == "e"@ || l == "extension"@ {
        Ok(SortCriteria::Extension)
    } else {
        Err(ErrorSpec::InvalidSortCriteria(word))
    }
}

/// Number of leading `/` characters.
pub open spec fn leading_slashes(s: Seq<char>) -> nat
    decreases s.len(),
{
    if s.len() > 0 && s[0] == '/' {
        1 + leading_slashes(s.drop_first())
    } else {
        0
    }
}

/// A path typed by the user, made absolute: `~` stands for the home
/// directory, a path starting with `/` stays, anything else is relative to
/// the current directory.
pub open spec fn expanded(path: Seq<char>, current_dir: Seq<char>, home: Option<Seq<char>>) -> Result<
    Seq<char>,
    ErrorSpec,
> {
    if path.len() > 0 && path[0] == '~' {
        match home {
            None => Err(ErrorSpec::HomeDirNotFound),
            Some(h) => {
                let rest = path.drop_first();
                Ok(joined(h, rest.skip(leading_slashes(rest) as int)))
            },
        }
    } else if path.len() > 0 && path[0] == '/' {
        Ok(path)
    } else {
        Ok(joined(current_dir, path))
    }
}

/// The error for a command given no argument.
pub open spec fn missing_argument(command: Seq<char>, expected: Seq<char>) -> ErrorSpec {
    ErrorSpec::InvalidArguments { command, expected, got: 0 }
}

/// What a built-in command line does.
pub open spec fn builtin_result(
    name: Seq<char>,
    args: Seq<Seq<char>>,
    current_dir: Seq<char>,
    home: Option<Seq<char>>,
) -> Result<ActionSpec, ErrorSpec> {
    let n = alias_of(name);
    let first = if args.len() > 0 {
        Some(args[0])
    } else {
        None
    };
    if n == "help"@ {
        Ok(ActionSpec::ShowHelp(first))
    } else if n == "quit"@ {
        Ok(ActionSpec::Quit)
    } else if n == "cd"@ {
        if args.len() == 0 {
            Err(missing_argument("cd"@, "1"@))
        } else {
            match expanded(args[0], current_dir, home) {
                Ok(p) => Ok(ActionSpec::ChangeDir(p)),
                Err(e) => Err(e),
            }
        }
    } else if n == "sort"@ {
        if args.len() == 0 {
            Err(missing_argument("sort"@, "1"@))
        } else {
            match criteria_of(args[0]) {
                Ok(c) => Ok(ActionSpec::SetSort(c)),
                Err(e) => Err(e),
            }
        }
    } else if n == "set"@ {
        if args.len() == 0 {
            Err(missing_argument("set"@, "1-2"@))
        } else if args[0] == "hidden"@ {
            Ok(ActionSpec::ToggleHidden)
        } else {
            Err(ErrorSpec::UnknownOption(args[0]))
        }
    } else if n == "mkdir"@ {
        if args.len() == 0 {
            Err(missing_argument("mkdir"@, "1"@))
        } else {
            Ok(ActionSpec::CreateDir(args[0]))
        }
    } else if n == "touch"@ {
        if args.len() == 0 {
            Err(missing_argument("touch"@, "1"@))
        } else {
            Ok(ActionSpec::CreateFile(args[0]))
        }
    } else if n == "bookmark"@ {
        Ok(ActionSpec::Bookmark(first))
    } else if n == "find"@ {
        if args.len() == 0 {
            Err(missing_argument("find"@, "1"@))
        } else {
            Ok(ActionSpec::Find(join(args, " "@)))
        }
    } else {
        Err(ErrorSpec::UnknownCommand(name))
    }
}

/// What a parsed command line does, given the home directory.
pub open spec fn execution_result(
    p: ParseSpec,
    current_dir: Seq<char>,
    home: Option<Seq<char>>,
) -> Result<ActionSpec, ErrorSpec> {
    match p {
        ParseSpec::Empty => Err(ErrorSpec::UnknownCommand(Seq::empty())),
        ParseSpec::Shell(c) => Ok(ActionSpec::Shell(c)),
        ParseSpec::Builtin { name, args } => builtin_result(name, args, current_dir, home),
    }
}

/// Whether executing the command line reads the home directory: a `cd`
/// to a path that starts with `~`.
pub open spec fn needs_home(p: ParseSpec) -> bool {
    match p {
        ParseSpec::Builtin { name, args } => alias_of(name) == "cd"@ && args.len() > 0
            && args[0].len() > 0 && args[0][0] == '~',
        _ => false,
    }
}

/// Resolves an alias to the full command name.
pub fn resolve_alias(name: &str) -> (r: String)
    ensures
        r@ == alias_of(name@),
{
    if str_eq(name, "q") {
        concat_one("quit")
    } else if str_eq(name, "bm") {
        concat_one("bookmark")
    } else {
        name.to_owned()
    }
}

fn concat_one(s: &str) -> (r: String)
    ensures
        r@ == s@,
{
    s.to_owned()
}

/// Reads a sort key name.
pub fn parse_sort_criteria(s: &str) -> (r: Result<SortCriteria, AppError>)
    ensures
        match r {
            Ok(c) => criteria_of(s@) == Ok::<SortCriteria, ErrorSpec>(c),
            Err(e) => criteria_of(s@) == Err::<SortCriteria, ErrorSpec>(e@),
        },
{
    let l = to_lowercase(s);
    let t = l.as_str();
    if str_eq(t, "name") || str_eq(t, "n") {
        Ok(SortCriteria::Name)
    } else if str_eq(t, "size") || str_eq(t, "s") {
        Ok(SortCriteria::Size)
    } else if str_eq(t, "date") || str_eq(t, "d") || str_eq(t, "time") || str_eq(t, "modified") {
        Ok(SortCriteria::Date)
    } else if str_eq(t, "ext") || str_eq(t, "e") || str_eq(t, "extension") {
        Ok(SortCriteria::Extension)
    } else {
        Err(AppError::InvalidSortCriteria(s.to_owned()))
    }
}

/// Makes a typed path absolute, given the home directory.
pub fn expand_path(path_str: &str, current_dir: &str, home: Option<String>) -> (r: Result<
    String,
    AppError,
>)
    ensures
        match r {
            Ok(p) => expanded(path_str@, current_dir@, opt_view(home)) == Ok::<
                Seq<char>,
                ErrorSpec,
            >(p@),
            Err(e) => expanded(path_str@, current_dir@, opt_view(home)) == Err::<
                Seq<char>,
                ErrorSpec,
            >(e@),
        },
{
    let v = chars_of(path_str);
    if v.len() > 0 && v[0] == '~' {
        match home {
            None => Err(AppError::HomeDirNotFound),
            Some(h) => {
                let mut i: usize = 1;
                while i < v.len() && v[i] == '/'
                    invariant
                        1 <= i <= v.len(),
                        forall|k: int| 1 <= k < i ==> #[trigger] v@[k] == '/',
                    decreases v.len() - i,
                {
                    i += 1;
                }
                proof {
                    let rest = v@.drop_first();
                    lemma_leading_slashes(rest, i - 1);
                    assert(rest.skip(i - 1) =~= v@.subrange(i as int, v.len() as int));
                }
                let tail = string_of_range(&v, i, v.len());
                Ok(path_join(h.as_str(), tail.as_str()))
            },
        }
    } else if v.len() > 0 && v[0] == '/' {
        Ok(path_str.to_owned())
    } else {
        Ok(path_join(current_dir, path_str))
    }
}

/// `leading_slashes` is the length of the maximal run of `/`.
pub proof fn lemma_leading_slashes(s: Seq<char>, k: int)
    requires
        0 <= k <= s.len(),
        forall|j: int| 0 <= j < k ==> #[trigger] s[j] == '/',
        k == s.len() || s[k] != '/',
    ensures
        leading_slashes(s) == k,
    decreases k,
{
    if k > 0 {
        let t = s.drop_first();
        assert forall|j: int| 0 <= j < k - 1 implies #[trigger] t[j] == '/' by {
            assert(t[j] == s[j + 1]);
        }
        if k < s.len() {
            assert(t[k - 1] == s[k]);
        }
        lemma_leading_slashes(t, k - 1);
    }
}

fn invalid_arguments(command: &str, expected: &str) -> (e: AppError)
    ensures
        e@ == missing_argument(command@, expected@),
{
    AppError::InvalidArguments { command: command.to_owned(), expected: expected.to_owned(), got: 0 }
}

fn first_arg(args: &Vec<String>) -> (r: Option<String>)
    ensures
        opt_view(r) == if args@.len() > 0 {
            Some(args@[0]@)
        } else {
            None::<Seq<char>>
        },
{
    if args.len() > 0 {
        Some(args[0].clone())
    } else {
        None
    }
}

/// Executes a built-in command, given the home directory.
pub fn execute_builtin(cmd: &ParsedCommand, current_dir: &str, home: Option<String>) -> (r: Result<
    CommandAction,
    AppError,
>)
    ensures
        result_view(r) == builtin_result(cmd.name@, views(cmd.args@), current_dir@, opt_view(home)),
{
    let name = resolve_alias(cmd.name.as_str());
    let n = name.as_str();
    let args = &cmd.args;
    let ghost a = views(cmd.args@);
    if str_eq(n, "help") {
        Ok(CommandAction::ShowHelp(first_arg(args)))
    } else if str_eq(n, "quit") {
        Ok(CommandAction::Quit)
    } else if str_eq(n, "cd") {
        if args.len() == 0 {
            return Err(invalid_arguments("cd", "1"));
        }
        match expand_path(args[0].as_str(), current_dir, home) {
            Ok(p) => Ok(CommandAction::ChangeDir(p)),
            Err(e) => Err(e),
        }
    } else if str_eq(n, "sort") {
        if args.len() == 0 {
            return Err(invalid_arguments("sort", "1"));
        }
        match parse_sort_criteria(args[0].as_str()) {
            Ok(c) => Ok(CommandAction::SetSort(c)),
            Err(e) => Err(e),
        }
    } else if str_eq(n, "set") {
        if args.len() == 0 {
            return Err(invalid_arguments("set", "1-2"));
        }
        if str_eq(args[0].as_str(), "hidden") {
            Ok(CommandAction::ToggleHidden)
        } else {
            Err(AppError::UnknownOption(args[0].clone()))
        }
    } else if str_eq(n, "mkdir") {
        if args.len() == 0 {
            return Err(invalid_arguments("mkdir", "1"));
        }
        Ok(CommandAction::CreateDir(args[0].clone()))
    } else if str_eq(n, "touch") {
        if args.len() == 0 {
            return Err(invalid_arguments("touch", "1"));
        }
        Ok(CommandAction::CreateFile(args[0].clone()))
    } else if str_eq(n, "bookmark") {
        Ok(CommandAction::Bookmark(first_arg(args)))
    } else if str_eq(n, "find") {
        if args.len() == 0 {
            return Err(invalid_arguments("find", "1"));
        }
        Ok(CommandAction::Find(join_strings(args, " ")))
    } else {
        Err(AppError::UnknownCommand(cmd.name.clone()))
    }
}

/// Executes a parsed command line, given the home directory.
pub fn execute_with_home(parse_result: &ParseResult, current_dir: &str, home: Option<String>) -> (r:
    Result<CommandAction, AppError>)
    ensures
        result_view(r) == execution_result(parse_result@, current_dir@, opt_view(home)),
{
    match parse_result {
        ParseResult::Empty => Err(AppError::UnknownCommand(String::new())),
        ParseResult::Shell(cmd) => Ok(CommandAction::Shell(cmd.clone())),
        ParseResult::Builtin(cmd) => execute_builtin(cmd, current_dir, home),
    }
}

/// Executes a parsed command line; the home directory is read only for a
/// `cd` to a `~` path.
pub fn execute(parse_result: &ParseResult, current_dir: &str) -> (r: Result<CommandAction, AppError>)
    ensures
        !needs_home(parse_result@) ==> result_view(r) == execution_result(
            parse_result@,
            current_dir@,
            None,
        ),
        exists|home: Option<Seq<char>>|
            result_view(r) == execution_result(parse_result@, current_dir@, home),
{
    let wants_home = match parse_result {
        ParseResult::Builtin(cmd) => {
            let name = resolve_alias(cmd.name.as_str());
            if str_eq(name.as_str(), "cd") && cmd.args.len() > 0 {
                let v = chars_of(cmd.args[0].as_str());
                v.len() > 0 && v[0] == '~'
            } else {
                false
            }
        },
        _ => false,
    };
    let home = if wants_home {
        home_dir()
    } else {
        None
    };
    let r = execute_with_home(parse_result, current_dir, home);
    proof {
        if !needs_home(parse_result@) {
            assert(!wants_home);
        }
    }
    r
}

/// The words for sorting by modification time.
pub open spec fn is_date_word(l: Seq<char>) -> bool {
    l == "date"@ || l == "d"@ || l == "time"@ || l == "modified"@
}

/// The words for sorting by size.
pub open spec fn is_size_word(l: Seq<char>) -> bool {
    l == "size"@ || l == "s"@
}

/// The words for sorting by name.
pub open spec fn is_name_word(l: Seq<char>) -> bool {
    l == "name"@ || l == "n"@
}

/// The words for sorting by extension.
pub open spec fn is_ext_word(l: Seq<char>) -> bool {
    l == "ext"@ || l == "e"@ || l == "extension"@
}

/// The sort words, compared lowercased, name the keys the listing is then
/// ordered by: `date`, `d`, `time` and `modified` order by modification
/// time; `size` and `s` by size; `name` and `n` by the lowercased name;
/// `ext`, `e` and `extension` by the extension; any other word is refused
/// as it was typed.
pub proof fn lemma_sort_words(w: Seq<char>, a: crate::fs::entry::FileEntry, b: crate::fs::entry::FileEntry)
    ensures
        is_date_word(lowercase(w)) ==> (criteria_of(w) matches Ok(c) && crate::fs::entry::compare_by(c, a, b)
            == crate::order::compare_int(a.modified as int, b.modified as int)),
        is_size_word(lowercase(w)) ==> (criteria_of(w) matches Ok(c) && crate::fs::entry::compare_by(c, a, b)
            == crate::order::compare_int(a.size as int, b.size as int)),
        is_name_word(lowercase(w)) ==> (criteria_of(w) matches Ok(c) && crate::fs::entry::compare_by(c, a, b)
            == crate::order::compare_text(lowercase(a.name@), lowercase(b.name@))),
        is_ext_word(lowercase(w)) ==> (criteria_of(w) matches Ok(c) && crate::fs::entry::compare_by(c, a, b)
            == crate::order::compare_text(crate::fs::entry::ext_key(a), crate::fs::entry::ext_key(b))),
        !(is_date_word(lowercase(w)) || is_size_word(lowercase(w)) || is_name_word(lowercase(w))
            || is_ext_word(lowercase(w))) ==> criteria_of(w) == Err::<SortCriteria, ErrorSpec>(
            ErrorSpec::InvalidSortCriteria(w),
        ),
{
    reveal_strlit("date");
    reveal_strlit("d");
    reveal_strlit("time");
    reveal_strlit("modified");
    reveal_strlit("size");
    reveal_strlit("s");
    reveal_strlit("name");
    reveal_strlit("n");
    reveal_strlit("ext");
    reveal_strlit("e");
    reveal_strlit("extension");
    let l = lowercase(w);
    assert("name"@.len() == 4);
    assert("n"@.len() == 1);
    assert("size"@.len() == 4);
    assert("s"@.len() == 1);
    assert("date"@.len() == 4);
    assert("d"@.len() == 1);
    assert("time"@.len() == 4);
    assert("modified"@.len() == 8);
    assert("ext"@.len() == 3);
    assert("e"@.len() == 1);
    assert("extension"@.len() == 9);
    if l == "ext"@ {
        assert(l != "name"@);
        assert(l != "n"@);
        assert(l != "size"@);
        assert(l != "s"@);
    } else if l == "e"@ {
        assert(l[0] == 'e' && "n"@[0] == 'n' && "s"@[0] == 's');
        assert(l != "name"@);
        assert(l != "n"@);
        assert(l != "size"@);
        assert(l != "s"@);
    } else if l == "extension"@ {
        assert(l != "name"@);
        assert(l != "n"@);
        assert(l != "size"@);
        assert(l != "s"@);
    }
    assert("size"@[0] != "name"@[0]);
    assert("s"@[0] != "n"@[0]);
    assert("date"@[0] != "name"@[0]);
    assert("date"@[0] != "size"@[0]);
    assert("d"@[0] != "n"@[0]);
    assert("d"@[0] != "s"@[0]);
    assert("time"@[0] != "name"@[0]);
    assert("time"@[0] != "size"@[0]);
    assert("time"@[0] != "date"@[0]);
    assert("e"@[0] != "n"@[0]);
    assert("e"@[0] != "s"@[0]);
    assert("e"@[0] != "d"@[0]);
}

} // verus!
