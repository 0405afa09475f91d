//! Parsing of what was typed after the `:` prompt.

use vstd::prelude::*;
use crate::text::{chars_of, is_ws, lowercase, run_len, split_whitespace, string_of_range, to_lowercase, trim, trim_bounds, trim_str, views, words};

verus! {

/// A built-in command: its name, lowercased, and its arguments.
#[derive(Debug, Clone)]
pub struct ParsedCommand {
    /// Command name, normalized to lowercase.
    pub name: String,
    /// The remaining whitespace-separated words.
    pub args: Vec<String>,
}

/// What a command line is.
#[derive(Debug, Clone)]
pub enum ParseResult {
    /// A built-in command.
    Builtin(ParsedCommand),
    /// A shell command (`:!cmd`), without the `!`.
    Shell(String),
    /// Nothing but whitespace.
    Empty,
}

/// The mathematical value of a parse result.
pub enum ParseSpec {
    Builtin { name: Seq<char>, args: Seq<Seq<char>> },
    Shell(Seq<char>),
    Empty,
}

impl View for ParseResult {
    type V = ParseSpec;

    open spec fn view(&self) -> ParseSpec {
        match self {
            ParseResult::Builtin(c) => ParseSpec::Builtin { name: c.name@, args: views(c.args@) },
            ParseResult::Shell(s) => ParseSpec::Shell(s@),
            ParseResult::Empty => ParseSpec::Empty,
        }
    }
}

/// How a command line is read: trimmed; empty if nothing is left; a shell
/// command if it starts with `!` (the rest, trimmed again); otherwise the
/// first word, lowercased, is the command name and the other words are its
/// arguments.
pub open spec fn parse_spec(input: Seq<char>) -> ParseSpec {
    let t = trim(input);
    if t.len() == 0 {
        ParseSpec::Empty
    } else if t[0] == '!' {
        ParseSpec::Shell(trim(t.drop_first()))
    } else {
        let w = words(t);
        ParseSpec::Builtin { name: lowercase(w[0]), args: w.drop_first() }
    }
}

/// A non-empty trimmed text starts a word at its first character.
proof fn lemma_trimmed_has_word(s: Seq<char>)
    requires
        trim(s).len() > 0,
    ensures
        words(trim(s)).len() >= 1,
{
    let a = run_len(s, true);
    crate::text::lemma_run_len_bounds(s, true);
    let t = trim(s);
    let u = s.skip(a as int);
    assert(u[0] == s[a as int]);
    crate::text::lemma_tail_ws_len_bound(u);
    assert(t[0] == u[0]);
    assert(!is_ws(t[0]));
    crate::text::lemma_run_len(t, true, 0);
    assert(t.skip(0) =~= t);
    crate::text::lemma_run_len_bounds(t, false);
}

/// Parses a command line.
pub fn parse(input: &str) -> (r: ParseResult)
    ensures
        r@ == parse_spec(input@),
{
    let v = chars_of(input);
    let (lo, hi) = trim_bounds(&v);
    if lo == hi {
        return ParseResult::Empty;
    }
    let ghost t = trim(input@);
    if v[lo] == '!' {
        let rest = string_of_range(&v, lo + 1, hi);
        assert(rest@ =~= t.drop_first());
        let shell = trim_str(rest.as_str());
        return ParseResult::Shell(shell);
    }
    let trimmed = string_of_range(&v, lo, hi);
    let mut tokens = split_whitespace(trimmed.as_str());
    proof {
        lemma_trimmed_has_word(input@);
    }
    let first = tokens.remove(0);
    let name = to_lowercase(first.as_str());
    let r = ParseResult::Builtin(ParsedCommand { name, args: tokens });
    assert(views(tokens@) =~= words(t).drop_first());
    r
}

} // verus!
