//! The error type shared by all operations, and the messages shown for it.

use vstd::prelude::*;
use crate::text::{concat2, concat3, decimal, decimal_string, push_decimal, push_str};

verus! {

/// Every error the file manager reports. Paths are held as their display
/// text.
#[derive(Debug)]
pub enum AppError {
    /// An I/O operation failed; the text is the operating system's message.
    Io(String),
    /// The target name is already taken.
    FileAlreadyExists(String),
    /// The path does not exist.
    PathNotFound(String),
    /// The path is not a directory.
    NotADirectory(String),
    /// The path has no parent or no file name.
    InvalidPath,
    /// Access was refused.
    PermissionDenied(String),
    /// Moving to the trash failed.
    TrashError(String),
    /// The command name is not known.
    UnknownCommand(String),
    /// A command got the wrong number of arguments.
    InvalidArguments { command: String, expected: String, got: usize },
    /// The sort criterion is not one of name, size, date, ext.
    InvalidSortCriteria(String),
    /// The `:set` option is not known.
    UnknownOption(String),
    /// The home directory could not be determined.
    HomeDirNotFound,
    /// The terminal is smaller than the minimum.
    TerminalTooSmall { min_w: u16, min_h: u16, actual_w: u16, actual_h: u16 },
    /// The configuration file could not be read or parsed.
    ConfigError(String),
}

/// The mathematical value of an error: its kind and texts.
pub enum ErrorSpec {
    Io(Seq<char>),
    FileAlreadyExists(Seq<char>),
    PathNotFound(Seq<char>),
    NotADirectory(Seq<char>),
    InvalidPath,
    PermissionDenied(Seq<char>),
    TrashError(Seq<char>),
    UnknownCommand(Seq<char>),
    InvalidArguments { command: Seq<char>, expected: Seq<char>, got: nat },
    InvalidSortCriteria(Seq<char>),
    UnknownOption(Seq<char>),
    HomeDirNotFound,
    TerminalTooSmall { min_w: u16, min_h: u16, actual_w: u16, actual_h: u16 },
    ConfigError(Seq<char>),
}

impl View for AppError {
    type V = ErrorSpec;

    open spec fn view(&self) -> ErrorSpec {
        match self {
            AppError::Io(e) => ErrorSpec::Io(e@),
            AppError::FileAlreadyExists(p) => ErrorSpec::FileAlreadyExists(p@),
            AppError::PathNotFound(p) => ErrorSpec::PathNotFound(p@),
            AppError::NotADirectory(p) => ErrorSpec::NotADirectory(p@),
            AppError::InvalidPath => ErrorSpec::InvalidPath,
            AppError::PermissionDenied(p) => ErrorSpec::PermissionDenied(p@),
            AppError::TrashError(e) => ErrorSpec::TrashError(e@),
            AppError::UnknownCommand(c) => ErrorSpec::UnknownCommand(c@),
            AppError::InvalidArguments { command, expected, got } => ErrorSpec::InvalidArguments {
                command: command@,
                expected: expected@,
                got: *got as nat,
            },
            AppError::InvalidSortCriteria(s) => ErrorSpec::InvalidSortCriteria(s@),
            AppError::UnknownOption(o) => ErrorSpec::UnknownOption(o@),
            AppError::HomeDirNotFound => ErrorSpec::HomeDirNotFound,
            AppError::TerminalTooSmall { min_w, min_h, actual_w, actual_h } =>
                ErrorSpec::TerminalTooSmall {
                min_w: *min_w,
                min_h: *min_h,
                actual_w: *actual_w,
                actual_h: *actual_h,
            },
            AppError::ConfigError(e) => ErrorSpec::ConfigError(e@),
        }
    }
}

/// Prefix of every message meant for the status line.
pub open spec fn error_prefix() -> Seq<char> {
    "E: "@
}

/// The full description of an error.
pub open spec fn message_of(e: ErrorSpec) -> Seq<char> {
    match e {
        ErrorSpec::Io(e) => "I/O error: "@ + e,
        ErrorSpec::FileAlreadyExists(p) => "File already exists: "@ + p,
        ErrorSpec::PathNotFound(p) => "Path not found: "@ + p,
        ErrorSpec::NotADirectory(p) => "Not a directory: "@ + p,
        ErrorSpec::InvalidPath => "Invalid path"@,
        ErrorSpec::PermissionDenied(p) => "Permission denied: "@ + p,
        ErrorSpec::TrashError(e) => "Trash operation failed: "@ + e,
        ErrorSpec::UnknownCommand(c) => "Unknown command: '"@ + c
            + "'. Type :help for available commands."@,
        ErrorSpec::InvalidArguments { command, expected, got } => "Invalid arguments for '"@
            + command + "': expected "@ + expected + ", got "@ + decimal(got),
        ErrorSpec::InvalidSortCriteria(s) => "Invalid sort criteria: '"@ + s
            + "'. Use: name, size, date, ext"@,
        ErrorSpec::UnknownOption(o) => "Unknown option: '"@ + o + "'"@,
        ErrorSpec::HomeDirNotFound => "Home directory not found"@,
        ErrorSpec::TerminalTooSmall { min_w, min_h, actual_w, actual_h } =>
            "Terminal too small: minimum "@ + decimal(min_w as nat) + "x"@
            + decimal(min_h as nat) + ", got "@ + decimal(actual_w as nat) + "x"@
            + decimal(actual_h as nat),
        ErrorSpec::ConfigError(e) => "Config parse error: "@ + e,
    }
}

/// The short message shown on the status line for an error.
pub open spec fn user_message_of(e: ErrorSpec) -> Seq<char> {
    match e {
        ErrorSpec::UnknownCommand(c) => error_prefix() + "Unknown command '"@ + c
            + "'. Type :help for available commands."@,
        ErrorSpec::PathNotFound(p) => error_prefix() + "Path not found: "@ + p,
        ErrorSpec::PermissionDenied(p) => error_prefix() + "Permission denied: "@ + p,
        ErrorSpec::FileAlreadyExists(p) => error_prefix() + "Already exists: "@ + p,
        _ => error_prefix() + message_of(e),
    }
}

impl AppError {
    /// The full description of the error.
    pub open spec fn spec_message(&self) -> Seq<char> {
        message_of(self@)
    }

    /// The short message shown on the status line.
    pub open spec fn spec_user_message(&self) -> Seq<char> {
        user_message_of(self@)
    }

    /// The full description of the error.
    pub fn message(&self) -> (r: String)
        ensures
            r@ == self.spec_message(),
    {
        let r = match self {
            AppError::Io(e) => concat2("I/O error: ", e.as_str()),
            AppError::FileAlreadyExists(p) => concat2("File already exists: ", p.as_str()),
            AppError::PathNotFound(p) => concat2("Path not found: ", p.as_str()),
            AppError::NotADirectory(p) => concat2("Not a directory: ", p.as_str()),
            AppError::InvalidPath => concat2("Invalid path", ""),
            AppError::PermissionDenied(p) => concat2("Permission denied: ", p.as_str()),
            AppError::TrashError(e) => concat2("Trash operation failed: ", e.as_str()),
            AppError::UnknownCommand(c) => concat3(
                "Unknown command: '",
                c.as_str(),
                "'. Type :help for available commands.",
            ),
            AppError::InvalidArguments { command, expected, got } => {
                let mut s = concat3("Invalid arguments for '", command.as_str(), "': expected ");
                push_str(&mut s, expected.as_str());
                push_str(&mut s, ", got ");
                push_decimal(&mut s, *got as u64);
                s
            },
            AppError::InvalidSortCriteria(s) => concat3(
                "Invalid sort criteria: '",
                s.as_str(),
                "'. Use: name, size, date, ext",
            ),
            AppError::UnknownOption(o) => concat3("Unknown option: '", o.as_str(), "'"),
            AppError::HomeDirNotFound => concat2("Home directory not found", ""),
            AppError::TerminalTooSmall { min_w, min_h, actual_w, actual_h } => {
                let mut s = concat2("Terminal too small: minimum ", "");
                push_decimal(&mut s, *min_w as u64);
                push_str(&mut s, "x");
                push_decimal(&mut s, *min_h as u64);
                push_str(&mut s, ", got ");
                push_decimal(&mut s, *actual_w as u64);
                push_str(&mut s, "x");
                push_decimal(&mut s, *actual_h as u64);
                s
            },
            AppError::ConfigError(e) => concat2("Config parse error: ", e.as_str()),
        };
        proof {
            reveal_strlit("");
        }
        assert(r@ =~= self.spec_message());
        r
    }

    /// The short message shown on the status line.
    pub fn user_message(&self) -> (r: String)
        ensures
            r@ == self.spec_user_message(),
    {
        let r = match self {
            AppError::UnknownCommand(c) => {
                let mut s = concat3("E: ", "Unknown command '", c.as_str());
                push_str(&mut s, "'. Type :help for available commands.");
                s
            },
            AppError::PathNotFound(p) => concat3("E: ", "Path not found: ", p.as_str()),
            AppError::PermissionDenied(p) => concat3("E: ", "Permission denied: ", p.as_str()),
            AppError::FileAlreadyExists(p) => concat3("E: ", "Already exists: ", p.as_str()),
            _ => {
                let m = self.message();
                concat2("E: ", m.as_str())
            },
        };
        assert(r@ =~= self.spec_user_message());
        r
    }
}

} // verus!
