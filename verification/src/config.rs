//! Settings that the logic reads, and where the settings live.

use vstd::prelude::*;
use crate::paths::{joined, path_join};

verus! {

/// General settings.
#[derive(Debug, Clone)]
pub struct GeneralConfig {
    /// Whether hidden files are listed at start.
    pub show_hidden: bool,
    /// The initial sort key (name, size, date or ext).
    pub default_sort: String,
    /// Whether sorting is ascending.
    pub sort_ascending: bool,
    /// Whether directories come first.
    pub dirs_first: bool,
    /// Whether deleting asks first.
    pub confirm_delete: bool,
    /// Whether deleting moves to the trash.
    pub use_trash: bool,
}

impl GeneralConfig {
    /// The settings without a configuration file.
    pub fn default() -> (c: GeneralConfig)
        ensures
            !c.show_hidden,
            c.default_sort@ == "name"@,
            c.sort_ascending,
            c.dirs_first,
            c.confirm_delete,
            c.use_trash,
    {
        GeneralConfig {
            show_hidden: false,
            default_sort: "name".to_owned(),
            sort_ascending: true,
            dirs_first: true,
            confirm_delete: true,
            use_trash: true,
        }
    }
}

/// `dirs::config_dir`: the user's configuration directory, read from the
/// environment; nothing is known of the result.
#[verifier::external_body]
pub(crate) fn user_config_dir() -> (r: Option<String>) {
    match dirs::config_dir() {
        Some(p) => Some(p.to_string_lossy().into_owned()),
        None => None,
    }
}

/// The settings directory under a base directory (`.` without one).
pub open spec fn config_dir_under(base: Option<Seq<char>>) -> Seq<char> {
    match base {
        Some(b) => joined(b, "mdir"@),
        None => joined("."@, "mdir"@),
    }
}

/// The settings directory: `mdir` under the user's configuration
/// directory, or under the current one when there is none.
pub fn config_dir() -> (r: String)
    ensures
        exists|base: Option<Seq<char>>| r@ == #[trigger] config_dir_under(base),
{
    match user_config_dir() {
        Some(b) => {
            let r = path_join(b.as_str(), "mdir");
            assert(r@ == config_dir_under(Some(b@)));
            r
        },
        None => {
            let r = path_join(".", "mdir");
            assert(r@ == config_dir_under(None));
            r
        },
    }
}

/// The settings file under a settings directory.
pub fn config_file(dir: &str) -> (r: String)
    ensures
        r@ == joined(dir@, "config.toml"@),
{
    path_join(dir, "config.toml")
}

} // verus!
