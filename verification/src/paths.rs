//! Where the configuration lives: the root directory and the directory of
//! the profile files. Paths are kept as text, components joined by `/`,
//! which every host takes for a separator.

use crate::error::{CcmError, CcmErrorView};
use vstd::prelude::*;
use vstd::string::*;

verus! {

/// What stands before a component that lies directly in the directory
/// `base`: nothing for the empty path, `base` itself where it ends in the
/// separator, else `base` and the separator `/`.
pub open spec fn dir_prefix(base: Seq<char>) -> Seq<char> {
    if base.len() == 0 || base.last() == '/' {
        base
    } else {
        base + seq!['/']
    }
}

/// The path of `leaf` in the directory `base`.
pub open spec fn joined(base: Seq<char>, leaf: Seq<char>) -> Seq<char> {
    dir_prefix(base) + leaf
}

/// The configuration root that belongs to the per-user directory `base`.
pub open spec fn config_root(base: Seq<char>) -> Seq<char> {
    joined(base, "ccm"@)
}

/// The directory of the profile files under the configuration root `root`.
pub open spec fn profiles_root(root: Seq<char>) -> Seq<char> {
    joined(root, "profiles"@)
}

/// The path of `leaf` in the directory `base`.
pub fn join(base: &str, leaf: &str) -> (path: String)
    ensures
        path@ == joined(base@, leaf@),
{
    let len = base.unicode_len();
    let mut path = String::from_str(base);
    if len > 0 && base.get_char(len - 1) != '/' {
        path.append("/");
    }
    path.append(leaf);
    proof {
        reveal_strlit("/");
        assert(path@ =~= joined(base@, leaf@));
    }
    path
}

/// What a host says of its per-user configuration directory.
#[derive(Debug, Clone)]
pub enum HostDir {
    /// The host has none.
    Absent,
    /// The host has one, and this is its path.
    Text(String),
    /// The host has one, and its path is not Unicode text.
    NotText,
}

/// Why a configuration directory that is not Unicode text is refused.
pub const NOT_TEXT: &'static str =
    "the path of the configuration directory of this host is not Unicode text";

/// `dirs::config_dir`: the per-user configuration directory of this host,
/// as text where its path is Unicode text. The answer depends on the
/// environment of the process, so nothing is claimed of it.
#[verifier::external_body]
fn system_config_dir() -> HostDir {
    match dirs::config_dir() {
        None => HostDir::Absent,
        Some(dir) => match dir.into_os_string().into_string() {
            Ok(text) => HostDir::Text(text),
            Err(_) => HostDir::NotText,
        },
    }
}

/// `std::path::is_separator`: whether this host takes the character for a
/// separator of path components. The answer depends on the host, so
/// nothing is claimed of it.
#[verifier::external_body]
pub(crate) fn host_separates(c: char) -> bool {
    std::path::is_separator(c)
}

/// The two directories of the configuration.
#[derive(Debug)]
pub struct CcmPaths {
    config_dir: String,
    profiles_dir: String,
}

/// The two directories of a `CcmPaths`, as text.
pub struct CcmPathsView {
    pub config_dir: Seq<char>,
    pub profiles_dir: Seq<char>,
}

impl View for CcmPaths {
    type V = CcmPathsView;

    closed spec fn view(&self) -> CcmPathsView {
        CcmPathsView { config_dir: self.config_dir@, profiles_dir: self.profiles_dir@ }
    }
}

impl Clone for CcmPaths {
    fn clone(&self) -> (copy: Self)
        ensures
            copy@ == self@,
    {
        proof {
            use_type_invariant(self);
        }
        CcmPaths { config_dir: self.config_dir.clone(), profiles_dir: self.profiles_dir.clone() }
    }
}

impl CcmPaths {
    /// The profile directory always lies directly under the configuration root.
    #[verifier::type_invariant]
    spec fn layout(self) -> bool {
        self.profiles_dir@ == profiles_root(self.config_dir@)
    }

    /// The paths under the per-user configuration directory of this host.
    ///
    /// Fails with `ConfigDirUnavailable` where the host has no such
    /// directory, and with `Other` where it has one whose path is not
    /// Unicode text; with nothing else. No directory is created: whoever
    /// works on the files creates `profiles_dir` first.
    pub fn new() -> (made: Result<Self, CcmError>)
        ensures
            match made {
                Ok(paths) => exists|base: Seq<char>|
                    paths@.config_dir == #[trigger] config_root(base)
                        && paths@.profiles_dir == profiles_root(paths@.config_dir),
                Err(e) => e@ == CcmErrorView::ConfigDirUnavailable || e@ == CcmErrorView::Other(
                    NOT_TEXT@,
                ),
            },
    {
        Self::from_host_dir(system_config_dir())
    }

    /// The paths under what the host said of its configuration directory:
    /// `ConfigDirUnavailable` where it has none, `Other` where the path is
    /// not Unicode text.
    pub fn from_host_dir(found: HostDir) -> (made: Result<Self, CcmError>)
        ensures
            match found {
                HostDir::Absent => made is Err && made->Err_0@
                    == CcmErrorView::ConfigDirUnavailable,
                HostDir::Text(dir) => made is Ok && made->Ok_0@.config_dir == config_root(dir@)
                    && made->Ok_0@.profiles_dir == profiles_root(config_root(dir@)),
                HostDir::NotText => made is Err && made->Err_0@ == CcmErrorView::Other(NOT_TEXT@),
            },
    {
        match found {
            HostDir::Absent => Self::from_config_base(None),
            HostDir::Text(dir) => Self::from_config_base(Some(dir)),
            HostDir::NotText => Err(CcmError::Other(String::from_str(NOT_TEXT))),
        }
    }

    /// The paths under the per-user configuration directory `base`, and
    /// `ConfigDirUnavailable` where there is none.
    pub fn from_config_base(base: Option<String>) -> (made: Result<Self, CcmError>)
        ensures
            match base {
                Some(dir) => made is Ok && made->Ok_0@.config_dir == config_root(dir@)
                    && made->Ok_0@.profiles_dir == profiles_root(config_root(dir@)),
                None => made is Err && made->Err_0@ == CcmErrorView::ConfigDirUnavailable,
            },
    {
        match base {
            Some(dir) => {
                let config_dir = join(dir.as_str(), "ccm");
                let profiles_dir = join(config_dir.as_str(), "profiles");
                Ok(CcmPaths { config_dir, profiles_dir })
            },
            None => Err(CcmError::ConfigDirUnavailable),
        }
    }

    /// The main configuration directory, e.g. `~/.config/ccm`.
    pub fn config_dir(&self) -> (dir: &String)
        ensures
            dir@ == self@.config_dir,
    {
        &self.config_dir
    }

    /// The profile storage directory, e.g. `~/.config/ccm/profiles`.
    pub fn profiles_dir(&self) -> (dir: &String)
        ensures
            dir@ == self@.profiles_dir,
            dir@ == profiles_root(self@.config_dir),
    {
        proof {
            use_type_invariant(self);
        }
        &self.profiles_dir
    }
}

} // verus!
