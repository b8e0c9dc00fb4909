//! The profile store: what each operation decides from what was found on
//! disk, and what it asks to be done there. The files themselves are read
//! and written by the caller.

use crate::document::rendered_view;
use crate::error::{CcmError, CcmErrorView};
use crate::paths::{
    config_root, host_separates, join, joined, profiles_root, CcmPaths, NOT_TEXT,
};
use crate::profile::codec::{decode_profile, decoded_text, encode_profile, encoded_text};
use crate::profile::model::{distinct_keys, pairs_view, Profile, ProfileView};
use crate::profile::names::{
    entries_view, file_name_for, filesystem_safe, is_filesystem_safe, is_listing,
    profile_file_name, sorted_names, DirEntry, UNSAFE_NAME,
};
use crate::text::strings_view;
use vstd::prelude::*;
use vstd::string::*;

verus! {

/// The path of the file that holds the profile `name` in the directory `dir`.
pub open spec fn profile_path(dir: Seq<char>, name: Seq<char>) -> Seq<char> {
    joined(dir, profile_file_name(name))
}

/// The path at which the file of the profile `name` is written before it is
/// moved to its place.
pub open spec fn staging_path(dir: Seq<char>, name: Seq<char>) -> Seq<char> {
    profile_path(dir, name) + ".tmp"@
}

/// A file to be written: in full at `staging_path`, then moved to `path`,
/// so that nobody reads half of it.
#[derive(Debug, Clone)]
pub struct FileWrite {
    pub path: String,
    pub staging_path: String,
    pub content: String,
}

pub struct FileWriteView {
    pub path: Seq<char>,
    pub staging_path: Seq<char>,
    pub content: Seq<char>,
}

impl View for FileWrite {
    type V = FileWriteView;

    open spec fn view(&self) -> FileWriteView {
        FileWriteView {
            path: self.path@,
            staging_path: self.staging_path@,
            content: self.content@,
        }
    }
}

/// What was found at the path of a profile's file.
#[derive(Debug, Clone)]
pub enum FileProbe {
    /// Nothing is there.
    Absent,
    /// Something is there and could not be read, with this message.
    Unreadable(String),
    /// A file with this text.
    Content(String),
}

pub enum FileProbeView {
    Absent,
    Unreadable(Seq<char>),
    Content(Seq<char>),
}

impl View for FileProbe {
    type V = FileProbeView;

    open spec fn view(&self) -> FileProbeView {
        match *self {
            FileProbe::Absent => FileProbeView::Absent,
            FileProbe::Unreadable(message) => FileProbeView::Unreadable(message@),
            FileProbe::Content(text) => FileProbeView::Content(text@),
        }
    }
}

/// What the store is made with: the directory of the profile files, and
/// whether the host takes `\` for a separator beside `/`.
pub struct StoreView {
    pub dir: Seq<char>,
    pub backslash_separates: bool,
}

/// The name can be one component of a path on the host of this store.
pub open spec fn safe_in(store: StoreView, name: Seq<char>) -> bool {
    filesystem_safe(name, store.backslash_separates)
}

/// The error for a name that is not filesystem-safe: no path is handed out
/// under such a name, to write a file or to remove one.
pub open spec fn refused_name(name: Seq<char>) -> CcmErrorView {
    CcmErrorView::InvalidProfileName { name, reason: UNSAFE_NAME@ }
}

/// The path at which the profile `name` is kept, or the refusal of a name
/// that is not filesystem-safe.
pub open spec fn location(store: StoreView, name: Seq<char>) -> Result<Seq<char>, CcmErrorView> {
    if safe_in(store, name) {
        Ok(profile_path(store.dir, name))
    } else {
        Err(refused_name(name))
    }
}

/// The outcome of `create`: `AlreadyExists` where the file is there; else
/// refused where the name is not filesystem-safe or the record cannot be
/// written down; else the file to write.
pub open spec fn create_outcome(
    store: StoreView,
    name: Seq<char>,
    exists: bool,
    rendered: Result<Seq<char>, Seq<char>>,
) -> Result<FileWriteView, CcmErrorView> {
    if exists {
        Err(CcmErrorView::AlreadyExists { name })
    } else if !safe_in(store, name) {
        Err(refused_name(name))
    } else {
        match rendered {
            Ok(content) => Ok(
                FileWriteView {
                    path: profile_path(store.dir, name),
                    staging_path: staging_path(store.dir, name),
                    content,
                },
            ),
            Err(diagnostic) => Err(CcmErrorView::SerializationFailed { name, diagnostic }),
        }
    }
}

/// The outcome of `get`: the record that the file holds, or why there is
/// none to hand out.
pub open spec fn get_outcome(store: StoreView, name: Seq<char>, found: FileProbeView) -> Result<
    ProfileView,
    CcmErrorView,
> {
    match found {
        FileProbeView::Absent => Err(CcmErrorView::NotFound { name }),
        FileProbeView::Unreadable(message) => Err(
            CcmErrorView::Io { path: profile_path(store.dir, name), message },
        ),
        FileProbeView::Content(text) => match decoded_text(text) {
            Ok(profile) => Ok(profile),
            Err(diagnostic) => Err(
                CcmErrorView::DeserializationFailed {
                    path: profile_path(store.dir, name),
                    diagnostic,
                },
            ),
        },
    }
}

/// The outcome of `delete`: `NotFound` where no file is there; else the
/// path of the file to remove, and the refusal where the name is not
/// filesystem-safe.
pub open spec fn delete_outcome(store: StoreView, name: Seq<char>, exists: bool) -> Result<
    Seq<char>,
    CcmErrorView,
> {
    if !exists {
        Err(CcmErrorView::NotFound { name })
    } else if !safe_in(store, name) {
        Err(refused_name(name))
    } else {
        Ok(profile_path(store.dir, name))
    }
}

/// A file to write, or the error in its place, as plain values.
pub open spec fn written_view(written: Result<FileWrite, CcmError>) -> Result<
    FileWriteView,
    CcmErrorView,
> {
    match written {
        Ok(write) => Ok(write@),
        Err(error) => Err(error@),
    }
}

/// A record, or the error in its place, as plain values.
pub open spec fn fetched_view(fetched: Result<Profile, CcmError>) -> Result<
    ProfileView,
    CcmErrorView,
> {
    match fetched {
        Ok(profile) => Ok(profile@),
        Err(error) => Err(error@),
    }
}

/// A path, or the error in its place, as plain values.
pub open spec fn removed_view(removed: Result<String, CcmError>) -> Result<
    Seq<char>,
    CcmErrorView,
> {
    match removed {
        Ok(path) => Ok(path@),
        Err(error) => Err(error@),
    }
}

/// The store of the profiles in one directory. It keeps nothing but the
/// paths and what it knows of the host: what is stored is what is on disk.
pub struct ProfileManager {
    paths: CcmPaths,
    backslash_separates: bool,
}

impl View for ProfileManager {
    type V = StoreView;

    closed spec fn view(&self) -> StoreView {
        StoreView {
            dir: self.paths@.profiles_dir,
            backslash_separates: self.backslash_separates,
        }
    }
}

impl ProfileManager {
    /// The store under the per-user configuration directory of this host,
    /// with the separators of this host. Fails as `CcmPaths::new` does, and
    /// with nothing else.
    pub fn new() -> (made: Result<Self, CcmError>)
        ensures
            match made {
                Ok(manager) => exists|base: Seq<char>|
                    manager@.dir == profiles_root(#[trigger] config_root(base)),
                Err(error) => error@ == CcmErrorView::ConfigDirUnavailable || error@
                    == CcmErrorView::Other(NOT_TEXT@),
            },
    {
        match CcmPaths::new() {
            Ok(paths) => {
                let manager = Self::with_paths(paths, host_separates('\\'));
                proof {
                    let base = choose|base: Seq<char>|
                        paths@.config_dir == #[trigger] config_root(base) && paths@.profiles_dir
                            == profiles_root(paths@.config_dir);
                    assert(manager@.dir == profiles_root(config_root(base)));
                }
                Ok(manager)
            },
            Err(error) => Err(error),
        }
    }

    /// The store in the profile directory of `paths`, on a host that takes
    /// `/` for a separator and, where `backslash_separates`, `\` too.
    pub fn with_paths(paths: CcmPaths, backslash_separates: bool) -> (manager: Self)
        ensures
            manager@ == (StoreView { dir: paths@.profiles_dir, backslash_separates }),
    {
        ProfileManager { paths, backslash_separates }
    }

    /// The directory of the profile files.
    pub fn profiles_dir(&self) -> (dir: &String)
        ensures
            dir@ == self@.dir,
    {
        self.paths.profiles_dir()
    }

    /// Whether `name` can be one component of a path on the host of this
    /// store.
    pub fn is_safe(&self, name: &str) -> (safe: bool)
        ensures
            safe == safe_in(self@, name@),
    {
        is_filesystem_safe(name, self.backslash_separates)
    }

    /// The refusal of `name`, which is not filesystem-safe.
    fn refusal(name: &str) -> (error: CcmError)
        ensures
            error@ == refused_name(name@),
    {
        CcmError::InvalidProfileName {
            name: name.to_owned(),
            reason: String::from_str(UNSAFE_NAME),
        }
    }

    /// The path at which the file of the profile `name` is kept, for
    /// whoever looks at it, writes it or removes it; `InvalidProfileName`
    /// for a name that is not filesystem-safe: under such a name nothing is
    /// kept.
    pub fn path_of(&self, name: &str) -> (path: Result<String, CcmError>)
        ensures
            removed_view(path) == location(self@, name@),
    {
        if self.is_safe(name) {
            Ok(self.get_profile_path(name))
        } else {
            Err(Self::refusal(name))
        }
    }

    /// The profile directory, the name and the ending of a profile's file,
    /// joined as text. This is the path of the profile's file for a
    /// filesystem-safe name; for any other name `path_of` hands out none,
    /// and neither `create` nor `delete` asks for a file to be written or
    /// removed.
    pub fn get_profile_path(&self, name: &str) -> (path: String)
        ensures
            path@ == profile_path(self@.dir, name@),
    {
        let file_name = file_name_for(name);
        join(self.paths.profiles_dir().as_str(), file_name.as_str())
    }

    /// Decides the creation of a profile from whether its file `exists`:
    /// `AlreadyExists` where it does; else `InvalidProfileName` where the
    /// name is not filesystem-safe; else the record is written down, and
    /// the outcome is the file to write, or `SerializationFailed`.
    pub fn create(&self, profile: &Profile, exists: bool) -> (written: Result<
        FileWrite,
        CcmError,
    >)
        ensures
            written_view(written) == create_outcome(
                self@,
                profile@.name,
                exists,
                encoded_text(profile@),
            ),
    {
        if exists {
            return Err(CcmError::AlreadyExists { name: profile.name.clone() });
        }
        if !self.is_safe(profile.name.as_str()) {
            return Err(Self::refusal(profile.name.as_str()));
        }
        self.write_of(profile.name.as_str(), encode_profile(profile))
    }

    /// The file to write for the profile `name`, of which no file is there
    /// yet, from what writing the record down gave; `InvalidProfileName`
    /// where the name is not filesystem-safe.
    pub fn write_of(&self, name: &str, rendered: Result<String, String>) -> (written: Result<
        FileWrite,
        CcmError,
    >)
        ensures
            written_view(written) == create_outcome(self@, name@, false, rendered_view(rendered)),
    {
        if !self.is_safe(name) {
            return Err(Self::refusal(name));
        }
        match rendered {
            Ok(content) => {
                let path = self.get_profile_path(name);
                let mut staging_path = path.clone();
                staging_path.append(".tmp");
                Ok(FileWrite { path, staging_path, content })
            },
            Err(diagnostic) => Err(
                CcmError::SerializationFailed { name: name.to_owned(), diagnostic },
            ),
        }
    }

    /// Decides the retrieval of the profile `name` from what was `found` at
    /// the path of its file: `NotFound` where nothing was, the `Io` error of
    /// the path where it could not be read, else the record that the text
    /// stands for, or `DeserializationFailed` with the path and the
    /// diagnostic.
    pub fn get(&self, name: &str, found: FileProbe) -> (fetched: Result<Profile, CcmError>)
        ensures
            fetched_view(fetched) == get_outcome(self@, name@, found@),
            fetched matches Ok(profile) ==> distinct_keys(pairs_view(profile.provider.extra_env@)),
    {
        match found {
            FileProbe::Absent => Err(CcmError::NotFound { name: name.to_owned() }),
            FileProbe::Unreadable(message) => Err(
                CcmError::Io { path: self.get_profile_path(name), message },
            ),
            FileProbe::Content(text) => match decode_profile(text.as_str()) {
                Ok(profile) => Ok(profile),
                Err(diagnostic) => Err(
                    CcmError::DeserializationFailed {
                        path: self.get_profile_path(name),
                        diagnostic,
                    },
                ),
            },
        }
    }

    /// Decides the deletion of the profile `name` from whether its file
    /// `exists`: `NotFound` where it does not; else the path of the file to
    /// remove, and `InvalidProfileName` where the name is not
    /// filesystem-safe.
    pub fn delete(&self, name: &str, exists: bool) -> (removed: Result<String, CcmError>)
        ensures
            removed_view(removed) == delete_outcome(self@, name@, exists),
    {
        if !exists {
            Err(CcmError::NotFound { name: name.to_owned() })
        } else if !self.is_safe(name) {
            Err(Self::refusal(name))
        } else {
            Ok(self.get_profile_path(name))
        }
    }

    /// The names of the stored profiles, from a scan of the directory: each
    /// name once, in ascending order. Only regular files with the name of a
    /// profile's file count. A scan that failed, with its message, gives
    /// the `Io` error of the directory.
    pub fn list(&self, scan: Result<Vec<DirEntry>, String>) -> (names: Result<
        Vec<String>,
        CcmError,
    >)
        ensures
            match scan {
                Ok(entries) => names is Ok && is_listing(
                    strings_view(names->Ok_0@),
                    entries_view(entries@),
                ),
                Err(message) => names is Err && names->Err_0@ == (CcmErrorView::Io {
                    path: self@.dir,
                    message: message@,
                }),
            },
    {
        match scan {
            Ok(entries) => Ok(sorted_names(&entries)),
            Err(message) => Err(
                CcmError::Io { path: self.paths.profiles_dir().clone(), message },
            ),
        }
    }
}

} // verus!
