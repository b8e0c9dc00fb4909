//! The store seen as the files on disk: what the operations of the manager,
//! carried out one after the other, make of them. Nobody goes to the disk
//! for a name that is not filesystem-safe: under such a name nothing is
//! looked at, so nothing is found.

use crate::document::{toml_document, Node};
use crate::error::CcmErrorView;
use crate::paths::{dir_prefix, joined};
use crate::profile::codec::{decoded_text, encoded_text, law_document_round_trip, profile_nodes};
use crate::profile::manager::{
    create_outcome, delete_outcome, get_outcome, location, profile_path, refused_name, safe_in,
    FileProbeView, FileWriteView, StoreView,
};
use crate::profile::model::ProfileView;
use crate::profile::names::{
    entry_holds, extension, filesystem_safe, is_profile_file, listed, profile_file_name,
    DirEntryView,
};
use vstd::prelude::*;

verus! {

/// The regular files on disk: the text of each, by its path.
pub type Files = Map<Seq<char>, Seq<char>>;

/// A file is kept for the profile `name`: the name is filesystem-safe, and
/// a file is at its path.
pub open spec fn stored(files: Files, store: StoreView, name: Seq<char>) -> bool {
    safe_in(store, name) && files.dom().contains(profile_path(store.dir, name))
}

/// What is found for the profile `name`.
pub open spec fn probe(files: Files, store: StoreView, name: Seq<char>) -> FileProbeView {
    if stored(files, store, name) {
        FileProbeView::Content(files[profile_path(store.dir, name)])
    } else {
        FileProbeView::Absent
    }
}

/// What `create` decides on these files.
pub open spec fn create_in(files: Files, store: StoreView, profile: ProfileView) -> Result<
    FileWriteView,
    CcmErrorView,
> {
    create_outcome(store, profile.name, stored(files, store, profile.name), encoded_text(profile))
}

/// The files after `create` and the write that it asked for.
pub open spec fn after_create(files: Files, store: StoreView, profile: ProfileView) -> Files {
    match create_in(files, store, profile) {
        Ok(write) => files.insert(write.path, write.content),
        Err(_) => files,
    }
}

/// What `get` decides on these files.
pub open spec fn get_in(files: Files, store: StoreView, name: Seq<char>) -> Result<
    ProfileView,
    CcmErrorView,
> {
    get_outcome(store, name, probe(files, store, name))
}

/// What `delete` decides on these files.
pub open spec fn delete_in(files: Files, store: StoreView, name: Seq<char>) -> Result<
    Seq<char>,
    CcmErrorView,
> {
    delete_outcome(store, name, stored(files, store, name))
}

/// The files after `delete` and the removal that it asked for.
pub open spec fn after_delete(files: Files, store: StoreView, name: Seq<char>) -> Files {
    match delete_in(files, store, name) {
        Ok(path) => files.remove(path),
        Err(_) => files,
    }
}

/// Among the entries is a regular file of this name.
pub open spec fn has_file(entries: Seq<DirEntryView>, file_name: Seq<char>) -> bool {
    exists|i: int|
        0 <= i < entries.len() && (#[trigger] entries[i]).is_file && entries[i].file_name == Some(
            file_name,
        )
}

/// The entries are a scan of the directory of the store: each has a name
/// of one component, and a regular file of some name is among them exactly
/// when the files hold one at that name in the directory.
pub open spec fn is_scan(entries: Seq<DirEntryView>, files: Files, store: StoreView) -> bool {
    &&& forall|i: int|
        0 <= i < entries.len() && (#[trigger] entries[i]).file_name is Some ==> safe_in(
            store,
            entries[i].file_name->Some_0,
        )
    &&& forall|file_name: Seq<char>| #[trigger]
        safe_in(store, file_name) ==> (has_file(entries, file_name) <==> files.dom().contains(
            joined(store.dir, file_name),
        ))
}

/// Two profiles never share a file: the path determines the name.
pub proof fn law_path_determines_name(dir: Seq<char>, a: Seq<char>, b: Seq<char>)
    requires
        profile_path(dir, a) == profile_path(dir, b),
    ensures
        a == b,
{
    let before = dir_prefix(dir).len();
    let p = profile_path(dir, a);
    let q = profile_path(dir, b);
    assert(p.len() == before + a.len() + extension().len());
    assert(q.len() == before + b.len() + extension().len());
    assert forall|i: int| 0 <= i < a.len() implies a[i] == b[i] by {
        assert(p[before + i] == a[i]);
        assert(q[before + i] == b[i]);
    }
    assert(a =~= b);
}

/// The file name of a profile is filesystem-safe exactly when its name is.
pub proof fn lemma_safe_file_name(name: Seq<char>, backslash_separates: bool)
    ensures
        filesystem_safe(profile_file_name(name), backslash_separates) <==> filesystem_safe(
            name,
            backslash_separates,
        ),
{
    reveal_strlit(".toml");
    let file_name = profile_file_name(name);
    if filesystem_safe(name, backslash_separates) {
        assert forall|i: int| 0 <= i < file_name.len() implies file_name[i] != '/' && file_name[i]
            != '\0' && (backslash_separates ==> file_name[i] != '\\') by {
            if i < name.len() {
                assert(file_name[i] == name[i]);
            } else {
                assert(file_name[i] == extension()[i - name.len()]);
            }
        }
    }
    if filesystem_safe(file_name, backslash_separates) {
        assert forall|i: int| 0 <= i < name.len() implies name[i] != '/' && name[i] != '\0' && (
        backslash_separates ==> name[i] != '\\') by {
            assert(file_name[i] == name[i]);
        }
    }
}

/// After a profile was created, `get` under its name reads the text that
/// `create` wrote, from the path it was written to; and where TOML reads
/// that text as the document it was made from, `get` hands out the record,
/// equal in every field.
pub proof fn law_created_profile_is_read_back(
    files: Files,
    store: StoreView,
    profile: ProfileView,
)
    requires
        create_in(files, store, profile) is Ok,
    ensures
        encoded_text(profile) is Ok,
        get_in(after_create(files, store, profile), store, profile.name) == get_outcome(
            store,
            profile.name,
            FileProbeView::Content(encoded_text(profile)->Ok_0),
        ),
        toml_document(encoded_text(profile)->Ok_0) == Ok::<Map<Seq<char>, Node>, Seq<char>>(
            profile_nodes(profile),
        ) ==> get_in(after_create(files, store, profile), store, profile.name) == Ok::<
            ProfileView,
            CcmErrorView,
        >(profile),
{
    law_document_round_trip(profile);
}

/// A second `create` under a name that was just created is refused with
/// `AlreadyExists`, and leaves the files as the first one made them.
pub proof fn law_second_create_is_refused(
    files: Files,
    store: StoreView,
    first: ProfileView,
    second: ProfileView,
)
    requires
        first.name == second.name,
        create_in(files, store, first) is Ok,
    ensures
        ({
            let kept = after_create(files, store, first);
            &&& create_in(kept, store, second) == Err::<FileWriteView, CcmErrorView>(
                CcmErrorView::AlreadyExists { name: second.name },
            )
            &&& after_create(kept, store, second) == kept
            &&& kept[profile_path(store.dir, first.name)] == encoded_text(first)->Ok_0
        }),
{
}

/// Under a name that is not filesystem-safe nothing is written and nothing
/// is removed: no path is handed out for it, `create` with no file there
/// and `delete` with a file there refuse it with `InvalidProfileName`; and
/// as nobody looks for its file, nothing is found, so that `get` and
/// `delete` answer `NotFound` and the files stay as they are.
pub proof fn law_unsafe_name_touches_nothing(
    files: Files,
    store: StoreView,
    profile: ProfileView,
    rendered: Result<Seq<char>, Seq<char>>,
)
    requires
        !safe_in(store, profile.name),
    ensures
        location(store, profile.name) is Err,
        create_outcome(store, profile.name, false, rendered) == Err::<
            FileWriteView,
            CcmErrorView,
        >(refused_name(profile.name)),
        delete_outcome(store, profile.name, true) == Err::<Seq<char>, CcmErrorView>(
            refused_name(profile.name),
        ),
        get_in(files, store, profile.name) == Err::<ProfileView, CcmErrorView>(
            CcmErrorView::NotFound { name: profile.name },
        ),
        delete_in(files, store, profile.name) == Err::<Seq<char>, CcmErrorView>(
            CcmErrorView::NotFound { name: profile.name },
        ),
        after_create(files, store, profile) == files,
        after_delete(files, store, profile.name) == files,
{
}

/// Every file that `create` asks to be written, and every file that
/// `delete` asks to be removed, lies in the profile directory itself: its
/// path is that of one further component in the directory. So does the
/// file that `create` writes first, before it moves it to its place.
pub proof fn law_store_stays_in_directory(
    store: StoreView,
    name: Seq<char>,
    exists: bool,
    rendered: Result<Seq<char>, Seq<char>>,
)
    ensures
        create_outcome(store, name, exists, rendered) matches Ok(write) ==> safe_in(
            store,
            profile_file_name(name),
        ) && write.path == joined(store.dir, profile_file_name(name)) && safe_in(
            store,
            profile_file_name(name) + ".tmp"@,
        ) && write.staging_path == joined(store.dir, profile_file_name(name) + ".tmp"@),
        delete_outcome(store, name, exists) matches Ok(path) ==> safe_in(
            store,
            profile_file_name(name),
        ) && path == joined(store.dir, profile_file_name(name)),
{
    if safe_in(store, name) {
        lemma_safe_file_name(name, store.backslash_separates);
        reveal_strlit(".tmp");
        let file_name = profile_file_name(name);
        let staged = file_name + ".tmp"@;
        assert forall|i: int| 0 <= i < staged.len() implies staged[i] != '/' && staged[i] != '\0'
            && (store.backslash_separates ==> staged[i] != '\\') by {
            if i < file_name.len() {
                assert(staged[i] == file_name[i]);
            } else {
                assert(staged[i] == ".tmp"@[i - file_name.len()]);
            }
        }
        assert(joined(store.dir, file_name) + ".tmp"@ =~= joined(store.dir, staged));
    }
}

/// Where no file is kept for a name, `get` and `delete` both fail with
/// `NotFound`, and nothing changes.
pub proof fn law_absent_profile_is_not_found(files: Files, store: StoreView, name: Seq<char>)
    requires
        !stored(files, store, name),
    ensures
        get_in(files, store, name) == Err::<ProfileView, CcmErrorView>(
            CcmErrorView::NotFound { name },
        ),
        delete_in(files, store, name) == Err::<Seq<char>, CcmErrorView>(
            CcmErrorView::NotFound { name },
        ),
        after_delete(files, store, name) == files,
{
}

/// After a profile was deleted, `get` under its name fails with `NotFound`,
/// and every other profile is read as before.
pub proof fn law_deleted_profile_is_gone(
    files: Files,
    store: StoreView,
    name: Seq<char>,
    other: Seq<char>,
)
    requires
        stored(files, store, name),
    ensures
        get_in(after_delete(files, store, name), store, name) == Err::<ProfileView, CcmErrorView>(
            CcmErrorView::NotFound { name },
        ),
        other != name ==> get_in(after_delete(files, store, name), store, other) == get_in(
            files,
            store,
            other,
        ),
{
    if other != name {
        if profile_path(store.dir, other) == profile_path(store.dir, name) {
            law_path_determines_name(store.dir, other, name);
        }
    }
}

/// The file that `create` writes before it moves it to its place is no
/// profile's file: no listing shows it.
pub proof fn law_staging_file_is_not_listed(name: Seq<char>)
    ensures
        !is_profile_file(profile_file_name(name) + ".tmp"@),
{
    reveal_strlit(".toml");
    reveal_strlit(".tmp");
    let staged = profile_file_name(name) + ".tmp"@;
    let ending = staged.subrange(staged.len() - extension().len(), staged.len() as int);
    if ending == extension() {
        assert(ending[4] == staged[staged.len() - 1]);
        assert(staged[staged.len() - 1] == ".tmp"@[3]);
        assert(extension()[4] == 'l');
    }
}

/// A scan lists a name exactly when a file is kept for it: what is listed
/// is what `get` finds, whatever the files hold.
pub proof fn law_listing_matches_store(
    entries: Seq<DirEntryView>,
    files: Files,
    store: StoreView,
    name: Seq<char>,
)
    requires
        is_scan(entries, files, store),
    ensures
        listed(entries, name) <==> stored(files, store, name),
{
    lemma_safe_file_name(name, store.backslash_separates);
    let file_name = profile_file_name(name);
    if listed(entries, name) {
        let i = choose|i: int| 0 <= i < entries.len() && entry_holds(#[trigger] entries[i], name);
        assert(entries[i].is_file && entries[i].file_name == Some(file_name));
        assert(safe_in(store, file_name));
        assert(has_file(entries, file_name));
    }
    if stored(files, store, name) {
        assert(safe_in(store, file_name));
        assert(has_file(entries, file_name));
        let i = choose|i: int|
            0 <= i < entries.len() && (#[trigger] entries[i]).is_file && entries[i].file_name
                == Some(file_name);
        assert(entry_holds(entries[i], name));
    }
}

/// A profile that was created is listed by every scan that is made
/// afterwards.
pub proof fn law_created_profile_is_listed(
    entries: Seq<DirEntryView>,
    files: Files,
    store: StoreView,
    profile: ProfileView,
)
    requires
        create_in(files, store, profile) is Ok,
        is_scan(entries, after_create(files, store, profile), store),
    ensures
        listed(entries, profile.name),
{
    law_listing_matches_store(entries, after_create(files, store, profile), store, profile.name);
}

/// A file that is no profile record spoils one name only: `get` under that
/// name fails with `DeserializationFailed`, carrying the path and the
/// diagnostic; a scan still lists the name; and every other profile is read
/// as if the file held anything else.
pub proof fn law_corrupt_file_is_isolated(
    entries: Seq<DirEntryView>,
    files: Files,
    store: StoreView,
    name: Seq<char>,
    other: Seq<char>,
    replaced: Seq<char>,
)
    requires
        stored(files, store, name),
        decoded_text(files[profile_path(store.dir, name)]) is Err,
        is_scan(entries, files, store),
    ensures
        get_in(files, store, name) == Err::<ProfileView, CcmErrorView>(
            CcmErrorView::DeserializationFailed {
                path: profile_path(store.dir, name),
                diagnostic: decoded_text(files[profile_path(store.dir, name)])->Err_0,
            },
        ),
        listed(entries, name),
        other != name ==> get_in(
            files.insert(profile_path(store.dir, name), replaced),
            store,
            other,
        ) == get_in(files, store, other),
{
    law_listing_matches_store(entries, files, store, name);
    if other != name {
        if profile_path(store.dir, other) == profile_path(store.dir, name) {
            law_path_determines_name(store.dir, other, name);
        }
    }
}

} // verus!
