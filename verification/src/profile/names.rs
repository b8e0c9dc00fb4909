//! How a profile's name and the name of its file determine each other, and
//! how the names are read off a directory.

use crate::text::{
    lemma_precedes_irreflexive, lemma_precedes_transitive, place_of, precedes,
    strictly_ascending, strings_view, Place,
};
use vstd::prelude::*;
use vstd::string::*;

verus! {

/// The ending of a profile's file name.
pub open spec fn extension() -> Seq<char> {
    ".toml"@
}

/// The name of the file that holds the profile `name`.
pub open spec fn profile_file_name(name: Seq<char>) -> Seq<char> {
    name + extension()
}

/// The file name is that of a profile's file.
pub open spec fn is_profile_file(file_name: Seq<char>) -> bool {
    file_name.len() >= extension().len() && file_name.subrange(
        file_name.len() - extension().len(),
        file_name.len() as int,
    ) == extension()
}

/// The name of the profile that a profile's file holds.
pub open spec fn profile_name_of(file_name: Seq<char>) -> Seq<char> {
    file_name.subrange(0, file_name.len() - extension().len())
}

/// The name can be one component of a path, on a host that takes `/` for
/// a separator and, where `backslash_separates`, `\` too: it has no
/// separator in it and no NUL character.
pub open spec fn filesystem_safe(name: Seq<char>, backslash_separates: bool) -> bool {
    forall|i: int|
        0 <= i < name.len() ==> name[i] != '/' && name[i] != '\0' && (backslash_separates
            ==> name[i] != '\\')
}

/// Why a name that is not filesystem-safe is refused.
pub const UNSAFE_NAME: &'static str =
    "a profile name must be one component of a path, without a separator or NUL";

/// A profile's file name is recognised as one, and gives the name back.
pub proof fn lemma_file_name_of_profile(name: Seq<char>)
    ensures
        is_profile_file(profile_file_name(name)),
        profile_name_of(profile_file_name(name)) == name,
{
    let file_name = profile_file_name(name);
    assert(file_name.subrange(file_name.len() - extension().len(), file_name.len() as int)
        =~= extension());
    assert(file_name.subrange(0, file_name.len() - extension().len()) =~= name);
}

/// A file name that is recognised is the file name of the profile it gives.
pub proof fn lemma_profile_of_file_name(file_name: Seq<char>)
    requires
        is_profile_file(file_name),
    ensures
        profile_file_name(profile_name_of(file_name)) == file_name,
{
    assert(profile_name_of(file_name) + file_name.subrange(
        file_name.len() - extension().len(),
        file_name.len() as int,
    ) =~= file_name);
}

/// The name of the file that holds the profile `name`.
pub fn file_name_for(name: &str) -> (file_name: String)
    ensures
        file_name@ == profile_file_name(name@),
{
    let mut file_name = String::from_str(name);
    file_name.append(".toml");
    file_name
}

/// The name of the profile that the file `file_name` holds, and `None`
/// where the file is no profile's.
pub fn profile_name(file_name: &str) -> (name: Option<String>)
    ensures
        match name {
            Some(found) => is_profile_file(file_name@) && found@ == profile_name_of(file_name@),
            None => !is_profile_file(file_name@),
        },
{
    proof {
        reveal_strlit(".toml");
    }
    let len = file_name.unicode_len();
    if len < 5 {
        return None;
    }
    let stem = len - 5;
    if file_name.get_char(stem) == '.' && file_name.get_char(stem + 1) == 't'
        && file_name.get_char(stem + 2) == 'o' && file_name.get_char(stem + 3) == 'm'
        && file_name.get_char(stem + 4) == 'l' {
        assert(file_name@.subrange(stem as int, len as int) =~= extension());
        Some(String::from_str(file_name.substring_char(0, stem)))
    } else {
        assert(!is_profile_file(file_name@)) by {
            let ending = file_name@.subrange(stem as int, len as int);
            assert(ending[0] == file_name@[stem as int]);
            assert(ending[1] == file_name@[stem + 1]);
            assert(ending[2] == file_name@[stem + 2]);
            assert(ending[3] == file_name@[stem + 3]);
            assert(ending[4] == file_name@[stem + 4]);
        }
        None
    }
}

/// Whether the name can be one component of a path, on a host that takes
/// `/` for a separator and, where `backslash_separates`, `\` too.
pub fn is_filesystem_safe(name: &str, backslash_separates: bool) -> (safe: bool)
    ensures
        safe == filesystem_safe(name@, backslash_separates),
{
    let len = name.unicode_len();
    let mut i: usize = 0;
    while i < len
        invariant
            len == name@.len(),
            i <= len,
            forall|k: int|
                0 <= k < i ==> name@[k] != '/' && name@[k] != '\0' && (backslash_separates
                    ==> name@[k] != '\\'),
        decreases len - i,
    {
        let c = name.get_char(i);
        if c == '/' || c == '\0' || (backslash_separates && c == '\\') {
            return false;
        }
        i += 1;
    }
    true
}

/// One entry of a directory, as far as the store looks at it.
#[derive(Debug, Clone)]
pub struct DirEntry {
    /// The name of the entry; `None` where the name is not Unicode text.
    pub file_name: Option<String>,
    /// Whether the entry is a regular file.
    pub is_file: bool,
}

pub struct DirEntryView {
    pub file_name: Option<Seq<char>>,
    pub is_file: bool,
}

impl View for DirEntry {
    type V = DirEntryView;

    open spec fn view(&self) -> DirEntryView {
        DirEntryView {
            file_name: match self.file_name {
                Some(file_name) => Some(file_name@),
                None => None,
            },
            is_file: self.is_file,
        }
    }
}

/// The entries, each as plain values.
pub open spec fn entries_view(entries: Seq<DirEntry>) -> Seq<DirEntryView> {
    entries.map_values(|entry: DirEntry| entry@)
}

/// The entry is the file of the profile `name`: a regular file with the
/// file name of that profile.
pub open spec fn entry_holds(entry: DirEntryView, name: Seq<char>) -> bool {
    entry.is_file && entry.file_name == Some(profile_file_name(name))
}

/// One of the entries is the file of the profile `name`.
pub open spec fn listed(entries: Seq<DirEntryView>, name: Seq<char>) -> bool {
    exists|i: int| 0 <= i < entries.len() && entry_holds(#[trigger] entries[i], name)
}

/// `names` is the listing of the directory: the names of the profiles whose
/// files are among the entries, each once, in ascending order.
pub open spec fn is_listing(names: Seq<Seq<char>>, entries: Seq<DirEntryView>) -> bool {
    &&& strictly_ascending(names)
    &&& forall|name: Seq<char>| names.contains(name) <==> listed(entries, name)
}

/// A directory has one listing only: two ascending sequences of the same
/// names are the same sequence.
pub proof fn law_listing_is_unique(a: Seq<Seq<char>>, b: Seq<Seq<char>>)
    requires
        strictly_ascending(a),
        strictly_ascending(b),
        forall|name: Seq<char>| a.contains(name) <==> b.contains(name),
    ensures
        a == b,
    decreases a.len(),
{
    if a.len() == 0 {
        if b.len() > 0 {
            assert(b.contains(b[0]));
        }
        assert(a =~= b);
    } else {
        assert(a.contains(a[0]));
        assert(b.contains(a[0]));
        let j = choose|j: int| 0 <= j < b.len() && b[j] == a[0];
        assert(b.contains(b[0]));
        assert(a.contains(b[0]));
        let i = choose|i: int| 0 <= i < a.len() && a[i] == b[0];
        if j > 0 {
            assert(precedes(b[0], b[j]));
            if i > 0 {
                assert(precedes(a[0], a[i]));
                lemma_precedes_transitive(a[0], b[0], a[0]);
            }
            lemma_precedes_irreflexive(a[0]);
        }
        assert(a[0] == b[0]);
        let a_rest = a.drop_first();
        let b_rest = b.drop_first();
        assert forall|name: Seq<char>| a_rest.contains(name) <==> b_rest.contains(name) by {
            lemma_precedes_irreflexive(name);
            if a_rest.contains(name) {
                let k = choose|k: int| 0 <= k < a_rest.len() && a_rest[k] == name;
                assert(a[k + 1] == name);
                assert(precedes(a[0], a[k + 1]));
                assert(a.contains(name));
                let l = choose|l: int| 0 <= l < b.len() && b[l] == name;
                assert(l > 0);
                assert(b_rest[l - 1] == name);
            }
            if b_rest.contains(name) {
                let k = choose|k: int| 0 <= k < b_rest.len() && b_rest[k] == name;
                assert(b[k + 1] == name);
                assert(precedes(b[0], b[k + 1]));
                assert(b.contains(name));
                let l = choose|l: int| 0 <= l < a.len() && a[l] == name;
                assert(l > 0);
                assert(a_rest[l - 1] == name);
            }
        }
        assert(strictly_ascending(a_rest)) by {
            assert forall|x: int, y: int| 0 <= x < y < a_rest.len() implies precedes(
                a_rest[x],
                a_rest[y],
            ) by {
                assert(precedes(a[x + 1], a[y + 1]));
            }
        }
        assert(strictly_ascending(b_rest)) by {
            assert forall|x: int, y: int| 0 <= x < y < b_rest.len() implies precedes(
                b_rest[x],
                b_rest[y],
            ) by {
                assert(precedes(b[x + 1], b[y + 1]));
            }
        }
        law_listing_is_unique(a_rest, b_rest);
        assert(a =~= seq![a[0]] + a_rest);
        assert(b =~= seq![b[0]] + b_rest);
    }
}

/// Puts `name` at its place among the ascending `names`, unless it is there.
fn insert_sorted(names: &mut Vec<String>, name: String)
    requires
        strictly_ascending(strings_view(old(names)@)),
    ensures
        strictly_ascending(strings_view(final(names)@)),
        forall|other: Seq<char>|
            strings_view(final(names)@).contains(other) <==> (strings_view(old(names)@).contains(
                other,
            ) || other == name@),
{
    let ghost before = strings_view(names@);
    let mut i: usize = 0;
    while i < names.len()
        invariant
            i <= names.len(),
            strings_view(names@) == before,
            before == strings_view(old(names)@),
            strictly_ascending(before),
            forall|k: int| 0 <= k < i ==> precedes(#[trigger] before[k], name@),
        decreases names.len() - i,
    {
        match place_of(names[i].as_str(), name.as_str()) {
            Place::Before => {
                i += 1;
            },
            Place::Same => {
                assert(before[i as int] == names[i as int]@);
                assert(before[i as int] == name@);
                assert(before.contains(name@));
                return ;
            },
            Place::After => {
                names.insert(i, name);
                proof {
                    lemma_inserted(before, strings_view(names@), i as int, name@);
                }
                return ;
            },
        }
    }
    names.push(name);
    proof {
        lemma_inserted(before, strings_view(names@), i as int, name@);
    }
}

/// Putting a text between those that come before it and those that come
/// after it keeps the order, and adds this one text.
proof fn lemma_inserted(before: Seq<Seq<char>>, after: Seq<Seq<char>>, at: int, text: Seq<char>)
    requires
        0 <= at <= before.len(),
        after.len() == before.len() + 1,
        forall|k: int| 0 <= k < at ==> after[k] == before[k],
        after[at] == text,
        forall|k: int| at < k < after.len() ==> after[k] == before[k - 1],
        strictly_ascending(before),
        forall|k: int| 0 <= k < at ==> precedes(#[trigger] before[k], text),
        at < before.len() ==> precedes(text, before[at]),
    ensures
        strictly_ascending(after),
        forall|other: Seq<char>|
            after.contains(other) <==> (before.contains(other) || other == text),
{
    assert forall|i: int, j: int| 0 <= i < j < after.len() implies precedes(
        after[i],
        after[j],
    ) by {
        if i == at {
            if j - 1 > at {
                lemma_precedes_transitive(text, before[at], before[j - 1]);
            }
        } else if j == at {
            assert(precedes(before[i], text));
        } else if i < at {
            if j > at {
                assert(precedes(before[i], before[j - 1]));
            }
        } else {
            assert(precedes(before[i - 1], before[j - 1]));
        }
    }
    assert forall|other: Seq<char>| after.contains(other) implies (before.contains(other) || other
        == text) by {
        let k = choose|k: int| 0 <= k < after.len() && after[k] == other;
        if k < at {
            assert(before[k] == other);
        } else if k > at {
            assert(before[k - 1] == other);
        }
    }
    assert forall|other: Seq<char>| (before.contains(other) || other == text) implies after.contains(
        other,
    ) by {
        if other == text {
            assert(after[at] == other);
        } else {
            let k = choose|k: int| 0 <= k < before.len() && before[k] == other;
            if k < at {
                assert(after[k] == other);
            } else {
                assert(after[k + 1] == other);
            }
        }
    }
}

/// The listing of a directory with these entries.
pub fn sorted_names(entries: &Vec<DirEntry>) -> (names: Vec<String>)
    ensures
        is_listing(strings_view(names@), entries_view(entries@)),
{
    let mut names: Vec<String> = Vec::new();
    let mut i: usize = 0;
    while i < entries.len()
        invariant
            i <= entries.len(),
            is_listing(strings_view(names@), entries_view(entries@).take(i as int)),
        decreases entries.len() - i,
    {
        let ghost seen = entries_view(entries@).take(i as int);
        let ghost next = entries_view(entries@).take(i + 1);
        let ghost held = strings_view(names@);
        let entry = &entries[i];
        assert(next[i as int] == entry@);
        assert(forall|k: int| 0 <= k < i ==> next[k] == seen[k]);
        let found: Option<String> = if entry.is_file {
            match &entry.file_name {
                Some(file_name) => profile_name(file_name.as_str()),
                None => None,
            }
        } else {
            None
        };
        match found {
            Some(name) => {
                let ghost added = name@;
                proof {
                    lemma_profile_of_file_name(entry@.file_name->Some_0);
                    assert(entry_holds(entry@, added));
                }
                insert_sorted(&mut names, name);
                proof {
                    let now = strings_view(names@);
                    assert forall|other: Seq<char>| now.contains(other) <==> listed(
                        next,
                        other,
                    ) by {
                        if listed(next, other) {
                            let k = choose|k: int|
                                0 <= k < next.len() && entry_holds(#[trigger] next[k], other);
                            if k < i {
                                assert(entry_holds(seen[k], other));
                                assert(listed(seen, other));
                            } else {
                                lemma_file_name_of_profile(other);
                                lemma_file_name_of_profile(added);
                            }
                        }
                        if held.contains(other) {
                            assert(listed(seen, other));
                            let k = choose|k: int|
                                0 <= k < seen.len() && entry_holds(#[trigger] seen[k], other);
                            assert(entry_holds(next[k], other));
                        }
                        if other == added {
                            assert(entry_holds(next[i as int], other));
                        }
                    }
                }
            },
            None => {
                proof {
                    assert forall|other: Seq<char>| held.contains(other) <==> listed(
                        next,
                        other,
                    ) by {
                        if listed(next, other) {
                            let k = choose|k: int|
                                0 <= k < next.len() && entry_holds(#[trigger] next[k], other);
                            if k < i {
                                assert(entry_holds(seen[k], other));
                                assert(listed(seen, other));
                            } else {
                                lemma_file_name_of_profile(other);
                            }
                        }
                        if held.contains(other) {
                            assert(listed(seen, other));
                            let k = choose|k: int|
                                0 <= k < seen.len() && entry_holds(#[trigger] seen[k], other);
                            assert(entry_holds(next[k], other));
                        }
                    }
                }
            },
        }
        i += 1;
    }
    assert(entries_view(entries@).take(entries.len() as int) =~= entries_view(entries@));
    names
}

} // verus!
