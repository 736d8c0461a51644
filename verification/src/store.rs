//! The working directory, where installed copies live side by side: which of them are
//! outdated, and which can stand in when the release index cannot be reached.

use crate::text::starts_with;
use vstd::prelude::*;
use vstd::string::*;

verus! {

/// An immediate child of the working directory.
#[derive(Clone, Debug, PartialEq, Eq)]
pub struct DirEntry {
    /// The name of the entry, or `None` where it is not valid Unicode.
    pub name: Option<String>,
    /// Whether the entry holds a regular file at the path that was asked about.
    pub holds_binary: bool,
}

/// What a [`DirEntry`] holds, as plain values.
pub struct DirEntryView {
    pub name: Option<Seq<char>>,
    pub holds_binary: bool,
}

impl View for DirEntry {
    type V = DirEntryView;

    open spec fn view(&self) -> DirEntryView {
        DirEntryView {
            name: match self.name {
                Some(name) => Some(name@),
                None => None,
            },
            holds_binary: self.holds_binary,
        }
    }
}

/// The views of a list of entries, in order.
pub open spec fn entry_views(entries: Seq<DirEntry>) -> Seq<DirEntryView> {
    Seq::new(entries.len(), |i: int| entries[i]@)
}

impl DirEntryView {
    /// Whether the entry belongs to the tool: its name begins with the tool's id.
    pub open spec fn belongs_to(self, id: Seq<char>) -> bool {
        self.name matches Some(name) && id.is_prefix_of(name)
    }

    /// The name under which the entry is removed when `keep` is the directory in use:
    /// its own, if it belongs to the tool and is not `keep`.
    pub open spec fn outdated_name(self, id: Seq<char>, keep: Seq<char>) -> Option<Seq<char>> {
        if self.belongs_to(id) && self.name != Some(keep) {
            self.name
        } else {
            None
        }
    }

    /// Whether the entry is an installed copy of the tool that can be started.
    pub open spec fn is_installed(self, id: Seq<char>) -> bool {
        self.belongs_to(id) && self.holds_binary
    }
}

/// The names to remove once `keep` is installed: those of the entries that belong to the tool,
/// except `keep`, in the order of the listing.
pub open spec fn outdated(entries: Seq<DirEntryView>, id: Seq<char>, keep: Seq<char>) -> Seq<
    Seq<char>,
> {
    entries.filter_map(|entry: DirEntryView| entry.outdated_name(id, keep))
}

/// The position of the first installed copy of the tool at or after `from`.
pub open spec fn installed_from(entries: Seq<DirEntryView>, id: Seq<char>, from: int) -> Option<
    int,
>
    decreases entries.len() - from,
{
    if from < 0 || from >= entries.len() {
        None
    } else if entries[from].is_installed(id) {
        Some(from)
    } else {
        installed_from(entries, id, from + 1)
    }
}

/// The path of the file `binary_name` in the entry called `name`.
pub open spec fn local_path(name: Seq<char>, binary_name: Seq<char>) -> Seq<char> {
    "./"@ + name + "/"@ + binary_name
}

/// The executable of the first installed copy of the tool in the listing, if there is one.
pub open spec fn existing_binary(
    entries: Seq<DirEntryView>,
    id: Seq<char>,
    binary_name: Seq<char>,
) -> Option<Seq<char>> {
    match installed_from(entries, id, 0) {
        Some(i) => Some(local_path(entries[i].name->0, binary_name)),
        None => None,
    }
}

/// What survives of a listing once the entries called `removed` are gone.
pub open spec fn survivors(entries: Seq<DirEntryView>, removed: Seq<Seq<char>>) -> Seq<
    DirEntryView,
> {
    entries.filter(
        |entry: DirEntryView| !(entry.name matches Some(name) && removed.contains(name)),
    )
}

/// What `installed_from` finds: the first installed copy at or after `from`, and nothing
/// exactly when there is none.
pub proof fn lemma_installed_from(entries: Seq<DirEntryView>, id: Seq<char>, from: int)
    requires
        0 <= from,
    ensures
        match installed_from(entries, id, from) {
            Some(i) => {
                &&& from <= i < entries.len()
                &&& entries[i].is_installed(id)
                &&& forall|j: int| from <= j < i ==> !(#[trigger] entries[j]).is_installed(id)
            },
            None => forall|j: int|
                from <= j < entries.len() ==> !(#[trigger] entries[j]).is_installed(id),
        },
    decreases entries.len() - from,
{
    if from < entries.len() && !entries[from].is_installed(id) {
        lemma_installed_from(entries, id, from + 1);
    }
}

/// A name is removed exactly when an entry of the tool other than `keep` bears it.
pub proof fn lemma_outdated(entries: Seq<DirEntryView>, id: Seq<char>, keep: Seq<char>)
    ensures
        forall|name: Seq<char>| #[trigger]
            outdated(entries, id, keep).contains(name) <==> (exists|i: int|
                0 <= i < entries.len() && (#[trigger] entries[i]).outdated_name(id, keep) == Some(
                    name,
                )),
    decreases entries.len(),
{
    let f = |entry: DirEntryView| entry.outdated_name(id, keep);
    if entries.len() > 0 {
        let rest = entries.drop_last();
        let last = entries.last();
        lemma_outdated(rest, id, keep);
        let tail = match f(last) {
            Some(name) => seq![name],
            None => Seq::<Seq<char>>::empty(),
        };
        assert(outdated(entries, id, keep) == outdated(rest, id, keep) + tail);
        assert forall|name: Seq<char>| #[trigger]
            outdated(entries, id, keep).contains(name) <==> (exists|i: int|
                0 <= i < entries.len() && (#[trigger] entries[i]).outdated_name(id, keep) == Some(
                    name,
                )) by {
            if outdated(entries, id, keep).contains(name) {
                let k = choose|k: int|
                    0 <= k < outdated(entries, id, keep).len() && outdated(entries, id, keep)[k]
                        == name;
                if k < outdated(rest, id, keep).len() {
                    assert(outdated(rest, id, keep)[k] == name);
                    assert(outdated(rest, id, keep).contains(name));
                    let i = choose|i: int|
                        0 <= i < rest.len() && (#[trigger] rest[i]).outdated_name(id, keep)
                            == Some(name);
                    assert(entries[i] == rest[i]);
                } else {
                    assert(entries[entries.len() - 1].outdated_name(id, keep) == Some(name));
                }
            }
            if exists|i: int|
                0 <= i < entries.len() && (#[trigger] entries[i]).outdated_name(id, keep) == Some(
                    name,
                ) {
                let i = choose|i: int|
                    0 <= i < entries.len() && (#[trigger] entries[i]).outdated_name(id, keep)
                        == Some(name);
                if i < rest.len() {
                    assert(rest[i] == entries[i]);
                    assert(outdated(rest, id, keep).contains(name));
                    let k = choose|k: int|
                        0 <= k < outdated(rest, id, keep).len() && outdated(rest, id, keep)[k]
                            == name;
                    assert(outdated(entries, id, keep)[k] == name);
                } else {
                    assert(outdated(entries, id, keep)[outdated(rest, id, keep).len() as int]
                        == name);
                }
            }
        }
    }
}

/// Garbage collection leaves the tool exactly one installed directory. Of a listing that holds
/// `keep`, the entries that survive the removal of the outdated names and belong to the tool
/// are those called `keep`; `keep` itself is never removed, and neither is an entry of
/// another tool or one without a Unicode name.
pub proof fn lemma_collect_leaves_one(entries: Seq<DirEntryView>, id: Seq<char>, keep: Seq<char>)
    ensures
        !outdated(entries, id, keep).contains(keep),
        forall|i: int|
            0 <= i < entries.len() && !(#[trigger] entries[i]).belongs_to(id) ==> survivors(
                entries,
                outdated(entries, id, keep),
            ).contains(entries[i]),
        forall|i: int|
            0 <= i < entries.len() && (#[trigger] entries[i]).name == Some(keep) ==> survivors(
                entries,
                outdated(entries, id, keep),
            ).contains(entries[i]),
        forall|entry: DirEntryView| #[trigger]
            survivors(entries, outdated(entries, id, keep)).contains(entry) && entry.belongs_to(id)
                ==> entry.name == Some(keep),
{
    broadcast use {Seq::lemma_filter_contains, Seq::lemma_filter_contains_rev};

    let removed = outdated(entries, id, keep);
    let stays = |entry: DirEntryView| !(entry.name matches Some(name) && removed.contains(name));
    lemma_outdated(entries, id, keep);
    assert forall|i: int| 0 <= i < entries.len() && !(#[trigger] entries[i]).belongs_to(id)
        implies survivors(entries, removed).contains(entries[i]) by {
        if entries[i].name is Some {
            let name = entries[i].name->0;
            if removed.contains(name) {
                let k = choose|k: int|
                    0 <= k < entries.len() && (#[trigger] entries[k]).outdated_name(id, keep)
                        == Some(name);
                assert(entries[k].belongs_to(id));
            }
        }
        assert(stays(entries[i]));
        assert(entries.contains(entries[i]));
    }
    assert forall|i: int| 0 <= i < entries.len() && (#[trigger] entries[i]).name == Some(keep)
        implies survivors(entries, removed).contains(entries[i]) by {
        assert(stays(entries[i]));
        assert(entries.contains(entries[i]));
    }
    assert forall|entry: DirEntryView| #[trigger]
        survivors(entries, removed).contains(entry) && entry.belongs_to(id) implies entry.name
        == Some(keep) by {
        assert(entries.contains(entry) && stays(entry));
        if entry.name != Some(keep) {
            let i = choose|i: int| 0 <= i < entries.len() && entries[i] == entry;
            assert(entries[i].outdated_name(id, keep) == Some(entry.name->0));
            assert(removed.contains(entry.name->0));
        }
    }
}

/// The names to remove once `keep` is installed: every entry of the working directory whose
/// name begins with the tool's id and is not `keep`.
pub fn outdated_versions(entries: &Vec<DirEntry>, id: &str, keep: &String) -> (names: Vec<String>)
    ensures
        crate::text::texts(names@) == outdated(entry_views(entries@), id@, keep@),
{
    let ghost f = |entry: DirEntryView| entry.outdated_name(id@, keep@);
    let mut names: Vec<String> = Vec::new();
    let mut i: usize = 0;
    while i < entries.len()
        invariant
            i <= entries.len(),
            f == |entry: DirEntryView| entry.outdated_name(id@, keep@),
            crate::text::texts(names@) == entry_views(entries@).take(i as int).filter_map(f),
        decreases entries.len() - i,
    {
        proof {
            entry_views(entries@).lemma_filter_map_take_succ(f, i as int);
        }
        let ghost before = crate::text::texts(names@);
        match &entries[i].name {
            Some(name) => {
                if starts_with(name.as_str(), id) && !(*name == *keep) {
                    names.push(name.clone());
                    assert(crate::text::texts(names@) == before + seq![name@]);
                }
            },
            None => {},
        }
        i += 1;
    }
    assert(entry_views(entries@).take(entries.len() as int) == entry_views(entries@));
    names
}

/// The executable of an installed copy of the tool, as the first entry that belongs to the
/// tool and holds the file has it.
pub fn find_existing_binary(entries: &Vec<DirEntry>, id: &str, binary_name: &str) -> (found: Option<
    String,
>)
    ensures
        found is Some <==> existing_binary(entry_views(entries@), id@, binary_name@) is Some,
        found matches Some(path) ==> Some(path@) == existing_binary(
            entry_views(entries@),
            id@,
            binary_name@,
        ),
{
    let mut i: usize = 0;
    while i < entries.len()
        invariant
            i <= entries.len(),
            installed_from(entry_views(entries@), id@, 0) == installed_from(
                entry_views(entries@),
                id@,
                i as int,
            ),
        decreases entries.len() - i,
    {
        if entries[i].holds_binary {
            match &entries[i].name {
                Some(name) => {
                    if starts_with(name.as_str(), id) {
                        let mut path = String::from_str("./");
                        path.append(name.as_str());
                        path.append("/");
                        path.append(binary_name);
                        return Some(path);
                    }
                },
                None => {},
            }
        }
        i += 1;
    }
    None
}

} // verus!
