//! The mathematical model of a menu: an ordered row of named entries with
//! the three operations that both levels of the hierarchy share.

use vstd::prelude::*;
use vstd::string::StringExecFns;

verus! {

/// Why an operation on a menu was refused.
#[derive(Debug, Clone, Copy, PartialEq, Eq, Structural)]
pub enum MenuError {
    /// An entry of that name is already there.
    DuplicateName,
    /// No entry of the menu has that name.
    NotFound,
    /// No item has that name, so there is no description to show.
    ItemNotFound,
}

impl MenuError {
    /// The line that tells the user about the error.
    pub open spec fn text(self) -> Seq<char> {
        match self {
            MenuError::DuplicateName => "Duplicate name"@,
            MenuError::NotFound => "List not found"@,
            MenuError::ItemNotFound => "Item not found"@,
        }
    }

    /// Whether the error says that a name matched nothing.
    pub open spec fn is_not_found(self) -> bool {
        self != MenuError::DuplicateName
    }

    /// The line that tells the user about the error.
    pub fn message(&self) -> (r: String)
        ensures
            r@ == self.text(),
    {
        match self {
            MenuError::DuplicateName => String::from_str("Duplicate name"),
            MenuError::NotFound => String::from_str("List not found"),
            MenuError::ItemNotFound => String::from_str("Item not found"),
        }
    }
}

/// What the model needs to know of an entry: it has a name, a new one can be
/// made from a name alone, and it can be given another name.
pub trait Named: Sized {
    /// The entry's name.
    spec fn label(self) -> Seq<char>;

    /// The entry that creation makes for `name`.
    spec fn fresh(name: Seq<char>) -> Self;

    /// The same entry under another name.
    spec fn relabel(self, name: Seq<char>) -> Self;

    /// A new entry carries the name it was made for.
    proof fn lemma_fresh(name: Seq<char>)
        ensures
            Self::fresh(name).label() == name,
    ;

    /// A renamed entry carries its new name.
    proof fn lemma_relabel(self, name: Seq<char>)
        ensures
            self.relabel(name).label() == name,
    ;
}

/// The names of a row of entries, in order.
pub open spec fn labels<E: Named>(entries: Seq<E>) -> Seq<Seq<char>> {
    entries.map_values(|e: E| e.label())
}

/// Where the first entry called `name` stands, if there is one.
pub open spec fn locate<E: Named>(entries: Seq<E>, name: Seq<char>) -> Option<int> {
    labels(entries).index_of_first(name)
}

/// Creation: refused when the name is taken, else a new entry goes to the end.
pub open spec fn create<E: Named>(entries: Seq<E>, name: Seq<char>) -> (Seq<E>, Result<(), MenuError>) {
    if labels(entries).contains(name) {
        (entries, Err(MenuError::DuplicateName))
    } else {
        (entries.push(E::fresh(name)), Ok(()))
    }
}

/// Removal: the first entry of that name leaves and the later ones move up.
pub open spec fn remove<E: Named>(entries: Seq<E>, name: Seq<char>) -> (Seq<E>, Result<(), MenuError>) {
    match locate(entries, name) {
        Some(i) => (entries.remove(i), Ok(())),
        None => (entries, Err(MenuError::NotFound)),
    }
}

/// Renaming: the first entry of that name takes the new one, whether or not
/// another entry already carries it.
pub open spec fn rename<E: Named>(entries: Seq<E>, name: Seq<char>, new_name: Seq<char>) -> (
    Seq<E>,
    Result<(), MenuError>,
) {
    match locate(entries, name) {
        Some(i) => (entries.update(i, entries[i].relabel(new_name)), Ok(())),
        None => (entries, Err(MenuError::NotFound)),
    }
}

/// `locate` finds the first match: an index inside the row whose entry has
/// the name, with no such entry before it; and it finds nothing exactly when
/// no entry has the name.
pub proof fn lemma_locate<E: Named>(entries: Seq<E>, name: Seq<char>)
    ensures
        match locate(entries, name) {
            Some(i) => {
                &&& 0 <= i < entries.len()
                &&& entries[i].label() == name
                &&& forall|j: int| 0 <= j < i ==> (#[trigger] entries[j]).label() != name
            },
            None => forall|j: int| 0 <= j < entries.len() ==> (#[trigger] entries[j]).label() != name,
        },
        locate(entries, name) is Some <==> labels(entries).contains(name),
{
    let names = labels(entries);
    names.index_of_first_ensures(name);
    match locate(entries, name) {
        Some(i) => {
            assert(names[i] == entries[i].label());
            assert forall|j: int| 0 <= j < i implies (#[trigger] entries[j]).label() != name by {
                assert(names[j] == entries[j].label());
            }
        },
        None => {
            assert forall|j: int| 0 <= j < entries.len() implies (#[trigger] entries[j]).label()
                != name by {
                assert(names[j] == entries[j].label());
            }
        },
    }
}

/// If the entry at `i` has the name and none before it has, `locate` finds `i`.
pub proof fn lemma_locate_is<E: Named>(entries: Seq<E>, name: Seq<char>, i: int)
    requires
        0 <= i < entries.len(),
        entries[i].label() == name,
        forall|j: int| 0 <= j < i ==> (#[trigger] entries[j]).label() != name,
    ensures
        locate(entries, name) == Some(i),
{
    lemma_locate(entries, name);
    assert(labels(entries)[i] == name);
}

/// If no entry has the name, `locate` finds nothing.
pub proof fn lemma_locate_none<E: Named>(entries: Seq<E>, name: Seq<char>)
    requires
        forall|j: int| 0 <= j < entries.len() ==> (#[trigger] entries[j]).label() != name,
    ensures
        locate(entries, name) is None,
        !labels(entries).contains(name),
{
    lemma_locate(entries, name);
}

/// Creating a name and then creating it again: the second call is refused
/// as a duplicate and leaves the row, and so its length, as the first call
/// left it.
pub proof fn law_create_twice<E: Named>(entries: Seq<E>, name: Seq<char>)
    ensures
        create(create(entries, name).0, name) == (create(entries, name).0, Err::<(), MenuError>(MenuError::DuplicateName)),
        create(create(entries, name).0, name).0.len() == create(entries, name).0.len(),
{
    let after = create(entries, name).0;
    if !labels(entries).contains(name) {
        E::lemma_fresh(name);
        assert(labels(after)[entries.len() as int] == name);
    }
}

/// Removing or renaming a name that no entry carries is refused as not found
/// and leaves the row unchanged.
pub proof fn law_absent_name<E: Named>(entries: Seq<E>, name: Seq<char>, new_name: Seq<char>)
    requires
        !labels(entries).contains(name),
    ensures
        remove(entries, name) == (entries, Err::<(), MenuError>(MenuError::NotFound)),
        rename(entries, name, new_name) == (entries, Err::<(), MenuError>(MenuError::NotFound)),
{
    lemma_locate(entries, name);
}

/// Renaming an entry to a name that another entry already carries succeeds,
/// and afterwards two entries carry that name.
pub proof fn law_rename_onto_existing<E: Named>(entries: Seq<E>, name: Seq<char>, taken: Seq<char>)
    requires
        labels(entries).contains(name),
        labels(entries).contains(taken),
        name != taken,
    ensures
        rename(entries, name, taken).1 is Ok,
        rename(entries, name, taken).0.len() == entries.len(),
        exists|i: int, j: int|
            0 <= i < j < entries.len() && #[trigger] labels(rename(entries, name, taken).0)[i]
                == taken && #[trigger] labels(rename(entries, name, taken).0)[j] == taken,
{
    lemma_locate(entries, name);
    lemma_locate(entries, taken);
    let a = locate(entries, name).unwrap();
    let b = locate(entries, taken).unwrap();
    let after = rename(entries, name, taken).0;
    entries[a].lemma_relabel(taken);
    assert(labels(after)[a] == taken);
    assert(after[b] == entries[b]);
    assert(labels(after)[b] == taken);
    if a < b {
        assert(labels(after)[a] == taken && labels(after)[b] == taken);
    } else {
        assert(labels(after)[b] == taken && labels(after)[a] == taken);
    }
}

/// Names that are unique stay unique under creation and removal, and under
/// a renaming whose new name is not taken by another entry.
pub proof fn law_names_stay_unique<E: Named>(entries: Seq<E>, name: Seq<char>, new_name: Seq<char>)
    requires
        labels(entries).no_duplicates(),
    ensures
        labels(create(entries, name).0).no_duplicates(),
        labels(remove(entries, name).0).no_duplicates(),
        !labels(entries).contains(new_name) || new_name == name ==> labels(
            rename(entries, name, new_name).0,
        ).no_duplicates(),
{
    let names = labels(entries);
    lemma_locate(entries, name);
    if !names.contains(name) {
        E::lemma_fresh(name);
        let after = labels(create(entries, name).0);
        assert forall|i: int, j: int| 0 <= i < after.len() && 0 <= j < after.len() && i != j implies after[i]
            != after[j] by {
            if i < names.len() {
                assert(after[i] == names[i]);
            }
            if j < names.len() {
                assert(after[j] == names[j]);
            }
        }
    }
    if let Some(at) = locate(entries, name) {
        let after = labels(remove(entries, name).0);
        assert forall|i: int, j: int| 0 <= i < after.len() && 0 <= j < after.len() && i != j implies after[i]
            != after[j] by {
            let from_i = if i < at {
                i
            } else {
                i + 1
            };
            let from_j = if j < at {
                j
            } else {
                j + 1
            };
            assert(after[i] == names[from_i]);
            assert(after[j] == names[from_j]);
        }
        if !names.contains(new_name) || new_name == name {
            entries[at].lemma_relabel(new_name);
            let after = labels(rename(entries, name, new_name).0);
            assert forall|i: int, j: int|
                0 <= i < after.len() && 0 <= j < after.len() && i != j implies after[i] != after[j] by {
                if i != at {
                    assert(after[i] == names[i]);
                }
                if j != at {
                    assert(after[j] == names[j]);
                }
                assert(names[at] == name);
            }
        }
    }
}

} // verus!
