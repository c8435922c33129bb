//! Looking for a binary by name in a directory tree.
//!
//! The search is a work list, not a recursion: the caller lists one directory
//! at a time and hands the listing over; a deep tree costs memory for the
//! directories still to be listed, and no stack.

use vstd::prelude::*;
use crate::cache::{entry_views, DirEntry, DirEntryView};
use crate::text::{join_path, joined, same_chars, string_views, to_chars};

verus! {

/// A search in progress.
#[derive(Clone, Debug, PartialEq, Eq)]
pub struct BinarySearch {
    /// The file name looked for.
    pub binary_name: String,
    /// The directories still to be listed; the last one is listed next.
    pub pending: Vec<String>,
}

/// The mathematical value of a `BinarySearch`.
pub struct BinarySearchView {
    pub binary_name: Seq<char>,
    pub pending: Seq<Seq<char>>,
}

impl View for BinarySearch {
    type V = BinarySearchView;

    open spec fn view(&self) -> BinarySearchView {
        BinarySearchView {
            binary_name: self.binary_name@,
            pending: self.pending@.map_values(|d: String| d@),
        }
    }
}

/// Position of the first entry that is a file called `name`.
pub open spec fn first_file_named(entries: Seq<DirEntryView>, name: Seq<char>) -> Option<int>
    decreases entries.len(),
{
    if entries.len() == 0 {
        None
    } else if !entries[0].is_dir && entries[0].name == name {
        Some(0)
    } else {
        match first_file_named(entries.drop_first(), name) {
            Some(i) => Some(i + 1),
            None => None,
        }
    }
}

/// The paths of the directories among `entries`, which are listed in `dir`.
pub open spec fn subdirectories(dir: Seq<char>, entries: Seq<DirEntryView>) -> Seq<Seq<char>>
    decreases entries.len(),
{
    if entries.len() == 0 {
        Seq::empty()
    } else if entries.last().is_dir {
        subdirectories(dir, entries.drop_last()).push(joined(dir, entries.last().name))
    } else {
        subdirectories(dir, entries.drop_last())
    }
}

/// `first_file_named` finds the least position that holds such a file, and
/// finds one whenever there is one.
pub proof fn lemma_first_file_named(entries: Seq<DirEntryView>, name: Seq<char>)
    ensures
        match first_file_named(entries, name) {
            Some(i) => 0 <= i < entries.len() && !entries[i].is_dir && entries[i].name == name
                && forall|j: int| 0 <= j < i ==> entries[j].is_dir || entries[j].name != name,
            None => forall|j: int|
                0 <= j < entries.len() ==> entries[j].is_dir || entries[j].name != name,
        },
    decreases entries.len(),
{
    if entries.len() > 0 && !(!entries[0].is_dir && entries[0].name == name) {
        let rest = entries.drop_first();
        lemma_first_file_named(rest, name);
        match first_file_named(rest, name) {
            Some(i) => {
                assert forall|j: int| 0 <= j < i + 1 implies entries[j].is_dir || entries[j].name
                    != name by {
                    if j > 0 {
                        assert(entries[j] == rest[j - 1]);
                    }
                }
            },
            None => {
                assert forall|j: int| 0 <= j < entries.len() implies entries[j].is_dir
                    || entries[j].name != name by {
                    if j > 0 {
                        assert(entries[j] == rest[j - 1]);
                    }
                }
            },
        }
    }
}

// ---------------------------------------------------------------------------
// A whole search
// ---------------------------------------------------------------------------

/// The directory reached from `root` by going down along `route`, which
/// gives at each level the position of the next directory in the listing;
/// `None` where the route leaves the tree. `listing` gives what each
/// directory holds.
pub open spec fn descend(
    listing: spec_fn(Seq<char>) -> Seq<DirEntryView>,
    root: Seq<char>,
    route: Seq<int>,
) -> Option<Seq<char>>
    decreases route.len(),
{
    if route.len() == 0 {
        Some(root)
    } else {
        let entries = listing(root);
        let i = route[0];
        if 0 <= i < entries.len() && entries[i].is_dir {
            descend(listing, joined(root, entries[i].name), route.drop_first())
        } else {
            None
        }
    }
}

/// What a search gives that lists the directories of `pending` and what lies
/// under them, the last one first, and stops at the first listing that holds
/// the file. The result is `None` where more than `steps` listings would be
/// needed.
pub open spec fn search_result_of(
    listing: spec_fn(Seq<char>) -> Seq<DirEntryView>,
    name: Seq<char>,
    pending: Seq<Seq<char>>,
    steps: nat,
) -> Option<Option<Seq<char>>>
    decreases steps,
{
    if pending.len() == 0 {
        Some(None)
    } else if steps == 0 {
        None
    } else {
        let dir = pending.last();
        if first_file_named(listing(dir), name) is Some {
            Some(Some(joined(dir, name)))
        } else {
            search_result_of(
                listing,
                name,
                pending.drop_last() + subdirectories(dir, listing(dir)),
                (steps - 1) as nat,
            )
        }
    }
}

/// Every path of `subdirectories` is the path of a directory of the listing:
/// the result is the position of that directory.
pub proof fn lemma_subdirectory_entry(dir: Seq<char>, entries: Seq<DirEntryView>, j: int) -> (i:
    int)
    requires
        0 <= j < subdirectories(dir, entries).len(),
    ensures
        0 <= i < entries.len(),
        entries[i].is_dir,
        subdirectories(dir, entries)[j] == joined(dir, entries[i].name),
    decreases entries.len(),
{
    let rest = entries.drop_last();
    if entries.last().is_dir && j == subdirectories(dir, rest).len() {
        entries.len() - 1
    } else {
        let i = lemma_subdirectory_entry(dir, rest, j);
        assert(entries[i] == rest[i]);
        i
    }
}

/// Every directory of the listing has its path in `subdirectories`: the
/// result is the position of that path.
pub proof fn lemma_subdirectory_position(dir: Seq<char>, entries: Seq<DirEntryView>, i: int) -> (j:
    int)
    requires
        0 <= i < entries.len(),
        entries[i].is_dir,
    ensures
        0 <= j < subdirectories(dir, entries).len(),
        subdirectories(dir, entries)[j] == joined(dir, entries[i].name),
    decreases entries.len(),
{
    let rest = entries.drop_last();
    if i == entries.len() - 1 {
        subdirectories(dir, rest).len() as int
    } else {
        assert(entries[i] == rest[i]);
        lemma_subdirectory_position(dir, rest, i)
    }
}

/// Where a search ends without the file, no directory under any of the
/// pending ones holds it.
pub proof fn lemma_search_is_complete(
    listing: spec_fn(Seq<char>) -> Seq<DirEntryView>,
    name: Seq<char>,
    pending: Seq<Seq<char>>,
    steps: nat,
    k: int,
    route: Seq<int>,
)
    requires
        search_result_of(listing, name, pending, steps) == Some(None::<Seq<char>>),
        0 <= k < pending.len(),
        descend(listing, pending[k], route) is Some,
    ensures
        first_file_named(listing(descend(listing, pending[k], route)->0), name) is None,
    decreases steps, route.len(),
{
    let top = pending.last();
    let entries = listing(top);
    let next = pending.drop_last() + subdirectories(top, entries);
    let last = pending.len() - 1;
    if k < last {
        assert(next[k] == pending[k]);
        lemma_search_is_complete(listing, name, next, (steps - 1) as nat, k, route);
    } else if route.len() > 0 {
        let j = lemma_subdirectory_position(top, entries, route[0]);
        assert(next[last + j] == joined(top, entries[route[0]].name));
        lemma_search_is_complete(
            listing,
            name,
            next,
            (steps - 1) as nat,
            last + j,
            route.drop_first(),
        );
    }
}

/// What a search finds is a file of the name looked for, in a directory
/// under one of the pending ones: the result is the position of that pending
/// directory and the route down from it.
pub proof fn lemma_search_is_sound(
    listing: spec_fn(Seq<char>) -> Seq<DirEntryView>,
    name: Seq<char>,
    pending: Seq<Seq<char>>,
    steps: nat,
) -> (found: (int, Seq<int>))
    requires
        search_result_of(listing, name, pending, steps) matches Some(Some(_)),
    ensures
        0 <= found.0 < pending.len(),
        descend(listing, pending[found.0], found.1) matches Some(dir) && first_file_named(
            listing(dir),
            name,
        ) is Some && search_result_of(listing, name, pending, steps) == Some(
            Some(joined(dir, name)),
        ),
    decreases steps,
{
    let top = pending.last();
    let entries = listing(top);
    let last = pending.len() - 1;
    if first_file_named(entries, name) is Some {
        (last, Seq::empty())
    } else {
        let next = pending.drop_last() + subdirectories(top, entries);
        let (k, route) = lemma_search_is_sound(listing, name, next, (steps - 1) as nat);
        if k < last {
            assert(next[k] == pending[k]);
            (k, route)
        } else {
            let i = lemma_subdirectory_entry(top, entries, k - last);
            assert(next[k] == joined(top, entries[i].name));
            let longer = seq![i] + route;
            assert(longer.drop_first() =~= route);
            (last, longer)
        }
    }
}

impl BinarySearch {
    /// A search for `binary_name` in the tree under `dir`.
    pub fn new(dir: &str, binary_name: &str) -> (search: BinarySearch)
        ensures
            search@.binary_name == binary_name@,
            search@.pending == seq![dir@],
    {
        let mut pending: Vec<String> = Vec::new();
        pending.push(dir.to_string());
        let search = BinarySearch { binary_name: binary_name.to_string(), pending };
        assert(search@.pending =~= seq![dir@]);
        search
    }

    /// A search for `binary_name` in the trees under `roots`: the whole tree
    /// of an earlier root is listed before any later root.
    pub fn across(roots: &Vec<String>, binary_name: &str) -> (search: BinarySearch)
        ensures
            search@.binary_name == binary_name@,
            search@.pending == string_views(roots@).reverse(),
    {
        let ghost all = string_views(roots@);
        let mut pending: Vec<String> = Vec::new();
        let mut i: usize = roots.len();
        while i > 0
            invariant
                i <= roots.len(),
                all == string_views(roots@),
                string_views(pending@) == all.skip(i as int).reverse(),
            decreases i,
        {
            i -= 1;
            let ghost before = string_views(pending@);
            pending.push(roots[i].clone());
            assert(string_views(pending@) =~= before.push(all[i as int]));
            assert(string_views(pending@) =~= all.skip(i as int).reverse());
        }
        assert(all.skip(0) =~= all);
        let search = BinarySearch { binary_name: binary_name.to_string(), pending };
        assert(search@.pending =~= string_views(search.pending@));
        search
    }

    /// The directory to list next; `None` when the whole tree has been
    /// listed, which means that the binary is not in it.
    pub fn next_dir(&mut self) -> (dir: Option<String>)
        ensures
            final(self)@.binary_name == old(self)@.binary_name,
            match dir {
                Some(d) => old(self)@.pending.len() > 0 && d@ == old(self)@.pending.last()
                    && final(self)@.pending == old(self)@.pending.drop_last(),
                None => old(self)@.pending.len() == 0 && final(self)@.pending == old(
                    self,
                )@.pending,
            },
    {
        let dir = self.pending.pop();
        proof {
            if dir is Some {
                assert(final(self)@.pending =~= old(self)@.pending.drop_last());
                assert(old(self)@.pending.last() == old(self).pending@.last()@);
            } else {
                assert(final(self)@.pending =~= old(self)@.pending);
            }
        }
        dir
    }

    /// Takes the listing of `dir`. Where it holds a file with the name looked
    /// for, the result is that file's path (for the first such entry) and the
    /// work list stays as it was. Otherwise the result is `None`, and the
    /// directories of the listing are added to the work list.
    pub fn visit(&mut self, dir: &str, entries: &Vec<DirEntry>) -> (found: Option<String>)
        ensures
            final(self)@.binary_name == old(self)@.binary_name,
            match first_file_named(entry_views(entries@), old(self)@.binary_name) {
                Some(i) => found matches Some(p) && p@ == joined(dir@, old(self)@.binary_name)
                    && final(self)@.pending == old(self)@.pending,
                None => found is None && final(self)@.pending == old(self)@.pending
                    + subdirectories(dir@, entry_views(entries@)),
            },
    {
        let wanted = to_chars(self.binary_name.as_str());
        let ghost all = entry_views(entries@);
        let ghost name = self.binary_name@;
        let mut i: usize = 0;
        assert(all.skip(0) =~= all);
        while i < entries.len()
            invariant
                i <= entries.len(),
                all == entry_views(entries@),
                wanted@ == name,
                self@ == old(self)@,
                name == old(self)@.binary_name,
                first_file_named(all, name) == match first_file_named(all.skip(i as int), name) {
                    Some(k) => Some(k + i),
                    None => None,
                },
            decreases entries.len() - i,
        {
            let entry = &entries[i];
            assert(all.skip(i as int)[0] == entry@);
            if !entry.is_dir && same_chars(&to_chars(entry.name.as_str()), &wanted) {
                return Some(join_path(dir, self.binary_name.as_str()));
            }
            assert(all.skip(i as int).drop_first() =~= all.skip(i + 1));
            i += 1;
        }
        let mut j: usize = 0;
        assert(all.take(0) =~= Seq::<DirEntryView>::empty());
        assert(self@.pending + Seq::<Seq<char>>::empty() =~= self@.pending);
        while j < entries.len()
            invariant
                j <= entries.len(),
                all == entry_views(entries@),
                self@.binary_name == old(self)@.binary_name,
                self@.pending == old(self)@.pending + subdirectories(dir@, all.take(j as int)),
            decreases entries.len() - j,
        {
            let entry = &entries[j];
            proof {
                assert(all.take(j + 1).drop_last() =~= all.take(j as int));
                assert(all.take(j + 1).last() == entry@);
            }
            if entry.is_dir {
                let ghost before = self@.pending;
                let path = join_path(dir, entry.name.as_str());
                self.pending.push(path);
                assert(self@.pending =~= before.push(joined(dir@, entry.name@)));
                assert(self@.pending =~= old(self)@.pending + subdirectories(
                    dir@,
                    all.take(j + 1),
                ));
            }
            j += 1;
        }
        assert(all.take(entries.len() as int) =~= all);
        None
    }
}

} // verus!
