//! The store of loaded textures, keyed by the path they were loaded from.

use vstd::prelude::*;

verus! {

/// Names one texture that lives on the GPU.
#[derive(Clone, Copy, Debug, PartialEq, Eq, Hash, Structural)]
pub struct TextureHandle {
    pub id: u64,
}

struct CacheEntry {
    path: String,
    handle: TextureHandle,
}

/// The paths of the entries, in their order.
spec fn paths(entries: Seq<CacheEntry>) -> Seq<Seq<char>> {
    Seq::new(entries.len(), |i: int| entries[i].path@)
}

/// The map that a list of entries with distinct paths stands for.
spec fn contents(entries: Seq<CacheEntry>) -> Map<Seq<char>, TextureHandle> {
    Map::new(
        |path: Seq<char>| paths(entries).contains(path),
        |path: Seq<char>| entries[paths(entries).index_of(path)].handle,
    )
}

/// The entry at `i` is what the map holds under that entry's path.
proof fn lemma_entry(entries: Seq<CacheEntry>, i: int)
    requires
        paths(entries).no_duplicates(),
        0 <= i < entries.len(),
    ensures
        paths(entries).contains(entries[i].path@),
        paths(entries).index_of(entries[i].path@) == i,
        contents(entries).dom().contains(entries[i].path@),
        contents(entries)[entries[i].path@] == entries[i].handle,
{
    let keys = paths(entries);
    assert(keys[i] == entries[i].path@);
    let j = keys.index_of(entries[i].path@);
    assert(0 <= j < keys.len() && keys[j] == keys[i]);
}

/// Appending an entry under a new path inserts it into the map.
proof fn lemma_push(entries: Seq<CacheEntry>, entry: CacheEntry)
    requires
        paths(entries).no_duplicates(),
        !paths(entries).contains(entry.path@),
    ensures
        paths(entries.push(entry)) == paths(entries).push(entry.path@),
        paths(entries.push(entry)).no_duplicates(),
        contents(entries.push(entry)) == contents(entries).insert(entry.path@, entry.handle),
{
    let after = entries.push(entry);
    assert(paths(after) =~= paths(entries).push(entry.path@));
    assert forall|i: int, j: int|
        0 <= i < paths(after).len() && 0 <= j < paths(after).len() && i != j implies paths(
        after,
    )[i] != paths(after)[j] by {
        if i < entries.len() {
            assert(paths(entries)[i] == paths(after)[i]);
        }
        if j < entries.len() {
            assert(paths(entries)[j] == paths(after)[j]);
        }
    }
    let expected = contents(entries).insert(entry.path@, entry.handle);
    assert forall|path: Seq<char>| #[trigger] paths(after).contains(path) <==> (paths(
        entries,
    ).contains(path) || path == entry.path@) by {
        if paths(after).contains(path) {
            let i = paths(after).index_of(path);
            assert(paths(after)[i] == path);
            if i < entries.len() {
                assert(paths(entries)[i] == path);
            }
        }
        if paths(entries).contains(path) {
            let i = paths(entries).index_of(path);
            assert(paths(after)[i] == path);
        }
        if path == entry.path@ {
            assert(paths(after)[entries.len() as int] == path);
        }
    }
    assert forall|path: Seq<char>| #[trigger] expected.dom().contains(path) implies contents(
        after,
    )[path] == expected[path] by {
        if path == entry.path@ {
            lemma_entry(after, entries.len() as int);
        } else {
            let i = paths(entries).index_of(path);
            assert(paths(entries)[i] == path);
            lemma_entry(entries, i);
            lemma_entry(after, i);
        }
    }
    assert(contents(after).dom() =~= expected.dom());
    assert(contents(after) =~= expected);
}

/// Replacing the entry at `i` by one with the same path updates the map
/// under that path.
proof fn lemma_replace(entries: Seq<CacheEntry>, i: int, entry: CacheEntry)
    requires
        paths(entries).no_duplicates(),
        0 <= i < entries.len(),
        entries[i].path@ == entry.path@,
    ensures
        paths(entries.update(i, entry)) == paths(entries),
        contents(entries.update(i, entry)) == contents(entries).insert(entry.path@, entry.handle),
{
    let after = entries.update(i, entry);
    assert(paths(after) =~= paths(entries));
    let expected = contents(entries).insert(entry.path@, entry.handle);
    lemma_entry(entries, i);
    assert forall|path: Seq<char>| expected.dom().contains(path) implies contents(
        after,
    ).dom().contains(path) && contents(after)[path] == expected[path] by {
        let j = paths(entries).index_of(path);
        if path == entry.path@ {
            lemma_entry(after, i);
        } else {
            assert(paths(entries)[j] == path);
            lemma_entry(entries, j);
            lemma_entry(after, j);
        }
    }
    assert(contents(after) =~= expected);
}

/// Maps the path of a texture to its handle.
///
/// A path has at most one handle. Inserting under a path that is present
/// replaces its handle; nothing leaves the cache by itself.
pub struct TextureCache {
    entries: Vec<CacheEntry>,
}

impl View for TextureCache {
    type V = Map<Seq<char>, TextureHandle>;

    closed spec fn view(&self) -> Map<Seq<char>, TextureHandle> {
        contents(self.entries@)
    }
}

impl TextureCache {
    #[verifier::type_invariant]
    spec fn distinct_paths(&self) -> bool {
        paths(self.entries@).no_duplicates()
    }

    /// A cache that holds nothing.
    pub fn new() -> (cache: Self)
        ensures
            cache@ == Map::<Seq<char>, TextureHandle>::empty(),
    {
        let cache = TextureCache { entries: Vec::new() };
        assert(cache@ =~= Map::<Seq<char>, TextureHandle>::empty());
        cache
    }

    /// Where `path` stands among the entries, if it is present.
    fn position(&self, path: &String) -> (found: Option<usize>)
        ensures
            match found {
                Some(i) => i < self.entries.len() && self.entries[i as int].path@ == path@,
                None => !paths(self.entries@).contains(path@),
            },
    {
        let mut i: usize = 0;
        while i < self.entries.len()
            invariant
                i <= self.entries.len(),
                forall|j: int| 0 <= j < i ==> paths(self.entries@)[j] != path@,
            decreases self.entries.len() - i,
        {
            if self.entries[i].path == *path {
                return Some(i);
            }
            assert(paths(self.entries@)[i as int] == self.entries[i as int].path@);
            i = i + 1;
        }
        None
    }

    /// The handle stored under `path`, if there is one.
    pub fn lookup(&self, path: &String) -> (found: Option<TextureHandle>)
        ensures
            found == self@.get(path@),
    {
        proof {
            use_type_invariant(self);
        }
        match self.position(path) {
            Some(i) => {
                proof {
                    lemma_entry(self.entries@, i as int);
                }
                Some(self.entries[i].handle)
            },
            None => None,
        }
    }

    /// Whether a handle is stored under `path`.
    pub fn contains_key(&self, path: &String) -> (present: bool)
        ensures
            present == self@.contains_key(path@),
    {
        proof {
            use_type_invariant(self);
        }
        match self.position(path) {
            Some(i) => {
                proof {
                    lemma_entry(self.entries@, i as int);
                }
                true
            },
            None => false,
        }
    }

    /// Stores `handle` under `path` and returns the handle that it replaces.
    pub fn insert(&mut self, path: String, handle: TextureHandle) -> (previous: Option<
        TextureHandle,
    >)
        ensures
            final(self)@ == old(self)@.insert(path@, handle),
            previous == old(self)@.get(path@),
    {
        proof {
            use_type_invariant(&*self);
        }
        let found = self.position(&path);
        // The entries leave the cache while they change and come back whole.
        let mut entries: Vec<CacheEntry> = Vec::new();
        core::mem::swap(&mut self.entries, &mut entries);
        let mut entry = CacheEntry { path, handle };
        let previous = match found {
            Some(i) => {
                proof {
                    lemma_entry(entries@, i as int);
                    lemma_replace(entries@, i as int, entry);
                }
                entries.set_and_swap(i, &mut entry);
                Some(entry.handle)
            },
            None => {
                proof {
                    lemma_push(entries@, entry);
                }
                entries.push(entry);
                None
            },
        };
        self.entries = entries;
        previous
    }

    /// The number of paths that are present.
    pub fn len(&self) -> (count: usize)
        ensures
            count == self@.len(),
            self@.dom().finite(),
    {
        proof {
            use_type_invariant(self);
            let keys = paths(self.entries@);
            keys.unique_seq_to_set();
            vstd::seq_lib::seq_to_set_is_finite(keys);
            assert(self@.dom() =~= keys.to_set());
        }
        self.entries.len()
    }
}

/// Inserting is idempotent, and the last writer wins: a second insert of the
/// same path and handle changes nothing, a lookup after an insert finds the
/// handle that was inserted last, and an insert adds one entry if the path
/// is new and none if it is not.
pub proof fn lemma_insert_is_idempotent(
    cache: Map<Seq<char>, TextureHandle>,
    path: Seq<char>,
    handle: TextureHandle,
    later: TextureHandle,
)
    requires
        cache.dom().finite(),
    ensures
        cache.insert(path, handle).insert(path, handle) == cache.insert(path, handle),
        cache.insert(path, handle).get(path) == Some(handle),
        cache.insert(path, handle).insert(path, later).get(path) == Some(later),
        cache.insert(path, handle).len() == (if cache.contains_key(path) {
            cache.len()
        } else {
            cache.len() + 1
        }),
        Map::<Seq<char>, TextureHandle>::empty().insert(path, handle).insert(path, handle).len()
            == 1,
{
    assert(cache.insert(path, handle).insert(path, handle) =~= cache.insert(path, handle));
    if cache.contains_key(path) {
        assert(cache.insert(path, handle).dom() =~= cache.dom());
    }
    let empty = Map::<Seq<char>, TextureHandle>::empty();
    assert(empty.insert(path, handle).insert(path, handle) =~= empty.insert(path, handle));
    assert(empty.insert(path, handle).dom() =~= set![path]);
}

} // verus!
