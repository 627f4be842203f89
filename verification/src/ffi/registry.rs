//! The loaded libraries of a process, by identifier.
use fxhash::FxHashMap;
use vstd::prelude::*;
use vstd::string::*;

verus! {

/// The hasher of the registry's map.
#[verifier::external_type_specification]
#[verifier::external_body]
pub struct ExFxHasher(fxhash::FxHasher);

/// The hasher factory of the registry's map.
#[verifier::external_type_specification]
#[verifier::external_body]
#[verifier::reject_recursive_types(H)]
pub struct ExBuildHasherDefault<H>(std::hash::BuildHasherDefault<H>);

/// `FxHashMap::default`: a map without entries.
#[verifier::external_body]
fn emptyMap() -> (map: FxHashMap<usize, String>)
    ensures
        (map@ == Map::<usize, String>::empty()),
{
    FxHashMap::default()
}

/// `FxHashMap::insert`: the key maps to the value afterwards, whatever it
/// mapped to before; every other entry stays.
#[verifier::external_body]
fn putEntry(map: &mut FxHashMap<usize, String>, key: usize, value: String)
    ensures
        final(map)@ == old(map)@.insert(key, value),
{
    map.insert(key, value);
}

/// `FxHashMap::remove`: the key has no entry afterwards; every other entry stays.
#[verifier::external_body]
fn dropEntry(map: &mut FxHashMap<usize, String>, key: usize)
    ensures
        final(map)@ == old(map)@.remove(key),
{
    map.remove(&key);
}

/// `FxHashMap::contains_key`: whether the key has an entry.
#[verifier::external_body]
fn hasEntry(map: &FxHashMap<usize, String>, key: usize) -> (present: bool)
    ensures
        present == map@.contains_key(key),
{
    map.contains_key(&key)
}

/// The loaded libraries of a process, and the identifier that the next one gets.
pub struct LibraryRegistry {
    nextId: usize,
    libraries: FxHashMap<usize, String>,
}

impl View for LibraryRegistry {
    type V = Map<usize, Seq<char>>;

    /// The path of each registered library, by identifier.
    closed spec fn view(&self) -> Map<usize, Seq<char>> {
        self.libraries@.map_values(|path: String| path@)
    }
}

impl LibraryRegistry {
    /// The identifier that the next library gets.
    pub closed spec fn next(&self) -> usize {
        self.nextId
    }

    /// Identifiers have been handed out in order so far: those in use are below
    /// the next one.
    pub open spec fn inOrder(&self) -> bool {
        forall|id: usize| #[trigger] self@.contains_key(id) ==> id < self.next()
    }

    /// An empty registry. The first identifier is one.
    pub fn new() -> (registry: Self)
        ensures
            registry@ == Map::<usize, Seq<char>>::empty(),
            registry.next() == 1,
            registry.inOrder(),
    {
        let registry: LibraryRegistry = LibraryRegistry { nextId: 1, libraries: emptyMap() };
        assert(registry@ =~= Map::<usize, Seq<char>>::empty());
        registry
    }

    /// Hands out the next identifier. After the largest one it starts over at
    /// zero.
    pub fn nextLibraryId(&mut self) -> (id: usize)
        ensures
            id == old(self).next(),
            final(self).next() == id.wrapping_add(1),
            final(self)@ == old(self)@,
    {
        let id: usize = self.nextId;
        self.nextId = id.wrapping_add(1);
        id
    }

    /// Registers a library.
    pub fn registerLibrary(&mut self, id: usize, path: &str)
        ensures
            final(self)@ == old(self)@.insert(id, path@),
            final(self).next() == old(self).next(),
    {
        putEntry(&mut self.libraries, id, path.to_owned());
        assert(self@ =~= old(self)@.insert(id, path@));
    }

    /// Removes a library.
    pub fn unregisterLibrary(&mut self, id: usize)
        ensures
            final(self)@ == old(self)@.remove(id),
            final(self).next() == old(self).next(),
    {
        dropEntry(&mut self.libraries, id);
        assert(self@ =~= old(self)@.remove(id));
    }

    /// Whether a library is registered.
    pub fn isRegistered(&self, id: usize) -> (registered: bool)
        ensures
            registered == self@.contains_key(id),
    {
        hasEntry(&self.libraries, id)
    }
}

/// As long as the identifiers have not run out, the next one is not in use, so
/// that a newly loaded library replaces no other; and registering it keeps the
/// identifiers in order.
pub proof fn identifiersAreUnique(before: LibraryRegistry, after: LibraryRegistry, path: Seq<char>)
    requires
        before.inOrder(),
        before.next() < usize::MAX,
        after.next() == before.next() + 1,
        after@ == before@.insert(before.next(), path),
    ensures
        !before@.contains_key(before.next()),
        forall|id: usize| #[trigger] before@.contains_key(id) ==> after@.contains_key(id)
            && after@[id] == before@[id],
        after.inOrder(),
{
}

} // verus!
