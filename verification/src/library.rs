//! The in-memory music library: every song read from the music folder,
//! found by its id. It is held in a `dashmap::DashMap`, as the server shares it
//! between its tasks.

use vstd::prelude::*;
use dashmap::DashMap;
use std::collections::hash_map::RandomState;
use crate::song::{SongEntry, SongView};

verus! {

/// The concurrent hash map of the `dashmap` crate, seen from here as an opaque
/// value whose contents are given by `song_map_contents`.
#[verifier::external_type_specification]
#[verifier::external_body]
#[verifier::reject_recursive_types(K)]
#[verifier::reject_recursive_types(V)]
#[verifier::reject_recursive_types(S)]
pub struct ExDashMap<K, V, S>(DashMap<K, V, S>);

/// The songs that a song map holds, by key.
pub uninterp spec fn song_map_contents(m: DashMap<String, SongEntry, RandomState>) -> Map<Seq<char>, SongView>;

/// Trusted: `DashMap::new`. A new map holds nothing.
#[verifier::external_body]
fn song_map_new() -> (m: DashMap<String, SongEntry, RandomState>)
    ensures
        song_map_contents(m).dom() == Set::<Seq<char>>::empty(),
{
    DashMap::new()
}

/// Trusted: `DashMap::insert`. The key now maps to the value, the other keys
/// are unchanged, and the value the key had before (if any) is returned.
#[verifier::external_body]
fn song_map_insert(m: &mut DashMap<String, SongEntry, RandomState>, key: String, value: SongEntry) -> (prev: Option<SongEntry>)
    ensures
        song_map_contents(*final(m)) == song_map_contents(*old(m)).insert(key@, value@),
        prev is Some <==> song_map_contents(*old(m)).contains_key(key@),
        prev matches Some(p) ==> p@ == song_map_contents(*old(m))[key@],
{
    m.insert(key, value)
}

/// Trusted: `DashMap::get`, with the found value cloned out of the returned
/// guard. The result is the value stored under the key, if any.
#[verifier::external_body]
fn song_map_get(m: &DashMap<String, SongEntry, RandomState>, key: &str) -> (r: Option<SongEntry>)
    ensures
        r is Some <==> song_map_contents(*m).contains_key(key@),
        r matches Some(s) ==> s@ == song_map_contents(*m)[key@],
{
    m.get(key).map(|entry| entry.value().clone())
}

/// Trusted: `DashMap::iter`, each entry's key and value cloned out. Every
/// entry of the map comes out exactly once, in an order the map does not
/// promise.
#[verifier::external_body]
fn song_map_entries(m: &DashMap<String, SongEntry, RandomState>) -> (r: Vec<(String, SongEntry)>)
    ensures
        r@.len() == song_map_contents(*m).dom().len(),
        forall|i: int| 0 <= i < r@.len() ==>
            song_map_contents(*m).contains_key(#[trigger] r@[i].0@) && r@[i].1@ == song_map_contents(*m)[r@[i].0@],
        forall|i: int, j: int| 0 <= i < j < r@.len() ==> #[trigger] r@[i].0@ != #[trigger] r@[j].0@,
        forall|k: Seq<char>| #[trigger] song_map_contents(*m).contains_key(k) ==>
            exists|i: int| 0 <= i < r@.len() && #[trigger] r@[i].0@ == k,
{
    m.iter().map(|entry| (entry.key().clone(), entry.value().clone())).collect()
}

/// All songs read so far, each stored under its own id.
#[derive(Debug)]
pub struct MusicLibrary {
    /// Changed only through `&mut self` methods, never through the map's own
    /// shared-reference methods, so its contents are a function of its value.
    data: DashMap<String, SongEntry, RandomState>,
}

impl View for MusicLibrary {
    type V = Map<Seq<char>, SongView>;

    closed spec fn view(&self) -> Map<Seq<char>, SongView> {
        song_map_contents(self.data)
    }
}

impl MusicLibrary {
    /// The library holds finitely many songs, and every song is stored
    /// under its own id. Every library value is kept so.
    #[verifier::type_invariant]
    pub open spec fn wf(self) -> bool {
        &&& self@.dom().finite()
        &&& forall|k: Seq<char>| #[trigger] self@.contains_key(k) ==> self@[k].id == k
    }

    /// An empty library.
    pub fn new() -> (lib: MusicLibrary)
        ensures
            lib@ == Map::<Seq<char>, SongView>::empty(),
    {
        MusicLibrary { data: song_map_new() }
    }

    /// Adds a song under its id, replacing any song that had the same id.
    pub fn insert_song(&mut self, song: SongEntry)
        ensures
            final(self)@ == old(self)@.insert(song.id@, song@),
    {
        proof {
            use_type_invariant(&*self);
        }
        let ghost before = self@;
        let ghost sv = song@;
        let mut data = song_map_new();
        std::mem::swap(&mut data, &mut self.data);
        assert(song_map_contents(data) == before);
        let key = song.id.clone();
        let _ = song_map_insert(&mut data, key, song);
        let ghost after = song_map_contents(data);
        assert(after == before.insert(sv.id, sv));
        assert forall|k: Seq<char>| #[trigger] after.contains_key(k) implies after[k].id == k by {
            if k != sv.id {
                assert(before.contains_key(k));
            }
        }
        assert(after.dom().finite());
        self.data = data;
    }

    /// The song with the given id, if the library has one.
    pub fn get_song(&self, id: &str) -> (r: Option<SongEntry>)
        ensures
            r is Some <==> self@.contains_key(id@),
            r matches Some(s) ==> s@ == self@[id@],
    {
        song_map_get(&self.data, id)
    }

    /// Whether the library has a song with the given id.
    pub fn contains_song(&self, id: &str) -> (r: bool)
        ensures
            r == self@.contains_key(id@),
    {
        song_map_get(&self.data, id).is_some()
    }

    /// Every song of the library, each once, in no promised order.
    pub fn all_songs(&self) -> (r: Vec<SongEntry>)
        ensures
            r@.len() == self@.dom().len(),
            forall|i: int| 0 <= i < r@.len() ==>
                self@.contains_key(#[trigger] r@[i].id@) && r@[i]@ == self@[r@[i].id@],
            forall|i: int, j: int| 0 <= i < j < r@.len() ==> #[trigger] r@[i].id@ != #[trigger] r@[j].id@,
            forall|k: Seq<char>| #[trigger] self@.contains_key(k) ==>
                exists|i: int| 0 <= i < r@.len() && #[trigger] r@[i].id@ == k,
    {
        proof {
            use_type_invariant(self);
        }
        let entries = song_map_entries(&self.data);
        let mut songs: Vec<SongEntry> = Vec::new();
        let mut i: usize = 0;
        while i < entries.len()
            invariant
                i <= entries@.len(),
                songs@.len() == i,
                self.wf(),
                entries@.len() == self@.dom().len(),
                forall|j: int| 0 <= j < entries@.len() ==>
                    self@.contains_key(#[trigger] entries@[j].0@) && entries@[j].1@ == self@[entries@[j].0@],
                forall|a: int, b: int| 0 <= a < b < entries@.len() ==> #[trigger] entries@[a].0@ != #[trigger] entries@[b].0@,
                forall|j: int| 0 <= j < i ==> #[trigger] songs@[j]@ == entries@[j].1@,
            decreases entries@.len() - i,
        {
            let s = entries[i].1.clone();
            songs.push(s);
            i = i + 1;
        }
        assert forall|j: int| 0 <= j < songs@.len() implies
            self@.contains_key(#[trigger] songs@[j].id@) && songs@[j]@ == self@[songs@[j].id@] by {
            assert(songs@[j]@ == entries@[j].1@);
            assert(self@.contains_key(entries@[j].0@));
        }
        assert forall|a: int, b: int| 0 <= a < b < songs@.len() implies #[trigger] songs@[a].id@ != #[trigger] songs@[b].id@ by {
            assert(songs@[a]@ == entries@[a].1@);
            assert(songs@[b]@ == entries@[b].1@);
            assert(self@.contains_key(entries@[a].0@));
            assert(self@.contains_key(entries@[b].0@));
            assert(entries@[a].0@ != entries@[b].0@);
        }
        assert forall|k: Seq<char>| #[trigger] self@.contains_key(k) implies
            exists|i: int| 0 <= i < songs@.len() && #[trigger] songs@[i].id@ == k by {
            let i = choose|i: int| 0 <= i < entries@.len() && #[trigger] entries@[i].0@ == k;
            assert(songs@[i]@ == entries@[i].1@);
            assert(songs@[i].id@ == k);
        }
        songs
    }
}

impl Default for MusicLibrary {
    fn default() -> (lib: MusicLibrary)
        ensures
            lib@ == Map::<Seq<char>, SongView>::empty(),
    {
        MusicLibrary::new()
    }
}

/// Reading a song back after adding it: the song just added is found under
/// its id, every other id finds what it found before, and the library keeps
/// each song under its own id.
pub proof fn law_library_read_after_insert(lib: MusicLibrary, song: SongView, id: Seq<char>)
    requires
        lib.wf(),
    ensures
        lib@.insert(song.id, song).get(song.id) == Some(song),
        id != song.id ==> lib@.insert(song.id, song).get(id) == lib@.get(id),
        forall|k: Seq<char>| #[trigger] lib@.insert(song.id, song).contains_key(k)
            ==> lib@.insert(song.id, song)[k].id == k,
{
    let m = lib@.insert(song.id, song);
    assert forall|k: Seq<char>| #[trigger] m.contains_key(k) implies m[k].id == k by {
        if k != song.id {
            assert(lib@.contains_key(k));
        }
    }
}

} // verus!
