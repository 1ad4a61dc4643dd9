//! The song record shared by the server and its clients, with its free-form
//! metadata map, and the small request and argument records.

use vstd::prelude::*;

verus! {

/// The map that a list of key/value pairs denotes when the pairs are put in
/// one after the other: a later pair with the same key replaces an earlier one.
pub open spec fn pairs_map(s: Seq<(Seq<char>, Seq<char>)>) -> Map<Seq<char>, Seq<char>>
    decreases s.len(),
{
    if s.len() == 0 {
        Map::empty()
    } else {
        pairs_map(s.drop_last()).insert(s.last().0, s.last().1)
    }
}

/// The pairs of a list of owned string pairs, as character sequences.
pub open spec fn pairs_view(s: Seq<(String, String)>) -> Seq<(Seq<char>, Seq<char>)> {
    s.map_values(|p: (String, String)| (p.0@, p.1@))
}

/// Looking a key up in `pairs_map(s)` only depends on the pairs from the
/// last one with that key onward; if no pair at or after `i` has the key,
/// the lookup is the same as in the first `i` pairs.
pub proof fn lemma_pairs_map_prefix(s: Seq<(Seq<char>, Seq<char>)>, i: int, k: Seq<char>)
    requires
        0 <= i <= s.len(),
        forall|j: int| i <= j < s.len() ==> #[trigger] s[j].0 != k,
    ensures
        pairs_map(s).get(k) == pairs_map(s.take(i)).get(k),
    decreases s.len(),
{
    if i == s.len() {
        assert(s.take(i) =~= s);
    } else {
        let t = s.drop_last();
        assert(t.take(i) =~= s.take(i));
        lemma_pairs_map_prefix(t, i, k);
    }
}

/// A key maps to the value of the last pair that has it, and a key that no
/// pair has is absent: filling a map pair by pair keeps, for each key, the
/// value put in last.
pub proof fn law_pairs_map_last_wins(s: Seq<(Seq<char>, Seq<char>)>, k: Seq<char>)
    ensures
        forall|i: int| 0 <= i < s.len() && #[trigger] s[i].0 == k
            && (forall|j: int| i < j < s.len() ==> s[j].0 != k)
            ==> pairs_map(s).get(k) == Some(s[i].1),
        (forall|i: int| 0 <= i < s.len() ==> #[trigger] s[i].0 != k) ==> pairs_map(s).get(k) is None,
{
    assert forall|i: int| 0 <= i < s.len() && #[trigger] s[i].0 == k
        && (forall|j: int| i < j < s.len() ==> s[j].0 != k)
        implies pairs_map(s).get(k) == Some(s[i].1) by {
        assert forall|j: int| i + 1 <= j < s.len() implies #[trigger] s[j].0 != k by {}
        lemma_pairs_map_prefix(s, i + 1, k);
        let t = s.take(i + 1);
        assert(t.last() == s[i]);
    }
    if forall|i: int| 0 <= i < s.len() ==> #[trigger] s[i].0 != k {
        lemma_pairs_map_prefix(s, 0, k);
        assert(s.take(0) =~= Seq::<(Seq<char>, Seq<char>)>::empty());
    }
}

/// Free-form tag metadata of a song: a map from tag key to tag text.
///
/// The pairs are kept in the order they were added; a key that was added
/// more than once maps to the value added last, as in a hash map that is
/// filled in that order.
#[derive(Debug)]
pub struct Metadata {
    entries: Vec<(String, String)>,
}

impl View for Metadata {
    type V = Map<Seq<char>, Seq<char>>;

    closed spec fn view(&self) -> Map<Seq<char>, Seq<char>> {
        pairs_map(pairs_view(self.entries@))
    }
}

impl Metadata {
    /// Metadata with no keys.
    pub fn new() -> (m: Metadata)
        ensures
            m@ == Map::<Seq<char>, Seq<char>>::empty(),
    {
        let m = Metadata { entries: Vec::new() };
        assert(pairs_view(m.entries@) =~= Seq::empty());
        m
    }

    /// Sets `key` to `value`, replacing any value the key had.
    pub fn insert(&mut self, key: String, value: String)
        ensures
            final(self)@ == old(self)@.insert(key@, value@),
    {
        let ghost k = key@;
        let ghost v = value@;
        self.entries.push((key, value));
        assert(pairs_view(self.entries@).drop_last() =~= pairs_view(old(self).entries@));
        assert(pairs_view(self.entries@).last() == (k, v));
    }

    /// Metadata holding the given pairs, put in from first to last.
    pub fn from_pairs(pairs: Vec<(String, String)>) -> (m: Metadata)
        ensures
            m@ == pairs_map(pairs_view(pairs@)),
    {
        let m = Metadata { entries: pairs };
        m
    }

    /// The text stored under `key`, if any.
    pub fn get(&self, key: &str) -> (r: Option<String>)
        ensures
            r matches Some(v) ==> self@.get(key@) == Some(v@),
            r is None ==> self@.get(key@) is None,
    {
        let ghost s = pairs_view(self.entries@);
        let k = String::from_str(key);
        let mut i = self.entries.len();
        while i > 0
            invariant
                i <= self.entries.len(),
                s == pairs_view(self.entries@),
                k@ == key@,
                forall|j: int| i <= j < s.len() ==> #[trigger] s[j].0 != key@,
            decreases i,
        {
            let idx = i - 1;
            if self.entries[idx].0 == k {
                proof {
                    lemma_pairs_map_prefix(s, i as int, key@);
                    let t = s.take(i as int);
                    assert(t.drop_last() =~= s.take(idx as int));
                    assert(t.last() == s[idx as int]);
                }
                return Some(self.entries[idx].1.clone());
            }
            i = idx;
        }
        proof {
            lemma_pairs_map_prefix(s, 0, key@);
            assert(s.take(0) =~= Seq::<(Seq<char>, Seq<char>)>::empty());
        }
        None
    }

    /// The stored pairs, in the order they were added. Putting them into a
    /// map from first to last gives back this metadata.
    pub fn pairs(&self) -> (r: Vec<(String, String)>)
        ensures
            pairs_map(pairs_view(r@)) == self@,
    {
        let mut r: Vec<(String, String)> = Vec::new();
        let mut i: usize = 0;
        while i < self.entries.len()
            invariant
                i <= self.entries.len(),
                r@.len() == i,
                pairs_view(r@) == pairs_view(self.entries@).take(i as int),
            decreases self.entries.len() - i,
        {
            let k = self.entries[i].0.clone();
            let v = self.entries[i].1.clone();
            let ghost old_r = r@;
            r.push((k, v));
            assert(r@[i as int] == self.entries@[i as int]);
            assert forall|j: int| 0 <= j < i + 1 implies #[trigger] pairs_view(r@)[j] == pairs_view(self.entries@).take(i + 1)[j] by {
                if j < i {
                    assert(r@[j] == old_r[j]);
                    assert(pairs_view(old_r)[j] == pairs_view(self.entries@).take(i as int)[j]);
                }
            }
            assert(pairs_view(r@) =~= pairs_view(self.entries@).take(i + 1));
            i = i + 1;
        }
        assert(pairs_view(self.entries@).take(i as int) =~= pairs_view(self.entries@));
        r
    }

    /// A copy with the same contents.
    pub fn duplicate(&self) -> (r: Metadata)
        ensures
            r@ == self@,
    {
        let p = self.pairs();
        Metadata::from_pairs(p)
    }
}

/// The abstract content of a song record.
pub struct SongView {
    pub id: Seq<char>,
    pub title: Seq<char>,
    pub artist: Seq<char>,
    pub album: Seq<char>,
    pub duration: u64,
    pub sample_rate: u32,
    pub bit_rate: u32,
    pub bit_depth: u16,
    pub channels: u16,
    pub year: u16,
    pub path: Seq<char>,
    pub metadata: Map<Seq<char>, Seq<char>>,
}

/// One song of the music library: its identity, its tags, the audio
/// properties of its file, where the file lies, and the remaining tag items.
#[derive(Debug)]
pub struct SongEntry {
    pub id: String,
    pub title: String,
    pub artist: String,
    pub album: String,
    /// Length of the track in whole seconds.
    pub duration: u64,
    pub sample_rate: u32,
    pub bit_rate: u32,
    pub bit_depth: u16,
    pub channels: u16,
    pub year: u16,
    /// Location of the audio file.
    pub path: String,
    pub metadata: Metadata,
}

impl View for SongEntry {
    type V = SongView;

    open spec fn view(&self) -> SongView {
        SongView {
            id: self.id@,
            title: self.title@,
            artist: self.artist@,
            album: self.album@,
            duration: self.duration,
            sample_rate: self.sample_rate,
            bit_rate: self.bit_rate,
            bit_depth: self.bit_depth,
            channels: self.channels,
            year: self.year,
            path: self.path@,
            metadata: self.metadata@,
        }
    }
}

impl Clone for SongEntry {
    fn clone(&self) -> (r: SongEntry)
        ensures
            r@ == self@,
    {
        SongEntry {
            id: self.id.clone(),
            title: self.title.clone(),
            artist: self.artist.clone(),
            album: self.album.clone(),
            duration: self.duration,
            sample_rate: self.sample_rate,
            bit_rate: self.bit_rate,
            bit_depth: self.bit_depth,
            channels: self.channels,
            year: self.year,
            path: self.path.clone(),
            metadata: self.metadata.duplicate(),
        }
    }
}

/// A free-text song search request.
#[derive(Debug)]
pub struct SearchSongQuery {
    pub query: String,
}

/// Where the server finds the music and where it keeps its own data.
#[derive(Debug)]
pub struct ServerArgs {
    pub music_folder: String,
    pub data_dir: String,
}

} // verus!
