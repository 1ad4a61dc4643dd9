//! Turning the tags and audio properties read from a music file into a song
//! record: the song's identity, the mandatory tags, the defaults for missing
//! properties, and the collection of the remaining tag items.

use vstd::prelude::*;
use std::hash::Hasher;
use rustc_hash::FxHasher;
use std::io::Cursor;
use lofty::{Accessor, AudioFile, FileType, ItemKey, Probe, TaggedFile, TaggedFileExt};
use crate::song::{Metadata, SongEntry, SongView};
use crate::text::{decimal, decimal_value, lemma_decimal_roundtrip, u64_to_decimal, concat_strs};

verus! {

/// One tag item: its key, as named for the tag's format, and its text. Either
/// may be absent (an unknown key, or a binary value).
#[derive(Debug)]
pub struct TagItem {
    pub key: Option<String>,
    pub value: Option<String>,
}

impl View for TagItem {
    type V = (Option<Seq<char>>, Option<Seq<char>>);

    open spec fn view(&self) -> (Option<Seq<char>>, Option<Seq<char>>) {
        (opt_view(self.key), opt_view(self.value))
    }
}

/// What the library reads of a file's primary tag.
#[derive(Debug)]
pub struct TagInfo {
    pub title: Option<String>,
    pub artist: Option<String>,
    pub album: Option<String>,
    pub year: Option<u32>,
    /// The MusicBrainz track id, when the tag has one.
    pub track_id: Option<String>,
    /// All items of the tag, in tag order.
    pub items: Vec<TagItem>,
    /// The data of the tag's first picture, when it has one.
    pub first_picture: Option<Vec<u8>>,
}

/// The abstract content of what is read of a primary tag.
pub struct TagInfoView {
    pub title: Option<Seq<char>>,
    pub artist: Option<Seq<char>>,
    pub album: Option<Seq<char>>,
    pub year: Option<u32>,
    pub track_id: Option<Seq<char>>,
    pub items: Seq<(Option<Seq<char>>, Option<Seq<char>>)>,
    pub first_picture: Option<Seq<u8>>,
}

impl View for TagInfo {
    type V = TagInfoView;

    open spec fn view(&self) -> TagInfoView {
        TagInfoView {
            title: opt_view(self.title),
            artist: opt_view(self.artist),
            album: opt_view(self.album),
            year: self.year,
            track_id: opt_view(self.track_id),
            items: self.items@.map_values(|i: TagItem| i@),
            first_picture: match self.first_picture {
                Some(p) => Some(p@),
                None => None,
            },
        }
    }
}

/// The audio properties of a file that a song record keeps.
#[derive(Debug, Clone, Copy)]
pub struct AudioProps {
    /// Length of the track in whole seconds.
    pub duration_secs: u64,
    pub sample_rate: Option<u32>,
    pub bit_rate: Option<u32>,
    pub bit_depth: Option<u8>,
    pub channels: Option<u8>,
}

/// Why a file could not be turned into a song.
#[derive(Debug, PartialEq, Eq)]
pub enum SongFileError {
    /// The file could not be read as tagged audio; the reader's message.
    Unreadable(String),
    MissingPrimaryTag,
    MissingTitle,
    MissingArtist,
    MissingAlbum,
}

impl SongFileError {
    /// The message reported for this error.
    pub fn message(&self) -> (r: String)
        ensures
            self matches SongFileError::Unreadable(m) ==> r@ == m@,
            *self == SongFileError::MissingPrimaryTag ==> r@ == "unable to read primary tag"@,
            *self == SongFileError::MissingTitle ==> r@ == "unable to read title"@,
            *self == SongFileError::MissingArtist ==> r@ == "unable to read artist"@,
            *self == SongFileError::MissingAlbum ==> r@ == "unable to read album"@,
    {
        match self {
            SongFileError::Unreadable(m) => m.clone(),
            SongFileError::MissingPrimaryTag => String::from_str("unable to read primary tag"),
            SongFileError::MissingTitle => String::from_str("unable to read title"),
            SongFileError::MissingArtist => String::from_str("unable to read artist"),
            SongFileError::MissingAlbum => String::from_str("unable to read album"),
        }
    }
}

/// The text of an optional string.
pub open spec fn opt_view(o: Option<String>) -> Option<Seq<char>> {
    match o {
        Some(s) => Some(s@),
        None => None,
    }
}

/// The metadata that a list of tag items gives: every item with both a key
/// and a text, put in from first to last, so that a later item replaces an
/// earlier one with the same key.
pub open spec fn metadata_of(items: Seq<(Option<Seq<char>>, Option<Seq<char>>)>) -> Map<Seq<char>, Seq<char>>
    decreases items.len(),
{
    if items.len() == 0 {
        Map::empty()
    } else {
        let m = metadata_of(items.drop_last());
        let it = items.last();
        match (it.0, it.1) {
            (Some(k), Some(v)) => m.insert(k, v),
            _ => m,
        }
    }
}

/// The song record that tags and properties give, with the given file
/// location and id, when title, artist and album are all present.
pub open spec fn song_spec(tag: TagInfoView, props: AudioProps, path: Seq<char>, id: Seq<char>) -> SongView {
    SongView {
        id: id,
        title: tag.title.unwrap(),
        artist: tag.artist.unwrap(),
        album: tag.album.unwrap(),
        duration: props.duration_secs,
        sample_rate: props.sample_rate.unwrap_or(0),
        bit_rate: props.bit_rate.unwrap_or(0),
        bit_depth: props.bit_depth.unwrap_or(0) as u16,
        channels: props.channels.unwrap_or(0) as u16,
        year: (tag.year.unwrap_or(0) % 0x10000) as u16,
        path: path,
        metadata: metadata_of(tag.items),
    }
}

/// What building a song from these tags gives: the first missing one of
/// title, artist and album (in that order) is the error; otherwise the song.
pub open spec fn song_outcome(tag: TagInfoView, props: AudioProps, path: Seq<char>, id: Seq<char>) -> Result<SongView, SongFileError> {
    if tag.title is None {
        Err(SongFileError::MissingTitle)
    } else if tag.artist is None {
        Err(SongFileError::MissingArtist)
    } else if tag.album is None {
        Err(SongFileError::MissingAlbum)
    } else {
        Ok(song_spec(tag, props, path, id))
    }
}

/// The abstract content of a song result.
pub open spec fn song_result_view(r: Result<SongEntry, SongFileError>) -> Result<SongView, SongFileError> {
    match r {
        Ok(e) => Ok(e@),
        Err(e) => Err(e),
    }
}

fn clone_opt_string(o: &Option<String>) -> (r: Option<String>)
    ensures
        opt_view(r) == opt_view(*o),
{
    match o {
        Some(s) => Some(s.clone()),
        None => None,
    }
}

/// Builds the song record of a file from its tags and properties.
///
/// Title, artist and album are required, and are checked in that order; the
/// numeric properties default to 0 when the file does not give them; the
/// year is cut to 16 bits as an `as u16` cast does; the metadata holds the
/// tag items that have both a key and a text.
pub fn create_song_entry(tag: &TagInfo, props: &AudioProps, path: String, id: String) -> (r: Result<SongEntry, SongFileError>)
    ensures
        song_result_view(r) == song_outcome(tag@, *props, path@, id@),
{
    let title = match &tag.title {
        Some(t) => t.clone(),
        None => return Err(SongFileError::MissingTitle),
    };
    let artist = match &tag.artist {
        Some(a) => a.clone(),
        None => return Err(SongFileError::MissingArtist),
    };
    let album = match &tag.album {
        Some(a) => a.clone(),
        None => return Err(SongFileError::MissingAlbum),
    };
    let mut metadata = Metadata::new();
    let mut i: usize = 0;
    while i < tag.items.len()
        invariant
            i <= tag.items.len(),
            metadata@ == metadata_of(tag@.items.take(i as int)),
        decreases tag.items.len() - i,
    {
        let item = &tag.items[i];
        proof {
            assert(tag@.items.take(i + 1).drop_last() =~= tag@.items.take(i as int));
            assert(tag@.items.take(i + 1).last() == tag.items@[i as int]@);
        }
        match (&item.key, &item.value) {
            (Some(k), Some(v)) => {
                metadata.insert(k.clone(), v.clone());
            },
            _ => {},
        }
        i = i + 1;
    }
    assert(tag@.items.take(i as int) =~= tag@.items);
    let year = match tag.year {
        Some(y) => (y % 0x10000) as u16,
        None => 0,
    };
    let sample_rate = match props.sample_rate {
        Some(v) => v,
        None => 0,
    };
    let bit_rate = match props.bit_rate {
        Some(v) => v,
        None => 0,
    };
    let bit_depth: u16 = match props.bit_depth {
        Some(v) => v as u16,
        None => 0,
    };
    let channels: u16 = match props.channels {
        Some(v) => v as u16,
        None => 0,
    };
    Ok(SongEntry {
        id,
        title,
        artist,
        album,
        duration: props.duration_secs,
        sample_rate,
        bit_rate,
        bit_depth,
        channels,
        year,
        path,
        metadata,
    })
}

/// The id given to a song without a MusicBrainz track id, from the hash of
/// its file location: "mmp." followed by the hash in decimal.
pub open spec fn fallback_id(hash: u64) -> Seq<char> {
    "mmp."@ + decimal(hash as nat)
}

/// Two file locations whose hashes differ give songs different fallback
/// ids, and the hash can be read back from the id.
pub proof fn law_fallback_id_injective(h1: u64, h2: u64)
    ensures
        fallback_id(h1) == fallback_id(h2) ==> h1 == h2,
        decimal_value(fallback_id(h1).skip(4)) == h1,
{
    reveal_strlit("mmp.");
    lemma_decimal_roundtrip(h1 as nat);
    lemma_decimal_roundtrip(h2 as nat);
    assert(fallback_id(h1).skip(4) =~= decimal(h1 as nat));
    assert(fallback_id(h2).skip(4) =~= decimal(h2 as nat));
}

/// The value of a default `FxHasher` fed `bytes`, on a machine whose word
/// has `word_bits` bits and whose byte order is little-endian or not.
pub uninterp spec fn fx_hash_value(bytes: Seq<u8>, word_bits: nat, little_endian: bool) -> u64;

/// Trusted: `rustc_hash::FxHasher`. A default `FxHasher` is fed `bytes` with
/// `Hasher::write` and its `finish` is returned, together with whether this
/// machine is little-endian (`u16::from_ne_bytes`). The hasher reads the bytes
/// in words of the machine's size and byte order, so its value is named over
/// both; feeding no bytes leaves its initial value, 0.
#[verifier::external_body]
fn fx_hash(bytes: &[u8]) -> (r: (u64, bool))
    ensures
        r.0 == fx_hash_value(bytes@, usize::BITS as nat, r.1),
        bytes@.len() == 0 ==> r.0 == 0,
{
    let mut hasher = FxHasher::default();
    hasher.write(bytes);
    (hasher.finish(), u16::from_ne_bytes([1, 0]) == 1)
}

/// The id of a song whose file location hashes to `hash`.
pub fn id_from_hash(hash: u64) -> (r: String)
    ensures
        r@ == fallback_id(hash),
{
    proof {
        reveal_strlit("mmp.");
    }
    let digits = u64_to_decimal(hash);
    concat_strs("mmp.", digits.as_str())
}

/// The ids a song may get from its tag and the bytes of its file location:
/// the tag's MusicBrainz track id when there is one, otherwise the fallback
/// id of the `FxHasher` value of the location's bytes on this machine (whose
/// byte order is left open), which is "mmp.0" for an empty location.
pub open spec fn is_song_id_for(tag: TagInfoView, fallback: Seq<u8>, id: Seq<char>) -> bool {
    match tag.track_id {
        Some(t) => id == t,
        None => exists|le: bool| #![trigger fx_hash_value(fallback, usize::BITS as nat, le)]
            id == fallback_id(fx_hash_value(fallback, usize::BITS as nat, le)) && (fallback.len() == 0 ==> id == fallback_id(0)),
    }
}

/// The id of a song: its MusicBrainz track id, or else "mmp." followed by the
/// decimal `FxHasher` hash of `fallback` (the bytes of the file location).
pub fn get_id_from_tag(tag: &TagInfo, fallback: &[u8]) -> (r: String)
    ensures
        is_song_id_for(tag@, fallback@, r@),
{
    match &tag.track_id {
        Some(t) => t.clone(),
        None => {
            let (h, le) = fx_hash(fallback);
            let r = id_from_hash(h);
            assert(r@ == fallback_id(fx_hash_value(fallback@, usize::BITS as nat, le)));
            r
        },
    }
}

/// Whether a newly read song's cover picture is written out: only when the
/// caller asked for it and the tag has a picture.
pub fn should_register_cover(requested: Option<bool>, has_picture: bool) -> (r: bool)
    ensures
        r == (requested == Some(true) && has_picture),
{
    let want = match requested {
        Some(b) => b,
        None => false,
    };
    want && has_picture
}

/// A music file as `lofty` read it: its tags and audio properties, seen
/// from here through `tagged_file_tag` and `tagged_file_props`.
#[verifier::external_type_specification]
#[verifier::external_body]
pub struct ExTaggedFile(TaggedFile);

/// What is read of a read file's primary tag, if it has one.
pub uninterp spec fn tagged_file_tag(f: TaggedFile) -> Option<TagInfoView>;

/// What is read of a read file's audio properties.
pub uninterp spec fn tagged_file_props(f: TaggedFile) -> AudioProps;

/// What `lofty` reads from the contents `bytes` of a file named `name`: the
/// reader's error message, or what is read of the file's primary tag (if
/// any) and of its audio properties (see `read_tagged_file`).
pub uninterp spec fn lofty_tags(bytes: Seq<u8>, name: Seq<char>) -> Result<(Option<TagInfoView>, AudioProps), Seq<char>>;

/// The abstract content of an optional tag.
pub open spec fn tag_opt_view(t: Option<TagInfo>) -> Option<TagInfoView> {
    match t {
        Some(x) => Some(x@),
        None => None,
    }
}

/// Trusted: `lofty::Probe::read`, on a probe over the file's contents whose
/// file type is taken from the extension of `name` (`FileType::from_path`,
/// as `Probe::open` does for a path); an unknown extension leaves the type
/// unset, which `read` reports as an unknown format. On success the file's
/// tag and properties (as read by the two accessors below) are what
/// `lofty_tags` names for these contents and this name; on failure the
/// message is. The reading depends on the contents and the name alone (no
/// custom file-type resolvers are registered by this program).
#[verifier::external_body]
fn read_tagged_file(bytes: &[u8], name: &str) -> (r: Result<TaggedFile, String>)
    ensures
        r is Ok <==> lofty_tags(bytes@, name@) is Ok,
        r matches Ok(f) ==> (lofty_tags(bytes@, name@) matches Ok(c) && c.0 == tagged_file_tag(f) && c.1 == tagged_file_props(f)),
        r matches Err(m) ==> (lofty_tags(bytes@, name@) matches Err(e) && e == m@),
{
    let c = Cursor::new(bytes);
    let probe = match FileType::from_path(name) { Some(t) => Probe::with_file_type(c, t), None => Probe::new(c) };
    probe.read().map_err(|e| e.to_string())
}

/// Trusted: `AudioFile::properties` of a read file, with the duration taken
/// in whole seconds (`Duration::as_secs`) and the overall bit rate as the
/// bit rate.
#[verifier::external_body]
fn tagged_file_properties(f: &TaggedFile) -> (p: AudioProps)
    ensures
        p == tagged_file_props(*f),
{
    let p = f.properties();
    AudioProps { duration_secs: p.duration().as_secs(), sample_rate: p.sample_rate(),
        bit_rate: p.overall_bitrate(), bit_depth: p.bit_depth(), channels: p.channels() }
}

/// Trusted: `TaggedFileExt::primary_tag` of a read file, read into the
/// library's record: title, artist, album and year through `Accessor`, the
/// MusicBrainz track id through `Tag::get_string`, every item with its key
/// named for the tag's format (`ItemKey::map_key`, unknown keys kept) and its
/// text (`ItemValue::text`), and the data of the first picture.
#[verifier::external_body]
fn tagged_file_primary_tag(f: &TaggedFile) -> (r: Option<TagInfo>)
    ensures
        tag_opt_view(r) == tagged_file_tag(*f),
{
    f.primary_tag().map(|t| TagInfo {
        title: t.title().map(String::from),
        artist: t.artist().map(String::from),
        album: t.album().map(String::from),
        year: t.year(),
        track_id: t.get_string(&ItemKey::MusicBrainzTrackId).map(String::from),
        items: t.items().map(|i| TagItem {
            key: i.key().map_key(t.tag_type(), true).map(String::from),
            value: i.value().text().map(String::from),
        }).collect(),
        first_picture: t.pictures().first().map(|x| x.data().to_vec()),
    })
}

/// The cover picture to write for a song read with these tags: the data of
/// the tag's first picture, under the song's id, when the caller asked for
/// covers and there is a picture.
pub open spec fn cover_spec(tag: TagInfoView, requested: Option<bool>, id: Seq<char>) -> Option<(Seq<char>, Seq<u8>)> {
    if requested == Some(true) {
        match tag.first_picture {
            Some(p) => Some((id, p)),
            None => None,
        }
    } else {
        None
    }
}

/// The abstract content of a cover to write.
pub open spec fn cover_view(c: Option<(String, Vec<u8>)>) -> Option<(Seq<char>, Seq<u8>)> {
    match c {
        Some(x) => Some((x.0@, x.1@)),
        None => None,
    }
}

/// Builds the song of a music file from its contents: reads the file's tags
/// and audio properties, gives the song its id (see `get_id_from_tag`, from
/// the bytes of the file's location `path_bytes`) and builds the record (see
/// `create_song_entry`). Also gives back the cover picture to write, with
/// the song's id, when `requested` asks for covers and the tag has a
/// picture; the cover is given even when the song cannot be built from the
/// tag.
pub fn song_from_bytes(bytes: &[u8], path: String, path_bytes: &[u8], requested: Option<bool>) -> (r: (Result<SongEntry, SongFileError>, Option<(String, Vec<u8>)>))
    ensures
        lofty_tags(bytes@, path@) matches Err(msg) ==> (r.0 matches Err(SongFileError::Unreadable(m)) && m@ == msg),
        lofty_tags(bytes@, path@) is Err ==> r.1 is None,
        lofty_tags(bytes@, path@) matches Ok(c) && c.0 is None ==> (r.0 matches Err(SongFileError::MissingPrimaryTag) && r.1 is None),
        lofty_tags(bytes@, path@) matches Ok(c) ==> (c.0 matches Some(t) ==> exists|id: Seq<char>|
            is_song_id_for(t, path_bytes@, id) && song_result_view(r.0) == #[trigger] song_outcome(t, c.1, path@, id)
                && cover_view(r.1) == cover_spec(t, requested, id)),
{
    match read_tagged_file(bytes, path.as_str()) {
        Err(msg) => (Err(SongFileError::Unreadable(msg)), None),
        Ok(file) => {
            let props = tagged_file_properties(&file);
            match tagged_file_primary_tag(&file) {
                None => (Err(SongFileError::MissingPrimaryTag), None),
                Some(tag) => {
                    let ghost tv = tag@;
                    let id = get_id_from_tag(&tag, path_bytes);
                    let ghost idv = id@;
                    let want = should_register_cover(requested, tag.first_picture.is_some());
                    let cover_id = id.clone();
                    let song = create_song_entry(&tag, &props, path, id);
                    let cover = if want {
                        match tag.first_picture {
                            Some(p) => Some((cover_id, p)),
                            None => None,
                        }
                    } else {
                        None
                    };
                    let r = (song, cover);
                    proof {
                        let c = lofty_tags(bytes@, path@)->Ok_0;
                        assert(c.0 == Some(tv) && c.1 == props);
                        assert(is_song_id_for(tv, path_bytes@, idv) && song_result_view(r.0) == song_outcome(tv, props, path@, idv)
                            && cover_view(r.1) == cover_spec(tv, requested, idv));
                    }
                    r
                },
            }
        },
    }
}


/// A file's song record is built exactly when its tag has a title, an
/// artist and an album; it then carries the given id and location, the tag's
/// title, artist and album, and the file's own audio properties: its length,
/// and its sample rate, bit rate, bit depth and channel count, each 0 only
/// when the file does not report it.
pub proof fn law_song_record_from_file(tag: TagInfoView, props: AudioProps, path: Seq<char>, id: Seq<char>)
    ensures
        song_outcome(tag, props, path, id) is Ok <==> (tag.title is Some && tag.artist is Some && tag.album is Some),
        song_outcome(tag, props, path, id) matches Ok(s) ==> {
            &&& s.id == id
            &&& s.path == path
            &&& Some(s.title) == tag.title
            &&& Some(s.artist) == tag.artist
            &&& Some(s.album) == tag.album
            &&& s.duration == props.duration_secs
            &&& (props.sample_rate matches Some(v) ==> s.sample_rate == v)
            &&& (props.sample_rate is None ==> s.sample_rate == 0)
            &&& (props.bit_rate matches Some(v) ==> s.bit_rate == v)
            &&& (props.bit_rate is None ==> s.bit_rate == 0)
            &&& (props.bit_depth matches Some(v) ==> s.bit_depth == v)
            &&& (props.bit_depth is None ==> s.bit_depth == 0)
            &&& (props.channels matches Some(v) ==> s.channels == v)
            &&& (props.channels is None ==> s.channels == 0)
        },
{
}

/// A song's id is its tag's MusicBrainz track id when it has one; otherwise
/// it is "mmp." followed by the decimal `FxHasher` value of all the bytes of
/// its file location (on this machine's byte order), so the hash of the
/// whole location can be read back from the id.
pub proof fn law_song_id_from_location(tag: TagInfoView, fallback: Seq<u8>, id: Seq<char>)
    requires
        is_song_id_for(tag, fallback, id),
    ensures
        tag.track_id matches Some(t) ==> id == t,
        tag.track_id is None ==> id.take(4) == "mmp."@ && exists|le: bool|
            decimal_value(id.skip(4)) == #[trigger] fx_hash_value(fallback, usize::BITS as nat, le),
{
    if tag.track_id is None {
        let le = choose|le: bool| #![trigger fx_hash_value(fallback, usize::BITS as nat, le)]
            id == fallback_id(fx_hash_value(fallback, usize::BITS as nat, le)) && (fallback.len() == 0 ==> id == fallback_id(0));
        let h = fx_hash_value(fallback, usize::BITS as nat, le);
        law_fallback_id_injective(h, h);
        reveal_strlit("mmp.");
        assert(id.take(4) =~= "mmp."@);
    }
}

} // verus!
