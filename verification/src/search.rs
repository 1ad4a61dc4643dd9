//! The layout of the song search index, what is put into it for each song,
//! and how search hits are turned back into songs.

use vstd::prelude::*;
use crate::song::{SongEntry, SongView};
use crate::library::MusicLibrary;
use tantivy::{collector::TopDocs, query::{Query, QueryParser}, DocAddress, Index, Searcher};

verus! {

/// The fields of a song's search document.
#[derive(Debug, PartialEq, Eq, Structural, Clone, Copy)]
pub enum SearchField {
    SongId,
    SongTitle,
    SongArtist,
    SongAlbum,
    SongMetadata,
}

/// The name of a field in the index schema.
pub open spec fn field_name(f: SearchField) -> Seq<char> {
    match f {
        SearchField::SongId => "song_id"@,
        SearchField::SongTitle => "song_title"@,
        SearchField::SongArtist => "song_artist"@,
        SearchField::SongAlbum => "song_album"@,
        SearchField::SongMetadata => "song_metadata"@,
    }
}

impl SearchField {
    /// The name of this field in the index schema.
    pub fn name(&self) -> (r: &'static str)
        ensures
            r@ == field_name(*self),
    {
        match self {
            SearchField::SongId => "song_id",
            SearchField::SongTitle => "song_title",
            SearchField::SongArtist => "song_artist",
            SearchField::SongAlbum => "song_album",
            SearchField::SongMetadata => "song_metadata",
        }
    }
}

/// How a field's values are read in.
#[derive(Debug, PartialEq, Eq, Structural, Clone, Copy)]
pub enum FieldKind {
    /// Free text, split into words.
    Text,
    /// A JSON object.
    Json,
}

/// One field of the index schema.
#[derive(Debug, PartialEq, Eq, Structural, Clone, Copy)]
pub struct FieldSpec {
    pub field: SearchField,
    pub kind: FieldKind,
    /// The field can be searched.
    pub indexed: bool,
    /// The field's value is kept and can be read back from a hit.
    pub stored: bool,
}

/// The schema of the song index: the id is searchable and stored (a hit is
/// mapped back to its song by it); title, artist and album are searchable
/// only; the metadata object is stored only.
pub open spec fn search_schema() -> Seq<FieldSpec> {
    seq![
        FieldSpec { field: SearchField::SongId, kind: FieldKind::Text, indexed: true, stored: true },
        FieldSpec { field: SearchField::SongTitle, kind: FieldKind::Text, indexed: true, stored: false },
        FieldSpec { field: SearchField::SongArtist, kind: FieldKind::Text, indexed: true, stored: false },
        FieldSpec { field: SearchField::SongAlbum, kind: FieldKind::Text, indexed: true, stored: false },
        FieldSpec { field: SearchField::SongMetadata, kind: FieldKind::Json, indexed: false, stored: true },
    ]
}

/// The fields of the song index schema, in the order they are declared.
pub fn schema_fields() -> (r: Vec<FieldSpec>)
    ensures
        r@ == search_schema(),
{
    let mut r: Vec<FieldSpec> = Vec::new();
    r.push(FieldSpec { field: SearchField::SongId, kind: FieldKind::Text, indexed: true, stored: true });
    r.push(FieldSpec { field: SearchField::SongTitle, kind: FieldKind::Text, indexed: true, stored: false });
    r.push(FieldSpec { field: SearchField::SongArtist, kind: FieldKind::Text, indexed: true, stored: false });
    r.push(FieldSpec { field: SearchField::SongAlbum, kind: FieldKind::Text, indexed: true, stored: false });
    r.push(FieldSpec { field: SearchField::SongMetadata, kind: FieldKind::Json, indexed: false, stored: true });
    assert(r@ =~= search_schema());
    r
}

/// The text fields of a song's search document, with their values: its id,
/// title, artist and album.
pub open spec fn index_text_spec(s: SongView) -> Seq<(SearchField, Seq<char>)> {
    seq![
        (SearchField::SongId, s.id),
        (SearchField::SongTitle, s.title),
        (SearchField::SongArtist, s.artist),
        (SearchField::SongAlbum, s.album),
    ]
}

/// The text fields and values to put in the search document of `song`.
pub fn index_text_fields(song: &SongEntry) -> (r: Vec<(SearchField, String)>)
    ensures
        r@.map_values(|p: (SearchField, String)| (p.0, p.1@)) == index_text_spec(song@),
{
    let mut r: Vec<(SearchField, String)> = Vec::new();
    r.push((SearchField::SongId, song.id.clone()));
    r.push((SearchField::SongTitle, song.title.clone()));
    r.push((SearchField::SongArtist, song.artist.clone()));
    r.push((SearchField::SongAlbum, song.album.clone()));
    assert(r@.map_values(|p: (SearchField, String)| (p.0, p.1@)) =~= index_text_spec(song@));
    r
}

/// A song is added to the index only when a search for its id found no
/// document; when the search failed (`None`) or found one, it is left out.
pub fn needs_indexing(existing: Option<usize>) -> (r: bool)
    ensures
        r == (existing == Some(0usize)),
{
    match existing {
        Some(n) => n == 0,
        None => false,
    }
}

/// The fields a free-text song search looks in: title, artist and album.
pub open spec fn song_query_spec() -> Seq<SearchField> {
    seq![SearchField::SongTitle, SearchField::SongArtist, SearchField::SongAlbum]
}

/// The fields that a song search looks in.
pub fn song_query_fields() -> (r: Vec<SearchField>)
    ensures
        r@ == song_query_spec(),
{
    let mut r: Vec<SearchField> = Vec::new();
    r.push(SearchField::SongTitle);
    r.push(SearchField::SongArtist);
    r.push(SearchField::SongAlbum);
    assert(r@ =~= song_query_spec());
    r
}

/// The field in which a search also accepts words that are close to, not
/// equal to, the words asked for.
pub const FUZZY_FIELD: SearchField = SearchField::SongTitle;

/// How many edits a word of the title may be away from a word asked for.
pub const TITLE_FUZZY_DISTANCE: u8 = 2;

/// How many hits a search gives back at most.
pub const SEARCH_RESULT_LIMIT: usize = 10;

/// Why a song search gave no songs.
#[derive(Debug, PartialEq, Eq, Structural, Clone, Copy)]
pub enum SearchError {
    /// The query did not parse, or the index could not be searched or read:
    /// the HTTP status answered.
    Status(u16),
    /// A hit's stored document has no song id.
    MissingStoredId,
    /// A hit names a song that the library does not have.
    UnknownSong,
}

/// What reading one hit's stored song id gave: `None` when the read failed,
/// otherwise the id, if the document has one.
pub open spec fn hit_view(h: Result<Option<String>, String>) -> Option<Option<Seq<char>>> {
    match h {
        Ok(Some(id)) => Some(Some(id@)),
        Ok(None) => Some(None),
        Err(_) => None,
    }
}

/// The answer to a search whose hits read as `hits`, in hit order: the
/// first hit that fails decides the error (its read failed: a server error;
/// it has no stored id; or the library lacks its song); when none fails, the
/// songs of the hits, in hit order.
pub open spec fn hits_outcome(lib: Map<Seq<char>, SongView>, hits: Seq<Option<Option<Seq<char>>>>) -> Result<Seq<SongView>, SearchError>
    decreases hits.len(),
{
    if hits.len() == 0 {
        Ok(Seq::empty())
    } else {
        match hits_outcome(lib, hits.drop_last()) {
            Err(e) => Err(e),
            Ok(songs) => match hits.last() {
                None => Err(SearchError::Status(500)),
                Some(None) => Err(SearchError::MissingStoredId),
                Some(Some(id)) => if lib.contains_key(id) {
                    Ok(songs.push(lib[id]))
                } else {
                    Err(SearchError::UnknownSong)
                },
            },
        }
    }
}

/// Once a prefix of the hits fails, the whole list fails the same way.
proof fn lemma_hits_outcome_err(lib: Map<Seq<char>, SongView>, hits: Seq<Option<Option<Seq<char>>>>, j: int)
    requires
        0 <= j <= hits.len(),
        hits_outcome(lib, hits.take(j)) is Err,
    ensures
        hits_outcome(lib, hits) == hits_outcome(lib, hits.take(j)),
    decreases hits.len() - j,
{
    if j < hits.len() {
        let t = hits.take(j + 1);
        assert(t.drop_last() =~= hits.take(j));
        lemma_hits_outcome_err(lib, hits, j + 1);
    } else {
        assert(hits.take(j) =~= hits);
    }
}

/// The abstract content of a search answer.
pub open spec fn songs_result_view(r: Result<Vec<SongEntry>, SearchError>) -> Result<Seq<SongView>, SearchError> {
    match r {
        Ok(v) => Ok(v@.map_values(|s: SongEntry| s@)),
        Err(e) => Err(e),
    }
}

/// The songs of a list of search hits, in hit order (see `hits_outcome`).
pub fn songs_for_hits(lib: &MusicLibrary, hits: &Vec<Result<Option<String>, String>>) -> (r: Result<Vec<SongEntry>, SearchError>)
    ensures
        songs_result_view(r) == hits_outcome(lib@, hits@.map_values(|h: Result<Option<String>, String>| hit_view(h))),
{
    proof {
        use_type_invariant(lib);
    }
    let ghost all = hits@.map_values(|h: Result<Option<String>, String>| hit_view(h));
    let mut songs: Vec<SongEntry> = Vec::new();
    let mut i: usize = 0;
    assert(all.take(0) =~= Seq::<Option<Option<Seq<char>>>>::empty());
    assert(songs@.map_values(|s: SongEntry| s@) =~= Seq::<SongView>::empty());
    while i < hits.len()
        invariant
            i <= hits@.len(),
            all == hits@.map_values(|h: Result<Option<String>, String>| hit_view(h)),
            songs@.len() == i,
            lib.wf(),
            hits_outcome(lib@, all.take(i as int)) == Ok::<Seq<SongView>, SearchError>(songs@.map_values(|s: SongEntry| s@)),
        decreases hits@.len() - i,
    {
        let ghost t = all.take(i + 1);
        proof {
            assert(t.drop_last() =~= all.take(i as int));
            assert(t.last() == hit_view(hits@[i as int]));
        }
        let step: Result<SongEntry, SearchError> = match &hits[i] {
            Err(_) => Err(SearchError::Status(500)),
            Ok(None) => Err(SearchError::MissingStoredId),
            Ok(Some(id)) => match lib.get_song(id.as_str()) {
                Some(s) => Ok(s),
                None => Err(SearchError::UnknownSong),
            },
        };
        match step {
            Err(e) => {
                proof {
                    lemma_hits_outcome_err(lib@, all, i + 1);
                }
                return Err(e);
            },
            Ok(s) => {
                let ghost before = songs@;
                songs.push(s);
                proof {
                    assert(songs@.map_values(|x: SongEntry| x@) =~= before.map_values(|x: SongEntry| x@).push(songs@[i as int]@));
                }
            },
        }
        i = i + 1;
    }
    assert(all.take(i as int) =~= all);
    Ok(songs)
}

/// The names of the fields a song search looks in.
pub open spec fn song_query_names() -> Seq<Seq<char>> {
    song_query_spec().map_values(|f: SearchField| field_name(f))
}

/// A search index on disk, opened by `tantivy`.
#[verifier::external_type_specification]
#[verifier::external_body]
pub struct ExIndex(Index);

/// A searcher over a loaded version of the index.
#[verifier::external_type_specification]
#[verifier::external_body]
pub struct ExSearcher(Searcher);

/// A parsed search query, ready to run on the index; its view is what it was
/// parsed from (`song_query_source`).
#[verifier::external_body]
pub struct SongQuery {
    query: Box<dyn Query>,
}

/// What a search query is parsed from: the default fields (by name), the
/// field whose words match fuzzily, how many edits away they may be, and the
/// query text.
pub struct QuerySource {
    pub fields: Seq<Seq<char>>,
    pub fuzzy: Seq<char>,
    pub distance: u8,
    pub text: Seq<char>,
}

/// The source with these parts.
pub open spec fn query_source(fields: Seq<Seq<char>>, fuzzy: Seq<char>, distance: u8, text: Seq<char>) -> QuerySource {
    QuerySource { fields, fuzzy, distance, text }
}

/// What a parsed query was parsed from.
pub uninterp spec fn song_query_source(q: SongQuery) -> QuerySource;

impl View for SongQuery {
    type V = QuerySource;

    /// A parsed query is seen as what it was parsed from.
    open spec fn view(&self) -> QuerySource {
        song_query_source(*self)
    }
}

/// Whether `q` parses as a query over the index `ix`, with the default
/// fields named `fields`, and words of the field named `fuzzy` matched up to
/// `distance` edits away.
pub uninterp spec fn song_query_parses(ix: Index, fields: Seq<Seq<char>>, fuzzy: Seq<char>, distance: u8, q: Seq<char>) -> bool;

/// Whether the document `doc` of segment `segment` is one that the searcher
/// holds.
pub uninterp spec fn searcher_holds(s: Searcher, segment: u32, doc: u32) -> bool;

/// Whether `hits` is what searching `s` for the query parsed from `q`, for
/// at most `limit` hits, gave: the hits' addresses in score order, or `None`
/// when the search failed. Nothing more is known of it: the hits depend on
/// the index on disk.
pub uninterp spec fn searched(s: Searcher, q: QuerySource, limit: usize, hits: Option<Seq<(u32, u32)>>) -> bool;

/// Whether `read` is what reading the stored text of the field named `field`
/// of document `doc` of segment `segment` gave: `None` when the read failed,
/// otherwise the text, if the document has one. Nothing more is known of it.
pub uninterp spec fn stored_read(s: Searcher, segment: u32, doc: u32, field: Seq<char>, read: Option<Option<Seq<char>>>) -> bool;

/// Trusted: `QueryParser::for_index` over the index, with the default fields
/// found by name in the index's schema (`Schema::get_field`),
/// `QueryParser::set_field_fuzzy` on the field named `fuzzy` (no prefix
/// match, a transposition costs two edits), then `QueryParser::parse_query`.
/// It gives a query exactly when every field name is in the schema and the
/// text parses; that is named `song_query_parses` (no tokenizer is registered
/// on the index by this program, so the parse depends on these arguments
/// alone). The query given is the parse of these fields, fuzzy field,
/// distance and text.
#[verifier::external_body]
fn parse_song_query(index: &Index, fields: &Vec<&str>, fuzzy: &str, distance: u8, q: &str) -> (r: Option<SongQuery>)
    ensures
        r is Some <==> song_query_parses(*index, fields@.map_values(|f: &str| f@), fuzzy@, distance, q@),
        r matches Some(sq) ==> song_query_source(sq) == query_source(fields@.map_values(|f: &str| f@), fuzzy@, distance, q@),
{
    let schema = index.schema();
    let default_fields = fields.iter().map(|f| schema.get_field(f)).collect::<Result<Vec<_>, _>>().ok()?;
    let fuzzy_field = schema.get_field(fuzzy).ok()?;
    let mut parser = QueryParser::for_index(index, default_fields);
    parser.set_field_fuzzy(fuzzy_field, false, distance, false);
    parser.parse_query(q).ok().map(|query| SongQuery { query })
}

/// The hits of a search, or `None` when it failed.
pub open spec fn hits_view(r: Result<Vec<(u32, u32)>, String>) -> Option<Seq<(u32, u32)>> {
    match r {
        Ok(v) => Some(v@),
        Err(_) => None,
    }
}

/// Trusted: `Searcher::search` of the query with `TopDocs::with_limit(limit)`
/// (which panics on 0), the addresses of the hits kept in score order. The
/// outcome is `searched` for this searcher, the query's source and the limit;
/// what is found depends on the index on disk, so stated beyond that is only
/// that there are at most `limit` hits, each a document that the searcher
/// holds.
#[verifier::external_body]
fn search_top_hits(searcher: &Searcher, query: &SongQuery, limit: usize) -> (r: Result<Vec<(u32, u32)>, String>)
    requires
        limit >= 1,
    ensures
        searched(*searcher, query@, limit, hits_view(r)),
        r matches Ok(v) ==> v@.len() <= limit,
        r matches Ok(v) ==> forall|i: int| 0 <= i < v@.len() ==> #[trigger] searcher_holds(*searcher, v@[i].0, v@[i].1),
{
    searcher.search(query.query.as_ref(), &TopDocs::with_limit(limit))
        .map(|hits| hits.into_iter().map(|(_score, a)| (a.segment_ord, a.doc_id)).collect())
        .map_err(|e| e.to_string())
}

/// Trusted: `Searcher::doc` of a document that the searcher holds (another
/// segment would make it panic), then `Document::get_first` of the field
/// named `field` and `Value::as_text`: the stored text, if the document has
/// one. The outcome is `stored_read` for these arguments; it depends on the
/// index on disk, so nothing more is stated of it.
#[verifier::external_body]
fn stored_text(searcher: &Searcher, segment: u32, doc: u32, field: &str) -> (r: Result<Option<String>, String>)
    requires
        searcher_holds(*searcher, segment, doc),
    ensures
        stored_read(*searcher, segment, doc, field@, hit_view(r)),
{
    let f = searcher.schema().get_field(field).map_err(|e| e.to_string())?;
    let d = searcher.doc(DocAddress::new(segment, doc)).map_err(|e| e.to_string())?;
    Ok(d.get_first(f).and_then(|v| v.as_text()).map(String::from))
}

/// The source of a client's song search for the text `q`: the text over
/// title, artist and album, with the title's words matched up to
/// `TITLE_FUZZY_DISTANCE` edits away.
pub open spec fn song_search_source(q: Seq<char>) -> QuerySource {
    query_source(song_query_names(), "song_title"@, TITLE_FUZZY_DISTANCE, q)
}

/// Whether the song search for `q` parses over the index.
pub open spec fn song_search_parses(ix: Index, q: Seq<char>) -> bool {
    song_query_parses(ix, song_query_names(), "song_title"@, TITLE_FUZZY_DISTANCE, q)
}

/// The parsed form of a client's song search (see `song_search_source`); a
/// query that does not parse is answered with a server error.
pub fn song_search_query(index: &Index, q: &str) -> (r: Result<SongQuery, u16>)
    ensures
        r is Ok <==> song_search_parses(*index, q@),
        r matches Ok(sq) ==> sq@ == song_search_source(q@),
        r matches Err(c) ==> c == 500,
{
    let fields = song_query_fields();
    let mut names: Vec<&str> = Vec::new();
    let mut i: usize = 0;
    while i < fields.len()
        invariant
            i <= fields@.len(),
            names@.len() == i,
            fields@ == song_query_spec(),
            names@.map_values(|f: &str| f@) == fields@.take(i as int).map_values(|f: SearchField| field_name(f)),
        decreases fields@.len() - i,
    {
        let ghost before = names@;
        let n = fields[i].name();
        names.push(n);
        proof {
            assert(names@[i as int]@ == field_name(fields@[i as int]));
            assert forall|j: int| 0 <= j < i implies #[trigger] names@[j]@ == field_name(fields@[j]) by {
                assert(names@[j] == before[j]);
                assert(before.map_values(|f: &str| f@)[j] == fields@.take(i as int).map_values(|f: SearchField| field_name(f))[j]);
            }
            assert(names@.map_values(|f: &str| f@) =~= fields@.take(i + 1).map_values(|f: SearchField| field_name(f)));
        }
        i = i + 1;
    }
    assert(fields@.take(i as int) =~= fields@);
    assert(names@.map_values(|f: &str| f@) =~= song_query_names());
    let fuzzy = FUZZY_FIELD.name();
    proof {
        reveal_strlit("song_title");
    }
    match parse_song_query(index, &names, fuzzy, TITLE_FUZZY_DISTANCE, q) {
        Some(query) => Ok(query),
        None => Err(500),
    }
}

/// Whether `reads` are reads of the stored song id of each of `hits`, in
/// order, on the searcher `s`.
pub open spec fn id_reads_of(s: Searcher, hits: Seq<(u32, u32)>, reads: Seq<Option<Option<Seq<char>>>>) -> bool {
    &&& reads.len() == hits.len()
    &&& forall|i: int| 0 <= i < hits.len() ==> #[trigger] stored_read(s, hits[i].0, hits[i].1, "song_id"@, reads[i])
}

/// Whether `answer` is the answer owed to a search whose outcome was
/// `found`: a server error when the search failed; otherwise, for some reads
/// of the stored song id of each hit, in hit order, the songs of those reads
/// (see `hits_outcome`).
pub open spec fn search_answer(s: Searcher, lib: Map<Seq<char>, SongView>, found: Option<Seq<(u32, u32)>>, answer: Result<Seq<SongView>, SearchError>) -> bool {
    match found {
        None => answer == Err::<Seq<SongView>, SearchError>(SearchError::Status(500)),
        Some(hits) => {
            &&& hits.len() <= SEARCH_RESULT_LIMIT
            &&& exists|reads: Seq<Option<Option<Seq<char>>>>|
                #[trigger] id_reads_of(s, hits, reads) && hits_outcome(lib, reads) == answer
        },
    }
}

/// Answers a client's song search: parses the text `q` (see
/// `song_search_source`), searches the parse for at most
/// `SEARCH_RESULT_LIMIT` hits, reads each hit's stored song id, and gives the
/// songs of the hits (see `songs_for_hits`). A text that does not parse gives
/// a server error and searches nothing; so does a failed search. Which hits
/// the index gives, and what their stored ids are, depends on the index on
/// disk: the answer is stated for whatever the search and the reads gave.
pub fn song_search(index: &Index, searcher: &Searcher, lib: &MusicLibrary, q: &str) -> (r: Result<Vec<SongEntry>, SearchError>)
    ensures
        !song_search_parses(*index, q@) ==> r == Err::<Vec<SongEntry>, SearchError>(SearchError::Status(500)),
        song_search_parses(*index, q@) ==> exists|found: Option<Seq<(u32, u32)>>|
            #[trigger] searched(*searcher, song_search_source(q@), SEARCH_RESULT_LIMIT, found)
                && search_answer(*searcher, lib@, found, songs_result_view(r)),
{
    let query = match song_search_query(index, q) {
        Ok(query) => query,
        Err(code) => return Err(SearchError::Status(code)),
    };
    let found = search_top_hits(searcher, &query, SEARCH_RESULT_LIMIT);
    let ghost fv = hits_view(found);
    let addrs = match found {
        Ok(a) => a,
        Err(_) => {
            let r: Result<Vec<SongEntry>, SearchError> = Err(SearchError::Status(500));
            assert(search_answer(*searcher, lib@, fv, songs_result_view(r)));
            assert(searched(*searcher, song_search_source(q@), SEARCH_RESULT_LIMIT, fv));
            return r;
        },
    };
    let mut reads: Vec<Result<Option<String>, String>> = Vec::new();
    let mut i: usize = 0;
    let ghost hits = addrs@;
    proof {
        reveal_strlit("song_id");
    }
    while i < addrs.len()
        invariant
            i <= addrs@.len(),
            hits == addrs@,
            reads@.len() == i,
            forall|j: int| 0 <= j < addrs@.len() ==> #[trigger] searcher_holds(*searcher, addrs@[j].0, addrs@[j].1),
            forall|j: int| 0 <= j < i ==> #[trigger] stored_read(*searcher, hits[j].0, hits[j].1, "song_id"@, hit_view(reads@[j])),
        decreases addrs@.len() - i,
    {
        let (segment, doc) = addrs[i];
        let read = stored_text(searcher, segment, doc, SearchField::SongId.name());
        reads.push(read);
        i = i + 1;
    }
    let ghost rv = reads@.map_values(|h: Result<Option<String>, String>| hit_view(h));
    let r = songs_for_hits(lib, &reads);
    proof {
        assert forall|j: int| 0 <= j < hits.len() implies #[trigger] stored_read(*searcher, hits[j].0, hits[j].1, "song_id"@, rv[j]) by {
            assert(rv[j] == hit_view(reads@[j]));
        }
        assert(id_reads_of(*searcher, hits, rv));
        assert(fv == Some(hits));
        assert(search_answer(*searcher, lib@, fv, songs_result_view(r)));
        assert(searched(*searcher, song_search_source(q@), SEARCH_RESULT_LIMIT, fv));
    }
    r
}


/// A client's song search looks for its text, unchanged, in the title, the
/// artist and the album (in that order), with the title's words matched up
/// to two edits away; whether it parses is decided over those same fields.
pub proof fn law_song_search_fields(ix: Index, q: Seq<char>)
    ensures
        song_search_source(q).fields == seq!["song_title"@, "song_artist"@, "song_album"@],
        song_search_source(q).fuzzy == "song_title"@,
        song_search_source(q).distance == 2,
        song_search_source(q).text == q,
        song_search_parses(ix, q) == song_query_parses(ix, seq!["song_title"@, "song_artist"@, "song_album"@], "song_title"@, 2, q),
{
    assert(song_query_names() =~= seq!["song_title"@, "song_artist"@, "song_album"@]);
}

} // verus!
