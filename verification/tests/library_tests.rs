use mmp::files::is_music_file;
use mmp::library::MusicLibrary;
use mmp::paths::{cover_dir, cover_file_path, cover_write_needed, join_path};
use mmp::routes::{cover_content_type, song_by_id, song_stream_command, NOT_FOUND};
use mmp::schema::build_schema;
use mmp::search::{
    index_text_fields, needs_indexing, song_search, songs_for_hits, SearchError, schema_fields, song_query_fields, FieldKind,
    SearchField, SEARCH_RESULT_LIMIT, TITLE_FUZZY_DISTANCE,
};
use mmp::song::{Metadata, SongEntry};
use mmp::songfile::{
    create_song_entry, get_id_from_tag, id_from_hash, should_register_cover, song_from_bytes,
    AudioProps, SongFileError, TagInfo, TagItem,
};
use mmp::stream::{absorb_event, collect_stream_output, stream_command, StreamEvent};
use mmp::tasks::install_ffmpeg;
use mmp::text::u64_to_decimal;

fn item(k: Option<&str>, v: Option<&str>) -> TagItem {
    TagItem { key: k.map(|s| s.to_string()), value: v.map(|s| s.to_string()) }
}

fn full_tag() -> TagInfo {
    TagInfo {
        title: Some("Blue in Green".to_string()),
        artist: Some("Miles Davis".to_string()),
        album: Some("Kind of Blue".to_string()),
        year: Some(1959),
        track_id: None,
        items: vec![
            item(Some("TITLE"), Some("Blue in Green")),
            item(Some("GENRE"), Some("Jazz")),
            item(None, Some("orphan")),
            item(Some("COVER"), None),
            item(Some("GENRE"), Some("Modal Jazz")),
        ],
        first_picture: Some(vec![0x89, b'P', b'N', b'G']),
    }
}

fn props() -> AudioProps {
    AudioProps { duration_secs: 337, sample_rate: Some(44100), bit_rate: None, bit_depth: Some(16), channels: Some(2) }
}

fn song(id: &str, title: &str) -> SongEntry {
    let tag = TagInfo { title: Some(title.to_string()), ..full_tag() };
    create_song_entry(&tag, &props(), format!("/music/{}.flac", id), id.to_string()).unwrap()
}

fn args_of(cmd: &ffmpeg_sidecar::command::FfmpegCommand) -> Vec<String> {
    cmd.get_args().map(|a| a.to_string_lossy().into_owned()).collect()
}

#[test]
fn music_files_are_recognised_by_extension() {
    assert!(is_music_file("track01.mp3"));
    assert!(is_music_file("album/track.flac"));
    assert!(is_music_file("a.wav"));
    assert!(is_music_file("a.ogg"));
    assert!(is_music_file("a.m4a"));
    assert!(is_music_file("a.wma"));
    assert!(is_music_file("a.aiff"));
    assert!(is_music_file("nodotmp3"));
    assert!(!is_music_file("cover.png"));
    assert!(!is_music_file("TRACK.MP3"));
    assert!(!is_music_file("mp"));
    assert!(!is_music_file(""));
}

#[test]
fn path_joining() {
    assert_eq!(join_path("data", "covers"), "data/covers");
    assert_eq!(join_path("data/", "covers"), "data/covers");
    assert_eq!(join_path("", "covers"), "covers");
    assert_eq!(join_path("data", "/etc/passwd"), "/etc/passwd");
    assert_eq!(join_path("data", ""), "data/");
}

#[test]
fn cover_locations() {
    assert_eq!(cover_dir("/srv/mmp"), "/srv/mmp/covers");
    assert_eq!(cover_file_path("/srv/mmp", "abc"), "/srv/mmp/covers/abc.png");
    assert_eq!(cover_file_path("/srv/mmp/", "mmp.42"), "/srv/mmp/covers/mmp.42.png");
    assert_eq!(cover_file_path("/srv/mmp", "/tmp/x"), "/tmp/x.png");
    assert_eq!(cover_content_type(), "image/png");
}

#[test]
fn cover_is_written_unless_it_exists() {
    assert!(!cover_write_needed(Some(true)));
    assert!(cover_write_needed(Some(false)));
    assert!(cover_write_needed(None));
    assert!(should_register_cover(Some(true), true));
    assert!(!should_register_cover(Some(true), false));
    assert!(!should_register_cover(Some(false), true));
    assert!(!should_register_cover(None, true));
}

#[test]
fn decimal_notation() {
    assert_eq!(u64_to_decimal(0), "0");
    assert_eq!(u64_to_decimal(7), "7");
    assert_eq!(u64_to_decimal(10), "10");
    assert_eq!(u64_to_decimal(12345), "12345");
    assert_eq!(u64_to_decimal(u64::MAX), u64::MAX.to_string());
}

#[test]
fn ids_from_tags_and_hashes() {
    assert_eq!(id_from_hash(42), "mmp.42");
    let mut tag = full_tag();
    tag.track_id = Some("f1e0c1a2-track".to_string());
    assert_eq!(get_id_from_tag(&tag, b"/music/a.flac"), "f1e0c1a2-track");
    tag.track_id = None;
    assert_eq!(get_id_from_tag(&tag, b""), "mmp.0");
    let bytes = b"/music/some album/01 - song.flac";
    let mut hasher = rustc_hash::FxHasher::default();
    std::hash::Hasher::write(&mut hasher, bytes);
    let expected = format!("mmp.{}", std::hash::Hasher::finish(&hasher));
    assert_eq!(get_id_from_tag(&tag, bytes), expected);
    assert_ne!(get_id_from_tag(&tag, bytes), "mmp.0");
}

#[test]
fn song_entry_from_complete_tag() {
    let e = create_song_entry(&full_tag(), &props(), "/music/bg.flac".to_string(), "id1".to_string()).unwrap();
    assert_eq!(e.id, "id1");
    assert_eq!(e.title, "Blue in Green");
    assert_eq!(e.artist, "Miles Davis");
    assert_eq!(e.album, "Kind of Blue");
    assert_eq!(e.duration, 337);
    assert_eq!(e.sample_rate, 44100);
    assert_eq!(e.bit_rate, 0);
    assert_eq!(e.bit_depth, 16);
    assert_eq!(e.channels, 2);
    assert_eq!(e.year, 1959);
    assert_eq!(e.path, "/music/bg.flac");
    assert_eq!(e.metadata.get("GENRE"), Some("Modal Jazz".to_string()));
    assert_eq!(e.metadata.get("TITLE"), Some("Blue in Green".to_string()));
    assert_eq!(e.metadata.get("COVER"), None);
    assert_eq!(e.metadata.get("orphan"), None);
}

#[test]
fn song_entry_year_is_cut_to_sixteen_bits() {
    let mut tag = full_tag();
    tag.year = Some(70000);
    let e = create_song_entry(&tag, &props(), String::new(), "x".to_string()).unwrap();
    assert_eq!(e.year, 70000u32 as u16);
    assert_eq!(e.year, 4464);
    tag.year = None;
    let e = create_song_entry(&tag, &props(), String::new(), "x".to_string()).unwrap();
    assert_eq!(e.year, 0);
}

#[test]
fn song_entry_requires_title_artist_album_in_order() {
    let mut tag = full_tag();
    tag.title = None;
    tag.artist = None;
    let r = create_song_entry(&tag, &props(), String::new(), "x".to_string());
    assert_eq!(r.unwrap_err(), SongFileError::MissingTitle);
    let mut tag = full_tag();
    tag.artist = None;
    tag.album = None;
    let r = create_song_entry(&tag, &props(), String::new(), "x".to_string());
    assert_eq!(r.unwrap_err(), SongFileError::MissingArtist);
    let mut tag = full_tag();
    tag.album = None;
    let r = create_song_entry(&tag, &props(), String::new(), "x".to_string());
    assert_eq!(r.unwrap_err(), SongFileError::MissingAlbum);
    assert_eq!(SongFileError::MissingTitle.message(), "unable to read title");
    assert_eq!(SongFileError::MissingArtist.message(), "unable to read artist");
    assert_eq!(SongFileError::MissingAlbum.message(), "unable to read album");
    assert_eq!(SongFileError::MissingPrimaryTag.message(), "unable to read primary tag");
}

#[test]
fn metadata_keeps_last_value() {
    let mut m = Metadata::new();
    assert_eq!(m.get("a"), None);
    m.insert("a".to_string(), "1".to_string());
    m.insert("b".to_string(), "2".to_string());
    m.insert("a".to_string(), "3".to_string());
    assert_eq!(m.get("a"), Some("3".to_string()));
    assert_eq!(m.get("b"), Some("2".to_string()));
    let copy = Metadata::from_pairs(m.pairs());
    assert_eq!(copy.get("a"), Some("3".to_string()));
    let mut map = std::collections::HashMap::new();
    for (k, v) in m.pairs() {
        map.insert(k, v);
    }
    assert_eq!(map.len(), 2);
    assert_eq!(map["a"], "3");
}

#[test]
fn library_read_after_insert() {
    let mut lib = MusicLibrary::default();
    assert!(lib.get_song("a").is_none());
    lib.insert_song(song("a", "First"));
    lib.insert_song(song("b", "Second"));
    assert_eq!(lib.get_song("a").unwrap().title, "First");
    assert_eq!(lib.get_song("b").unwrap().title, "Second");
    lib.insert_song(song("a", "Replaced"));
    assert_eq!(lib.get_song("a").unwrap().title, "Replaced");
    assert!(lib.contains_song("b"));
    assert!(!lib.contains_song("c"));
    let mut titles: Vec<String> = lib.all_songs().into_iter().map(|s| s.title).collect();
    titles.sort();
    assert_eq!(titles, vec!["Replaced".to_string(), "Second".to_string()]);
    let empty = MusicLibrary::new();
    assert!(empty.all_songs().is_empty());
}

#[test]
fn song_route_answers_not_found() {
    let mut lib = MusicLibrary::new();
    lib.insert_song(song("a", "First"));
    assert_eq!(song_by_id(&lib, "a").unwrap().title, "First");
    assert_eq!(song_by_id(&lib, "zzz").unwrap_err(), NOT_FOUND);
    assert_eq!(NOT_FOUND, 404);
    assert_eq!(song_stream_command(&lib, "zzz").unwrap_err(), 404);
    let cmd = song_stream_command(&lib, "a").unwrap();
    assert_eq!(args_of(&cmd)[3], "/music/a.flac");
}

#[test]
fn stream_command_arguments() {
    let cmd = stream_command("/music/x y.flac");
    assert_eq!(
        args_of(&cmd),
        vec!["-loglevel", "level+info", "-i", "/music/x y.flac", "-c:a", "copy", "-f", "flac", "-vn", "-t", "20s", "-"]
    );
}

#[test]
fn stream_output_is_the_chunks_in_order() {
    let events = vec![
        StreamEvent::Other,
        StreamEvent::OutputChunk(vec![1, 2]),
        StreamEvent::Other,
        StreamEvent::OutputChunk(vec![]),
        StreamEvent::OutputChunk(vec![3]),
        StreamEvent::Other,
    ];
    assert_eq!(collect_stream_output(events), vec![1, 2, 3]);
    assert_eq!(collect_stream_output(vec![]), Vec::<u8>::new());
    let mut buf = vec![9];
    absorb_event(&mut buf, StreamEvent::OutputChunk(vec![8, 7]));
    absorb_event(&mut buf, StreamEvent::Other);
    assert_eq!(buf, vec![9, 8, 7]);
}

#[test]
fn search_layout() {
    let fields = schema_fields();
    assert_eq!(fields.len(), 5);
    assert_eq!(fields[0].field.name(), "song_id");
    assert!(fields[0].indexed && fields[0].stored);
    assert_eq!(fields[1].field.name(), "song_title");
    assert!(fields[1].indexed && !fields[1].stored);
    assert_eq!(fields[4].field.name(), "song_metadata");
    assert_eq!(fields[4].kind, FieldKind::Json);
    assert!(!fields[4].indexed && fields[4].stored);
    assert_eq!(song_query_fields(), vec![SearchField::SongTitle, SearchField::SongArtist, SearchField::SongAlbum]);
    assert_eq!(SEARCH_RESULT_LIMIT, 10);
    assert_eq!(TITLE_FUZZY_DISTANCE, 2);
    let s = song("a", "First");
    let doc = index_text_fields(&s);
    assert_eq!(
        doc,
        vec![
            (SearchField::SongId, "a".to_string()),
            (SearchField::SongTitle, "First".to_string()),
            (SearchField::SongArtist, "Miles Davis".to_string()),
            (SearchField::SongAlbum, "Kind of Blue".to_string()),
        ]
    );
}

#[test]
fn indexing_only_new_songs() {
    assert!(needs_indexing(Some(0)));
    assert!(!needs_indexing(Some(1)));
    assert!(!needs_indexing(None));
}

#[test]
fn hits_map_back_to_songs() {
    let mut lib = MusicLibrary::new();
    lib.insert_song(song("a", "First"));
    lib.insert_song(song("b", "Second"));
    let hits = vec![Ok(Some("b".to_string())), Ok(Some("a".to_string()))];
    let songs = songs_for_hits(&lib, &hits).unwrap();
    assert_eq!(songs.len(), 2);
    assert_eq!(songs[0].title, "Second");
    assert_eq!(songs[1].title, "First");
    assert!(songs_for_hits(&lib, &vec![]).unwrap().is_empty());
    let unknown = vec![Ok(Some("a".to_string())), Ok(Some("nope".to_string())), Ok(None)];
    assert_eq!(songs_for_hits(&lib, &unknown).unwrap_err(), SearchError::UnknownSong);
    let missing = vec![Ok(Some("a".to_string())), Ok(None), Ok(Some("nope".to_string()))];
    assert_eq!(songs_for_hits(&lib, &missing).unwrap_err(), SearchError::MissingStoredId);
    let failed = vec![Err("disk".to_string()), Ok(None)];
    assert_eq!(songs_for_hits(&lib, &failed).unwrap_err(), SearchError::Status(500));
}

/// An index in memory with the library's schema, holding the given songs.
fn ram_index(songs: &[&SongEntry]) -> tantivy::Index {
    let schema = build_schema();
    let index = tantivy::Index::create_in_ram(schema.clone());
    let mut writer = index.writer(15_000_000).unwrap();
    for s in songs {
        let mut doc = tantivy::Document::default();
        for (f, text) in index_text_fields(s) {
            doc.add_text(schema.get_field(f.name()).unwrap(), &text);
        }
        writer.add_document(doc).unwrap();
    }
    writer.commit().unwrap();
    index
}

#[test]
fn song_search_over_an_index() {
    let a = song("a", "Blue in Green");
    let b = song("b", "Freddie Freeloader");
    let index = ram_index(&[&a, &b]);
    let searcher = index.reader().unwrap().searcher();
    let mut lib = MusicLibrary::new();
    lib.insert_song(a.clone());
    lib.insert_song(b.clone());
    let found = song_search(&index, &searcher, &lib, "freeloader").unwrap();
    assert_eq!(found.len(), 1);
    assert_eq!(found[0].id, "b");
    let fuzzy = song_search(&index, &searcher, &lib, "freddy").unwrap();
    assert_eq!(fuzzy.len(), 1);
    assert_eq!(fuzzy[0].title, "Freddie Freeloader");
    let both = song_search(&index, &searcher, &lib, "miles").unwrap();
    assert_eq!(both.len(), 2);
    assert!(song_search(&index, &searcher, &lib, "nothing_like_this").unwrap().is_empty());
    assert_eq!(song_search(&index, &searcher, &lib, "nosuchfield:x").unwrap_err(), SearchError::Status(500));
    let empty = MusicLibrary::new();
    assert_eq!(song_search(&index, &searcher, &empty, "freeloader").unwrap_err(), SearchError::UnknownSong);
}

#[test]
fn release_build_has_nothing_to_install() {
    assert!(install_ffmpeg().is_ok());
}

#[test]
fn decimal_reads_back() {
    for n in [0u64, 1, 9, 10, 99, 100, 4096, 1_000_000_007, u64::MAX - 1, u64::MAX] {
        let s = u64_to_decimal(n);
        assert_eq!(s.parse::<u64>().unwrap(), n);
        assert!(s == "0" || !s.starts_with('0'));
    }
}

#[test]
fn fallback_ids_differ_for_different_hashes() {
    assert_ne!(id_from_hash(1), id_from_hash(10));
    assert_ne!(id_from_hash(12), id_from_hash(21));
    assert_eq!(id_from_hash(u64::MAX), format!("mmp.{}", u64::MAX));
    assert_eq!(id_from_hash(7)[4..].parse::<u64>().unwrap(), 7);
}

/// A minimal FLAC file: the stream info block and a Vorbis comment block
/// holding the given `KEY=value` comments, with no audio frames.
fn flac_bytes(comments: &[&str]) -> Vec<u8> {
    flac_bytes_with_picture(comments, None)
}

/// The same, with a PNG picture block after the comments when `picture` is given.
fn flac_bytes_with_picture(comments: &[&str], picture: Option<&[u8]>) -> Vec<u8> {
    let mut b = b"fLaC".to_vec();
    b.extend_from_slice(&[0x00, 0x00, 0x00, 34]);
    b.extend_from_slice(&[0x10, 0x00, 0x10, 0x00]);
    b.extend_from_slice(&[0, 0, 0, 0, 0, 0]);
    b.extend_from_slice(&[0x0A, 0xC4, 0x42, 0xF0, 0, 0, 0, 0]);
    b.extend_from_slice(&[0u8; 16]);
    let vendor = b"test";
    let mut vc = Vec::new();
    vc.extend_from_slice(&(vendor.len() as u32).to_le_bytes());
    vc.extend_from_slice(vendor);
    vc.extend_from_slice(&(comments.len() as u32).to_le_bytes());
    for c in comments {
        vc.extend_from_slice(&(c.len() as u32).to_le_bytes());
        vc.extend_from_slice(c.as_bytes());
    }
    let len = vc.len() as u32;
    let kind = if picture.is_some() { 0x04 } else { 0x84 };
    b.extend_from_slice(&[kind, (len >> 16) as u8, (len >> 8) as u8, len as u8]);
    b.extend_from_slice(&vc);
    if let Some(data) = picture {
        let mime = b"image/png";
        let mut pb = Vec::new();
        pb.extend_from_slice(&3u32.to_be_bytes());
        pb.extend_from_slice(&(mime.len() as u32).to_be_bytes());
        pb.extend_from_slice(mime);
        pb.extend_from_slice(&0u32.to_be_bytes());
        pb.extend_from_slice(&[0u8; 16]);
        pb.extend_from_slice(&(data.len() as u32).to_be_bytes());
        pb.extend_from_slice(data);
        let len = pb.len() as u32;
        b.extend_from_slice(&[0x86, (len >> 16) as u8, (len >> 8) as u8, len as u8]);
        b.extend_from_slice(&pb);
    }
    b
}

#[test]
fn song_from_file_contents() {
    let bytes = flac_bytes(&["TITLE=So What", "ARTIST=Miles Davis", "ALBUM=Kind of Blue", "DATE=1959", "FOO=bar"]);
    let (song, cover) = song_from_bytes(&bytes, "/music/so_what.flac".to_string(), b"/music/so_what.flac", Some(true));
    let song = song.unwrap();
    assert_eq!(song.title, "So What");
    assert_eq!(song.artist, "Miles Davis");
    assert_eq!(song.album, "Kind of Blue");
    assert_eq!(song.year, 1959);
    assert_eq!(song.sample_rate, 44100);
    assert_eq!(song.channels, 2);
    assert_eq!(song.bit_depth, 16);
    assert_eq!(song.path, "/music/so_what.flac");
    assert_eq!(song.metadata.get("FOO"), Some("bar".to_string()));
    assert_eq!(song.metadata.get("TITLE"), Some("So What".to_string()));
    assert!(song.id.starts_with("mmp."));
    assert_ne!(song.id, "mmp.0");
    assert!(cover.is_none());
}

#[test]
fn song_from_file_contents_with_track_id() {
    let bytes = flac_bytes(&["TITLE=T", "ARTIST=A", "ALBUM=B", "MUSICBRAINZ_RELEASETRACKID=abc-123"]);
    let (song, _) = song_from_bytes(&bytes, "x.flac".to_string(), b"x.flac", None);
    assert_eq!(song.unwrap().id, "abc-123");
}

#[test]
fn song_from_file_missing_tags() {
    let bytes = flac_bytes(&["ARTIST=A", "ALBUM=B"]);
    let (song, _) = song_from_bytes(&bytes, "x.flac".to_string(), b"x.flac", None);
    assert_eq!(song.unwrap_err(), SongFileError::MissingTitle);
}

#[test]
fn song_from_unreadable_file() {
    let (song, cover) = song_from_bytes(b"not audio at all", "x.flac".to_string(), b"x.flac", Some(true));
    assert!(matches!(song, Err(SongFileError::Unreadable(_))));
    assert!(cover.is_none());
    let (song, _) = song_from_bytes(b"whatever", "notes.txt".to_string(), b"notes.txt", None);
    match song {
        Err(e @ SongFileError::Unreadable(_)) => assert!(!e.message().is_empty()),
        other => panic!("unexpected {:?}", other),
    }
}

#[test]
fn cover_of_file_is_given_when_asked() {
    let pic: &[u8] = &[0x89, b'P', b'N', b'G', 1, 2, 3];
    let bytes = flac_bytes_with_picture(&["TITLE=T", "ARTIST=A", "ALBUM=B"], Some(pic));
    let (song, cover) = song_from_bytes(&bytes, "x.flac".to_string(), b"x.flac", Some(true));
    let song = song.unwrap();
    let (id, data) = cover.unwrap();
    assert_eq!(id, song.id);
    assert_eq!(data, pic.to_vec());
    let (_, cover) = song_from_bytes(&bytes, "x.flac".to_string(), b"x.flac", None);
    assert!(cover.is_none());
    let no_title = flac_bytes_with_picture(&["ARTIST=A", "ALBUM=B"], Some(pic));
    let (song, cover) = song_from_bytes(&no_title, "x.flac".to_string(), b"x.flac", Some(true));
    assert_eq!(song.unwrap_err(), SongFileError::MissingTitle);
    assert_eq!(cover.unwrap().1, pic.to_vec());
}

#[test]
fn schema_declares_the_layout() {
    let schema = build_schema();
    assert_eq!(schema.num_fields(), 5);
    let names: Vec<&str> = schema.fields().map(|(_, e)| e.name()).collect();
    assert_eq!(names, vec!["song_id", "song_title", "song_artist", "song_album", "song_metadata"]);
    let entry = |n: &str| schema.get_field_entry(schema.get_field(n).unwrap()).clone();
    assert!(entry("song_id").is_indexed() && entry("song_id").is_stored());
    for n in ["song_title", "song_artist", "song_album"] {
        assert!(entry(n).is_indexed() && !entry(n).is_stored());
    }
    let meta = entry("song_metadata");
    assert!(!meta.is_indexed() && meta.is_stored());
    assert!(matches!(meta.field_type(), tantivy::schema::FieldType::JsonObject(_)));
}
