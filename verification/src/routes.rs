//! What the HTTP routes answer, apart from the transport: the status of a
//! request and the data handed back.

use vstd::prelude::*;
use ffmpeg_sidecar::command::FfmpegCommand;
use crate::song::SongEntry;
use crate::library::MusicLibrary;
use crate::stream::{stream_command, ffmpeg_args, stream_args};

verus! {

/// The status answered for a song, or a cover, that does not exist.
pub const NOT_FOUND: u16 = 404;

/// The status answered when the search index or ffmpeg fails.
pub const INTERNAL_SERVER_ERROR: u16 = 500;

/// The song with the given id, or `NOT_FOUND`.
pub fn song_by_id(lib: &MusicLibrary, id: &str) -> (r: Result<SongEntry, u16>)
    ensures
        r is Ok <==> lib@.contains_key(id@),
        r matches Ok(s) ==> s@ == lib@[id@],
        r matches Err(code) ==> code == NOT_FOUND,
{
    match lib.get_song(id) {
        Some(s) => Ok(s),
        None => Err(NOT_FOUND),
    }
}

/// The ffmpeg command that streams the song with the given id, or
/// `NOT_FOUND`.
pub fn song_stream_command(lib: &MusicLibrary, id: &str) -> (r: Result<FfmpegCommand, u16>)
    ensures
        r is Ok <==> lib@.contains_key(id@),
        r matches Ok(cmd) ==> ffmpeg_args(cmd) == stream_args(lib@[id@].path),
        r matches Err(code) ==> code == NOT_FOUND,
{
    match lib.get_song(id) {
        Some(s) => Ok(stream_command(s.path.as_str())),
        None => Err(NOT_FOUND),
    }
}

/// The content type of a cover picture.
pub fn cover_content_type() -> (r: &'static str)
    ensures
        r@ == "image/png"@,
{
    "image/png"
}

} // verus!
