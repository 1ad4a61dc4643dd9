//! Which files of the music folder are taken for songs.

use vstd::prelude::*;
use crate::text::{ends_with, str_ends_with};

verus! {

/// The file extensions of the audio files that the library takes in, in the
/// order they are tried.
pub open spec fn valid_music_exts() -> Seq<Seq<char>> {
    seq!["mp3"@, "flac"@, "wav"@, "ogg"@, "m4a"@, "wma"@, "aiff"@]
}

/// A file name is taken for a song when it ends with one of the valid
/// extensions. The comparison is a plain suffix test on the name: no dot is
/// required before the extension.
pub open spec fn is_music_name(name: Seq<char>) -> bool {
    exists|i: int| 0 <= i < valid_music_exts().len() && ends_with(name, #[trigger] valid_music_exts()[i])
}

/// Whether a file name (as read from the directory walk) denotes an audio
/// file that should be scanned for tags.
pub fn is_music_file(name: &str) -> (r: bool)
    ensures
        r == is_music_name(name@),
{
    proof {
        reveal_strlit("mp3");
        reveal_strlit("flac");
        reveal_strlit("wav");
        reveal_strlit("ogg");
        reveal_strlit("m4a");
        reveal_strlit("wma");
        reveal_strlit("aiff");
    }
    let r = str_ends_with(name, "mp3") || str_ends_with(name, "flac") || str_ends_with(name, "wav")
        || str_ends_with(name, "ogg") || str_ends_with(name, "m4a") || str_ends_with(name, "wma")
        || str_ends_with(name, "aiff");
    proof {
        let exts = valid_music_exts();
        if r {
            if ends_with(name@, "mp3"@) { assert(ends_with(name@, exts[0])); }
            else if ends_with(name@, "flac"@) { assert(ends_with(name@, exts[1])); }
            else if ends_with(name@, "wav"@) { assert(ends_with(name@, exts[2])); }
            else if ends_with(name@, "ogg"@) { assert(ends_with(name@, exts[3])); }
            else if ends_with(name@, "m4a"@) { assert(ends_with(name@, exts[4])); }
            else if ends_with(name@, "wma"@) { assert(ends_with(name@, exts[5])); }
            else { assert(ends_with(name@, exts[6])); }
        } else {
            assert forall|i: int| 0 <= i < exts.len() implies !ends_with(name@, #[trigger] exts[i]) by {
                if i == 0 {} else if i == 1 {} else if i == 2 {} else if i == 3 {} else if i == 4 {} else if i == 5 {} else {}
            }
        }
    }
    r
}


/// The music files are exactly the names that end in one of the seven audio
/// extensions mp3, flac, wav, ogg, m4a, wma and aiff; in particular a name
/// ending in "jpg" (a cover image) is never taken for a song.
pub proof fn law_music_extensions(name: Seq<char>)
    ensures
        is_music_name(name) <==> (ends_with(name, "mp3"@) || ends_with(name, "flac"@)
            || ends_with(name, "wav"@) || ends_with(name, "ogg"@) || ends_with(name, "m4a"@)
            || ends_with(name, "wma"@) || ends_with(name, "aiff"@)),
        ends_with(name, "jpg"@) ==> !is_music_name(name),
{
    let exts = valid_music_exts();
    if ends_with(name, "mp3"@) { assert(ends_with(name, exts[0])); }
    if ends_with(name, "flac"@) { assert(ends_with(name, exts[1])); }
    if ends_with(name, "wav"@) { assert(ends_with(name, exts[2])); }
    if ends_with(name, "ogg"@) { assert(ends_with(name, exts[3])); }
    if ends_with(name, "m4a"@) { assert(ends_with(name, exts[4])); }
    if ends_with(name, "wma"@) { assert(ends_with(name, exts[5])); }
    if ends_with(name, "aiff"@) { assert(ends_with(name, exts[6])); }
    if is_music_name(name) {
        let i = choose|i: int| 0 <= i < exts.len() && ends_with(name, #[trigger] exts[i]);
        if i == 0 {} else if i == 1 {} else if i == 2 {} else if i == 3 {} else if i == 4 {} else if i == 5 {} else {}
    }
    if ends_with(name, "jpg"@) {
        reveal_strlit("jpg");
        reveal_strlit("mp3");
        reveal_strlit("flac");
        reveal_strlit("wav");
        reveal_strlit("ogg");
        reveal_strlit("m4a");
        reveal_strlit("wma");
        reveal_strlit("aiff");
        let n = name.len() as int;
        assert(name[n - 1] == name.subrange(n - 3, n)[2]);
        assert(name[n - 2] == name.subrange(n - 3, n)[1]);
        assert(name[n - 1] == 'g' && name[n - 2] == 'p');
        assert forall|i: int| 0 <= i < exts.len() implies !ends_with(name, #[trigger] exts[i]) by {
            let e = exts[i];
            if ends_with(name, e) {
                assert(name[n - 1] == name.subrange(n - e.len(), n)[e.len() - 1]);
                assert(name[n - 2] == name.subrange(n - e.len(), n)[e.len() - 2]);
                if i == 0 {} else if i == 1 {} else if i == 2 {} else if i == 3 {} else if i == 4 {} else if i == 5 {} else {}
            }
        }
    }
}

} // verus!
