//! File locations of the server's own data: where a song's cover picture is
//! kept under the data directory.

use vstd::prelude::*;
use crate::text::{starts_with, concat_strs, to_owned_string};

verus! {

/// The location reached by adjoining `part` to `base`, with `/` as the
/// separator: an absolute `part` (one that starts with `/`) replaces `base`;
/// otherwise a separator is put between the two unless `base` is empty or
/// already ends with one.
pub open spec fn joined(base: Seq<char>, part: Seq<char>) -> Seq<char> {
    if part.len() > 0 && part[0] == '/' {
        part
    } else if base.len() == 0 || base.last() == '/' {
        base + part
    } else {
        base + seq!['/'] + part
    }
}

/// Adjoins `part` to the location `base` (see `joined`).
pub fn join_path(base: &str, part: &str) -> (r: String)
    ensures
        r@ == joined(base@, part@),
{
    proof {
        reveal_strlit("/");
    }
    let plen = part.unicode_len();
    if plen > 0 && part.get_char(0) == '/' {
        return to_owned_string(part);
    }
    let blen = base.unicode_len();
    if blen == 0 || base.get_char(blen - 1) == '/' {
        concat_strs(base, part)
    } else {
        let mut r = concat_strs(base, "/");
        r.append(part);
        r
    }
}

/// The directory under the data directory that holds the cover pictures.
pub open spec fn cover_dir_spec(data_dir: Seq<char>) -> Seq<char> {
    joined(data_dir, "covers"@)
}

/// The cover picture file of the song `id`: `<id>.png` in the covers directory.
pub open spec fn cover_file_spec(data_dir: Seq<char>, id: Seq<char>) -> Seq<char> {
    joined(cover_dir_spec(data_dir), id + ".png"@)
}

/// The directory that holds the cover pictures.
pub fn cover_dir(data_dir: &str) -> (r: String)
    ensures
        r@ == cover_dir_spec(data_dir@),
{
    join_path(data_dir, "covers")
}

/// Where the cover picture of the song `id` is written and read.
pub fn cover_file_path(data_dir: &str, id: &str) -> (r: String)
    ensures
        r@ == cover_file_spec(data_dir@, id@),
{
    let dir = cover_dir(data_dir);
    let name = concat_strs(id, ".png");
    join_path(dir.as_str(), name.as_str())
}

/// Whether a cover picture is written: not when the file is known to exist
/// already. When its existence could not be found out (`None`), it is
/// written.
pub fn cover_write_needed(exists: Option<bool>) -> (r: bool)
    ensures
        r == (exists != Some(true)),
{
    match exists {
        Some(true) => false,
        _ => true,
    }
}

/// A cover file lies inside the covers directory, with the name `<id>.png`,
/// whenever the song id does not start with `/`; an id that does start with
/// `/` names a location of its own.
pub proof fn law_cover_file_in_cover_dir(data_dir: Seq<char>, id: Seq<char>)
    ensures
        (id.len() == 0 || id[0] != '/') ==> cover_file_spec(data_dir, id)
            == cover_dir_spec(data_dir) + seq!['/'] + id + ".png"@,
        (id.len() > 0 && id[0] == '/') ==> cover_file_spec(data_dir, id) == id + ".png"@,
        starts_with(cover_file_spec(data_dir, id), cover_dir_spec(data_dir)) || (id.len() > 0 && id[0] == '/'),
{
    reveal_strlit("covers");
    reveal_strlit(".png");
    let dir = cover_dir_spec(data_dir);
    let name = id + ".png"@;
    assert(dir.len() > 0);
    assert(dir.last() == 's');
    if id.len() == 0 {
        assert(name[0] == '.');
    } else {
        assert(name[0] == id[0]);
    }
    if !(id.len() > 0 && id[0] == '/') {
        assert(dir + seq!['/'] + name =~= dir + seq!['/'] + id + ".png"@);
        let f = dir + seq!['/'] + name;
        assert(f.subrange(0, dir.len() as int) =~= dir);
    }
}

} // verus!
