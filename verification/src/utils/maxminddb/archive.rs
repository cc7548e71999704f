//! Choosing the database file among the entries of the downloaded archive.

use vstd::prelude::*;

use super::error::MaxmindDbError;
use crate::text::{is_upper, lemma_split_on_nonempty, split_on, split_on_char, str_eq, to_owned_string};

verus! {

/// The last component of a list of path segments that is neither empty nor
/// `.` (the components that `std::path` normalizes away).
pub open spec fn last_normal_segment(segments: Seq<Seq<char>>) -> Option<Seq<char>>
    decreases segments.len(),
{
    if segments.len() == 0 {
        None
    } else if segments.last().len() == 0 || segments.last() == seq!['.'] {
        last_normal_segment(segments.drop_last())
    } else {
        Some(segments.last())
    }
}

/// The file name of a Unix path (`Path::file_name`): its last normal
/// component, unless that is `..`.
pub open spec fn spec_file_name(path: Seq<char>) -> Option<Seq<char>> {
    match last_normal_segment(split_on(path, '/')) {
        Some(name) => if name == seq!['.', '.'] {
            None
        } else {
            Some(name)
        },
        None => None,
    }
}

/// The extension of a file name: what follows its last `.`, unless the name
/// has no `.` or its only `.` is its first character.
pub open spec fn spec_name_extension(name: Seq<char>) -> Option<Seq<char>> {
    let pieces = split_on(name, '.');
    if pieces.len() < 2 || (pieces.len() == 2 && pieces[0].len() == 0) {
        None
    } else {
        Some(pieces.last())
    }
}

/// The extension of a Unix path (`Path::extension`).
pub open spec fn spec_extension(path: Seq<char>) -> Option<Seq<char>> {
    match spec_file_name(path) {
        Some(name) => spec_name_extension(name),
        None => None,
    }
}

/// An ASCII character in lower case.
pub open spec fn ascii_lower(c: char) -> char {
    if is_upper(c) {
        (c as int + 32) as char
    } else {
        c
    }
}

/// Whether `ext` is `mmdb` ignoring ASCII case.
pub open spec fn is_mmdb_extension(ext: Seq<char>) -> bool {
    ext.len() == 4 && ascii_lower(ext[0]) == 'm' && ascii_lower(ext[1]) == 'm' && ascii_lower(
        ext[2],
    ) == 'd' && ascii_lower(ext[3]) == 'b'
}

/// Whether an archive entry at `path` is a MaxMind database: its extension is
/// `mmdb`, in any ASCII case.
pub open spec fn spec_is_mmdb_path(path: Seq<char>) -> bool {
    match spec_extension(path) {
        Some(ext) => is_mmdb_extension(ext),
        None => false,
    }
}

fn lower_char(c: char) -> (r: char)
    ensures
        r == ascii_lower(c),
{
    if 'A' <= c && c <= 'Z' {
        ((c as u32) + 32) as u8 as char
    } else {
        c
    }
}

/// The index of the last segment that is neither empty nor `.`.
fn last_normal_index(segments: &Vec<String>) -> (r: Option<usize>)
    ensures
        match r {
            Some(k) => k < segments@.len() && last_normal_segment(segments.deep_view()) == Some(
                segments@[k as int]@,
            ),
            None => last_normal_segment(segments.deep_view()) is None,
        },
{
    let ghost segs = segments.deep_view();
    let mut i = segments.len();
    assert(segs.take(i as int) =~= segs);
    while i > 0
        invariant
            i <= segments@.len(),
            segs == segments.deep_view(),
            last_normal_segment(segs) == last_normal_segment(segs.take(i as int)),
        decreases i,
    {
        let s = &segments[i - 1];
        assert(segs.take(i as int).last() == s@);
        assert(segs.take(i as int).drop_last() =~= segs.take(i - 1));
        proof {
            reveal_strlit(".");
            assert("."@ =~= seq!['.']);
        }
        if s.unicode_len() != 0 && !str_eq(s.as_str(), ".") {
            return Some(i - 1);
        }
        i = i - 1;
    }
    None
}

/// Whether an archive entry at `path` is a MaxMind database (its extension is
/// `mmdb`, in any ASCII case).
pub fn is_mmdb_path(path: &str) -> (r: bool)
    ensures
        r == spec_is_mmdb_path(path@),
{
    let segments = split_on_char(path, '/');
    let k = match last_normal_index(&segments) {
        Some(k) => k,
        None => return false,
    };
    let name = &segments[k];
    proof {
        reveal_strlit("..");
        assert(".."@ =~= seq!['.', '.']);
        assert(segments.deep_view()[k as int] == name@);
    }
    if str_eq(name.as_str(), "..") {
        return false;
    }
    let pieces = split_on_char(name.as_str(), '.');
    proof {
        lemma_split_on_nonempty(name@, '.');
    }
    let n = pieces.len();
    if n < 2 || (n == 2 && pieces[0].unicode_len() == 0) {
        return false;
    }
    let ext = &pieces[n - 1];
    assert(pieces.deep_view()[n - 1] == ext@);
    assert(pieces.deep_view()[0] == pieces@[0]@);
    assert(spec_extension(path@) == Some(ext@));
    if ext.unicode_len() != 4 {
        return false;
    }
    lower_char(ext.get_char(0)) == 'm' && lower_char(ext.get_char(1)) == 'm' && lower_char(
        ext.get_char(2),
    ) == 'd' && lower_char(ext.get_char(3)) == 'b'
}


/// The view of an archive entry: its path, when it is valid UTF-8, and its
/// contents.
pub open spec fn archive_entry_view(e: (Option<String>, Vec<u8>)) -> (Option<Seq<char>>, Seq<u8>) {
    (
        match e.0 {
            Some(p) => Some(p@),
            None => None,
        },
        e.1@,
    )
}

/// The entries of a gzip-compressed tar archive, in order: each path when it is
/// valid UTF-8, and the contents; nothing when the archive does not read.
pub uninterp spec fn spec_targz_entries(archive: Seq<u8>) -> Option<
    Seq<(Option<Seq<char>>, Seq<u8>)>,
>;

/// Reads the entries of a gzip-compressed tar archive held in memory
/// (`tar::Archive::new(flate2::read::GzDecoder::new(..))`, `entries`, then each
/// entry's `path` with `to_str`, and its contents); an error that stops the
/// reading is reported by its message, whose text is not stated.
#[verifier::external_body]
fn targz_entries(archive: &[u8]) -> (r: Result<Vec<(Option<String>, Vec<u8>)>, String>)
    ensures
        match spec_targz_entries(archive@) {
            Some(es) => r is Ok && r->Ok_0@.map_values(|e: (Option<String>, Vec<u8>)| archive_entry_view(e)) == es,
            None => r is Err,
        },
{
    ::tar::Archive::new(::flate2::read::GzDecoder::new(archive)).entries().and_then(
        |es| es.map(|e| e.and_then(|mut e| {
            let path = e.path()?.to_str().map(|p| p.to_string());
            let mut contents = Vec::new();
            ::std::io::Read::read_to_end(&mut e, &mut contents)?;
            Ok((path, contents))
        })).collect(),
    ).map_err(|e| e.to_string())
}

/// The contents of the last entry whose path is a MaxMind database.
pub open spec fn last_database(es: Seq<(Option<Seq<char>>, Seq<u8>)>) -> Option<Seq<u8>>
    decreases es.len(),
{
    if es.len() == 0 {
        None
    } else if es.last().0 is Some && spec_is_mmdb_path(es.last().0->0) {
        Some(es.last().1)
    } else {
        last_database(es.drop_last())
    }
}

/// Whether every entry's path is valid UTF-8.
pub open spec fn all_paths_text(es: Seq<(Option<Seq<char>>, Seq<u8>)>) -> bool {
    forall|i: int| 0 <= i < es.len() ==> (#[trigger] es[i]).0 is Some
}

/// The view of an optional byte vector.
pub open spec fn option_contents(v: Option<Vec<u8>>) -> Option<Seq<u8>> {
    match v {
        Some(b) => Some(b@),
        None => None,
    }
}

/// The MaxMind database in a downloaded gzip-compressed tar archive: the
/// contents of the last entry whose path has the extension `mmdb` (in any
/// ASCII case), or `None` when there is none. An archive that does not read is
/// an `Io` error; an entry whose path is not valid UTF-8 is the error
/// `Custom("Failed to convert path to string")`.
pub fn database_in_archive(archive: &[u8]) -> (r: Result<Option<Vec<u8>>, MaxmindDbError>)
    ensures
        spec_targz_entries(archive@) is None ==> r is Err && r->Err_0 is Io,
        spec_targz_entries(archive@) is Some && !all_paths_text(spec_targz_entries(archive@)->0)
            ==> r is Err && r->Err_0 is Custom && r->Err_0->Custom_0@
            == "Failed to convert path to string"@,
        spec_targz_entries(archive@) is Some && all_paths_text(spec_targz_entries(archive@)->0)
            ==> r is Ok && option_contents(r->Ok_0) == last_database(
            spec_targz_entries(archive@)->0,
        ),
{
    let entries = match targz_entries(archive) {
        Ok(es) => es,
        Err(m) => return Err(MaxmindDbError::Io(m)),
    };
    let ghost es = entries@.map_values(|e: (Option<String>, Vec<u8>)| archive_entry_view(e));
    let mut found: Option<Vec<u8>> = None;
    let mut i: usize = 0;
    assert(es.take(0) =~= Seq::<(Option<Seq<char>>, Seq<u8>)>::empty());
    while i < entries.len()
        invariant
            es == entries@.map_values(|e: (Option<String>, Vec<u8>)| archive_entry_view(e)),
            spec_targz_entries(archive@) == Some(es),
            i <= entries@.len(),
            all_paths_text(es.take(i as int)),
            option_contents(found) == last_database(es.take(i as int)),
        decreases entries@.len() - i,
    {
        let entry = &entries[i];
        assert(es.take(i + 1).drop_last() =~= es.take(i as int));
        assert(es.take(i + 1).last() == archive_entry_view(entries@[i as int]));
        match &entry.0 {
            None => {
                assert(es[i as int].0 is None);
                proof {
                    reveal_strlit("Failed to convert path to string");
                }
                return Err(MaxmindDbError::Custom(to_owned_string("Failed to convert path to string")));
            },
            Some(path) => {
                if is_mmdb_path(path.as_str()) {
                    found = Some(entry.1.clone());
                }
            },
        }
        assert forall|j: int| 0 <= j < i + 1 implies (#[trigger] es.take(i + 1)[j]).0 is Some by {
            if j < i {
                assert(es.take(i + 1)[j] == es.take(i as int)[j]);
            }
        }
        i = i + 1;
    }
    assert(es.take(entries@.len() as int) =~= es);
    Ok(found)
}

} // verus!
