//! Reading the member paths of an M3U playlist file.
use vstd::prelude::*;
use vstd::string::*;

use crate::text::{has_prefix, lines_of, split_lines, starts_with};
use crate::track::{extension, extension_of, is_remote};
use crate::text::same_text;

verus! {

/// A playlist file, by its extension.
pub open spec fn playlist_file(p: Seq<char>) -> bool {
    match extension_of(p) {
        Some(e) => e == "m3u"@ || e == "m3u8"@,
        None => false,
    }
}

/// Whether `p` names a playlist file.
pub fn is_playlist(p: &str) -> (r: bool)
    ensures
        r == playlist_file(p@),
{
    match extension(p) {
        Some(e) => same_text(e, "m3u") || same_text(e, "m3u8"),
        None => false,
    }
}

/// What adding a path to the queue takes in.
#[derive(Clone, Copy, Debug, PartialEq, Eq, Structural)]
pub enum AddSource {
    /// Nothing is there: nothing is added.
    Nothing,
    /// A folder: its files.
    Folder,
    /// A playlist file: its members, not the file itself.
    PlaylistFile,
    /// A single file.
    File,
}

/// What adding `path` takes in, given whether something is at `path`
/// (`exists`) and whether it is a folder (`is_dir`).
pub open spec fn add_source_of(path: Seq<char>, exists: bool, is_dir: bool) -> AddSource {
    if !exists {
        AddSource::Nothing
    } else if is_dir {
        AddSource::Folder
    } else if playlist_file(path) {
        AddSource::PlaylistFile
    } else {
        AddSource::File
    }
}

/// What adding `path` takes in (see `add_source_of`).
pub fn add_source(path: &str, exists: bool, is_dir: bool) -> (r: AddSource)
    ensures
        r == add_source_of(path@, exists, is_dir),
{
    if !exists {
        AddSource::Nothing
    } else if is_dir {
        AddSource::Folder
    } else if is_playlist(path) {
        AddSource::PlaylistFile
    } else {
        AddSource::File
    }
}

/// A line of an M3U file that names a member: not empty, and not a comment
/// or directive, which start with `#`.
pub open spec fn member_line(l: Seq<char>) -> bool {
    l.len() > 0 && !has_prefix(l, "#"@)
}

/// The path that member line `l` names, for a file in folder `folder`:
/// absolute paths and remote items stand as they are; a relative path is
/// taken from the folder.
pub open spec fn member_path(l: Seq<char>, folder: Seq<char>) -> Seq<char> {
    if has_prefix(l, "/"@) || is_remote(l) {
        l
    } else {
        folder + "/"@ + l
    }
}

/// The member paths named by the first `n` of `lines`, in order.
pub open spec fn members(lines: Seq<Seq<char>>, folder: Seq<char>, n: int) -> Seq<Seq<char>>
    decreases n,
{
    if n <= 0 {
        Seq::empty()
    } else {
        let init = members(lines, folder, n - 1);
        if member_line(lines[n - 1]) {
            init.push(member_path(lines[n - 1], folder))
        } else {
            init
        }
    }
}

/// The member paths of an M3U file with text `text` in folder `folder`.
pub fn playlist_get_vec(text: &str, folder: &str) -> (r: Vec<String>)
    ensures
        r@.map_values(|s: String| s@) == members(
            lines_of(text@),
            folder@,
            lines_of(text@).len() as int,
        ),
{
    let lines = split_lines(text);
    let ghost ls = lines@.map_values(|s: String| s@);
    let mut out: Vec<String> = Vec::new();
    let mut i: usize = 0;
    while i < lines.len()
        invariant
            i <= lines@.len(),
            ls == lines@.map_values(|s: String| s@),
            ls == lines_of(text@),
            out@.map_values(|s: String| s@) == members(ls, folder@, i as int),
        decreases lines@.len() - i,
    {
        let l = lines[i].as_str();
        assert(ls[i as int] == l@);
        if l.unicode_len() > 0 && !starts_with(l, "#") {
            let path = if starts_with(l, "/") || starts_with(l, "http") {
                String::from_str(l)
            } else {
                let mut p = String::from_str(folder);
                p.append("/");
                p.append(l);
                p
            };
            let ghost before = out@;
            out.push(path);
            assert(out@.map_values(|s: String| s@) == before.map_values(|s: String| s@).push(
                path@,
            ));
        }
        i = i + 1;
    }
    out
}

} // verus!
