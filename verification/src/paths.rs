//! Paths, held as strings, and what the platform's path rules say of them.

use crate::text::{chars_of, string_of};
use crate::types::opt_view;
use vstd::prelude::*;

verus! {

/// The last component of `path`, as the platform's path rules give it.
pub uninterp spec fn path_file_name(path: Seq<char>) -> Option<Seq<char>>;

/// The last component of `path` without its extension.
pub uninterp spec fn path_file_stem(path: Seq<char>) -> Option<Seq<char>>;

/// The extension of the last component of `path`, without the dot.
pub uninterp spec fn path_extension(path: Seq<char>) -> Option<Seq<char>>;

/// The path `tail` as seen from the directory `base`.
pub uninterp spec fn path_join(base: Seq<char>, tail: Seq<char>) -> Seq<char>;

/// `std::path::Path::file_name`: the final component of the path, if there
/// is one. The result is a function of the path's text alone.
#[verifier::external_body]
pub(crate) fn file_name(path: &str) -> (name: Option<String>)
    ensures
        opt_view(name) == path_file_name(path@),
{
    std::path::Path::new(path).file_name().and_then(|n| n.to_str()).map(|n| n.to_string())
}

/// `std::path::Path::file_stem`: the final component of the path without
/// its extension, if there is one. The result is a function of the path's
/// text alone.
#[verifier::external_body]
pub(crate) fn file_stem(path: &str) -> (stem: Option<String>)
    ensures
        opt_view(stem) == path_file_stem(path@),
{
    std::path::Path::new(path).file_stem().and_then(|n| n.to_str()).map(|n| n.to_string())
}

/// `std::path::Path::extension`: the extension of the final component, if
/// it has one. The result is a function of the path's text alone.
#[verifier::external_body]
pub(crate) fn extension(path: &str) -> (ext: Option<String>)
    ensures
        opt_view(ext) == path_extension(path@),
{
    std::path::Path::new(path).extension().and_then(|n| n.to_str()).map(|n| n.to_string())
}

/// `std::path::Path::join`: `tail` adjoined to `base`. The result is a
/// function of the two texts alone.
#[verifier::external_body]
pub(crate) fn join(base: &str, tail: &str) -> (joined: String)
    ensures
        joined@ == path_join(base@, tail@),
{
    std::path::Path::new(base).join(tail).to_string_lossy().into_owned()
}

/// The name to show for the archive at `path`: its file stem, or `unknown`
/// where the path has none.
pub open spec fn display_stem(path: Seq<char>) -> Seq<char> {
    match path_file_stem(path) {
        Some(stem) => stem,
        None => "unknown"@,
    }
}

/// The name to show for the archive at `path`.
pub fn stem_or_unknown(path: &str) -> (name: String)
    ensures
        name@ == display_stem(path@),
{
    match file_stem(path) {
        Some(stem) => stem,
        None => "unknown".to_owned(),
    }
}

/// Where the file at `path` stands in the directory `dir`: `dir` joined with
/// the file's name, or with nothing where the path has no file name.
pub open spec fn placed_in(dir: Seq<char>, path: Seq<char>) -> Seq<char> {
    match path_file_name(path) {
        Some(name) => path_join(dir, name),
        None => path_join(dir, Seq::<char>::empty()),
    }
}

/// Where the file at `path` stands in the directory `dir`.
pub fn place_in(dir: &str, path: &str) -> (placed: String)
    ensures
        placed@ == placed_in(dir@, path@),
{
    match file_name(path) {
        Some(name) => join(dir, name.as_str()),
        None => {
            let empty = String::new();
            join(dir, empty.as_str())
        },
    }
}

/// `path` with every backslash turned into a slash.
pub open spec fn slashed(path: Seq<char>) -> Seq<char> {
    path.map_values(|c: char| if c == '\\' { '/' } else { c })
}

/// Paths that can be written with forward slashes only.
pub trait PathExt {
    /// The text of the path.
    spec fn path_text(&self) -> Seq<char>;

    /// The path with every backslash turned into a slash.
    fn to_slash_lossy(&self) -> (text: String)
        ensures
            text@ == slashed(self.path_text()),
    ;
}

impl PathExt for str {
    open spec fn path_text(&self) -> Seq<char> {
        self@
    }

    fn to_slash_lossy(&self) -> (text: String) {
        let chars = chars_of(self);
        let mut out: Vec<char> = Vec::new();
        let mut i: usize = 0;
        while i < chars.len()
            invariant
                i <= chars.len(),
                out.len() == i,
                forall|j: int|
                    0 <= j < i ==> #[trigger] out[j] == (if chars[j] == '\\' {
                        '/'
                    } else {
                        chars[j]
                    }),
            decreases chars.len() - i,
        {
            let c = chars[i];
            if c == '\\' {
                out.push('/');
            } else {
                out.push(c);
            }
            i += 1;
        }
        assert(out@ =~= slashed(self@));
        string_of(&out)
    }
}

impl PathExt for String {
    open spec fn path_text(&self) -> Seq<char> {
        self@
    }

    fn to_slash_lossy(&self) -> (text: String) {
        self.as_str().to_slash_lossy()
    }
}

} // verus!
