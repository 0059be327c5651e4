//! Resolution of the file name stored with a texture into a path relative to
//! the directory of the source asset.

use vstd::prelude::*;
use vstd::string::StrSliceExecFns;
use vstd::utf8::encode_utf8;
use crate::text::characters;

verus! {

/// Whether `c` separates the components of a path: a slash or a backslash.
pub open spec fn is_separator(c: char) -> bool {
    c == '/' || c == '\\'
}

/// Whether a stored path is absolute: it starts with a slash, or it is at
/// least three bytes long and its second character is a colon, as in a path
/// with a drive letter.
pub open spec fn is_absolute_path(path: Seq<char>) -> bool {
    (path.len() >= 1 && path[0] == '/') || (encode_utf8(path).len() >= 3 && path.len() >= 2
        && path[1] == ':')
}

/// Whether the text `.fbm` followed by the separator `sep` stands at position
/// `i` of `path`: the end of the name of a folder of embedded textures.
pub open spec fn marker_at(path: Seq<char>, i: int, sep: char) -> bool {
    &&& 0 <= i
    &&& i + 5 <= path.len()
    &&& path[i] == '.'
    &&& path[i + 1] == 'f'
    &&& path[i + 2] == 'b'
    &&& path[i + 3] == 'm'
    &&& path[i + 4] == sep
}

/// The last position before `upto` at which the marker with separator `sep`
/// stands.
pub open spec fn last_marker(path: Seq<char>, sep: char, upto: int) -> Option<int>
    decreases upto,
{
    if upto <= 0 {
        None
    } else if marker_at(path, upto - 1, sep) {
        Some(upto - 1)
    } else {
        last_marker(path, sep, upto - 1)
    }
}

/// The position of the last separator before `upto`.
pub open spec fn last_separator(path: Seq<char>, upto: int) -> Option<int>
    decreases upto,
{
    if upto <= 0 || upto > path.len() {
        None
    } else if is_separator(path[upto - 1]) {
        Some(upto - 1)
    } else {
        last_separator(path, upto - 1)
    }
}

/// Where the marker of the embedded-texture folder stands: the last marker
/// written with a slash, or, where there is none, the last one written with a
/// backslash.
pub open spec fn folder_marker(path: Seq<char>) -> Option<int> {
    match last_marker(path, '/', path.len() as int) {
        Some(i) => Some(i),
        None => last_marker(path, '\\', path.len() as int),
    }
}

/// The position just behind the last separator before `upto`, or the start of
/// the path.
pub open spec fn component_start(path: Seq<char>, upto: int) -> int {
    match last_separator(path, upto) {
        Some(s) => s + 1,
        None => 0,
    }
}

/// Where the part of an absolute path that is kept begins: at the name of the
/// embedded-texture folder if the path runs through one, else at its last
/// component.
pub open spec fn kept_from(path: Seq<char>) -> int {
    match folder_marker(path) {
        Some(m) => component_start(path, m),
        None => component_start(path, path.len() as int),
    }
}

/// An absolute path without the directories that lead to the asset.
pub open spec fn strip_directories(path: Seq<char>) -> Seq<char> {
    path.skip(kept_from(path))
}

/// A stored path as a path relative to the directory of the source asset: an
/// absolute path without the directories that lead to the asset, a relative
/// path as it is.
pub open spec fn relative_form(path: Seq<char>) -> Seq<char> {
    if is_absolute_path(path) {
        strip_directories(path)
    } else {
        path
    }
}

/// The path, relative to the directory of the source asset, of a texture
/// stored with the file name `filename` and the absolute file name
/// `absolute_filename`: the relative form of the file name, or, if that is
/// empty, of the absolute file name. Where both are empty the texture has no
/// usable file name, and the path is empty.
pub open spec fn relative_texture_path(filename: Seq<char>, absolute_filename: Seq<char>) -> Seq<
    char,
> {
    if filename.len() > 0 {
        relative_form(filename)
    } else {
        relative_form(absolute_filename)
    }
}

/// The positions that the search for a separator and for a marker report lie
/// inside the path.
pub proof fn lemma_search_bounds(path: Seq<char>, sep: char, upto: int)
    requires
        upto <= path.len(),
    ensures
        last_marker(path, sep, upto) matches Some(i) ==> 0 <= i < upto && marker_at(path, i, sep),
        last_separator(path, upto) matches Some(i) ==> 0 <= i < upto && is_separator(path[i]),
        0 <= component_start(path, upto) <= if upto < 0 {
            0
        } else {
            upto
        },
    decreases upto,
{
    if upto > 0 {
        lemma_search_bounds(path, sep, upto - 1);
    }
}

/// The part of an absolute path that is kept begins inside the path.
pub proof fn lemma_kept_from_bounds(path: Seq<char>)
    ensures
        0 <= kept_from(path) <= path.len(),
{
    lemma_search_bounds(path, '/', path.len() as int);
    lemma_search_bounds(path, '\\', path.len() as int);
    match folder_marker(path) {
        Some(m) => {
            lemma_search_bounds(path, '/', m);
        },
        None => {},
    }
}

/// Searches backwards from `upto` for the marker written with `sep`.
fn find_last_marker(path: &Vec<char>, sep: char, upto: usize) -> (found: Option<usize>)
    requires
        upto <= path@.len(),
    ensures
        match found {
            Some(i) => i < upto && last_marker(path@, sep, upto as int) == Some(i as int),
            None => last_marker(path@, sep, upto as int) is None,
        },
{
    let mut i: usize = upto;
    while i > 0
        invariant
            i <= upto <= path@.len(),
            last_marker(path@, sep, upto as int) == last_marker(path@, sep, i as int),
        decreases i,
    {
        i -= 1;
        if path.len() - i >= 5 && path[i] == '.' && path[i + 1] == 'f' && path[i + 2] == 'b'
            && path[i + 3] == 'm' && path[i + 4] == sep {
            return Some(i);
        }
    }
    None
}

/// Searches backwards from `upto` for a separator, and reports the position
/// just behind it, or the start of the path.
fn find_component_start(path: &Vec<char>, upto: usize) -> (start: usize)
    requires
        upto <= path@.len(),
    ensures
        start == component_start(path@, upto as int),
        start <= upto,
{
    let mut i: usize = upto;
    while i > 0
        invariant
            i <= upto <= path@.len(),
            last_separator(path@, upto as int) == last_separator(path@, i as int),
        decreases i,
    {
        i -= 1;
        if path[i] == '/' || path[i] == '\\' {
            return i + 1;
        }
    }
    0
}

/// Removes from an absolute path the directories that lead to the asset: the
/// result begins at the name of the embedded-texture folder, if the path runs
/// through one, and at the last component otherwise.
pub fn strip_to_relative(path: &str) -> (kept: &str)
    ensures
        kept@ == strip_directories(path@),
{
    let chars = characters(path);
    let marker = match find_last_marker(&chars, '/', chars.len()) {
        Some(i) => Some(i),
        None => find_last_marker(&chars, '\\', chars.len()),
    };
    let start = match marker {
        Some(m) => find_component_start(&chars, m),
        None => find_component_start(&chars, chars.len()),
    };
    path.substring_char(start, chars.len())
}

/// Whether a stored path is absolute.
pub fn is_absolute(path: &str) -> (absolute: bool)
    ensures
        absolute == is_absolute_path(path@),
{
    let chars = characters(path);
    let byte_len = path.as_bytes().len();
    (chars.len() >= 1 && chars[0] == '/') || (byte_len >= 3 && chars.len() >= 2 && chars[1] == ':')
}

/// Brings a stored path into its relative form: an absolute path is stripped
/// of its directories, a relative one is used as it is.
pub fn to_relative_form(path: &str) -> (relative: &str)
    ensures
        relative@ == relative_form(path@),
{
    if is_absolute(path) {
        strip_to_relative(path)
    } else {
        path
    }
}

/// Computes the path of a texture relative to the directory of the source
/// asset, from the `filename` stored with it or, if that is empty, from the
/// `absolute_filename`. Whichever is used, a relative path is used as it is
/// and an absolute one is stripped of its directories. The result is empty
/// if both names are empty.
pub fn resolve_texture_path<'a>(filename: &'a str, absolute_filename: &'a str) -> (relative: &'a str)
    ensures
        relative@ == relative_texture_path(filename@, absolute_filename@),
{
    if !filename.is_empty() {
        to_relative_form(filename)
    } else {
        to_relative_form(absolute_filename)
    }
}

/// A position found in a path, as a position of the path without its first
/// `k` characters; nothing if it lies among those.
pub open spec fn shifted(found: Option<int>, k: int) -> Option<int> {
    match found {
        Some(i) => if i >= k {
            Some(i - k)
        } else {
            None
        },
        None => None,
    }
}

/// Searching a path without its first `k` characters finds what searching the
/// whole path finds behind them.
proof fn lemma_search_skipped(path: Seq<char>, k: int, sep: char, upto: int)
    requires
        0 <= k <= path.len(),
        0 <= upto <= path.len() - k,
    ensures
        last_marker(path.skip(k), sep, upto) == shifted(last_marker(path, sep, upto + k), k),
        last_separator(path.skip(k), upto) == shifted(last_separator(path, upto + k), k),
    decreases upto,
{
    if upto == 0 {
        lemma_search_bounds(path, sep, k);
    } else {
        lemma_search_skipped(path, k, sep, upto - 1);
    }
}

/// Stripping the directories of a path that was already stripped of them
/// changes nothing.
pub proof fn lemma_strip_directories_idempotent(path: Seq<char>)
    ensures
        strip_directories(strip_directories(path)) == strip_directories(path),
{
    let k = kept_from(path);
    let len = path.len() as int;
    lemma_kept_from_bounds(path);
    lemma_search_bounds(path, '/', len);
    lemma_search_bounds(path, '\\', len);
    lemma_search_skipped(path, k, '/', len - k);
    lemma_search_skipped(path, k, '\\', len - k);
    match folder_marker(path) {
        Some(m) => {
            lemma_search_bounds(path, '/', m);
            lemma_search_skipped(path, k, '/', m - k);
        },
        None => {},
    }
}

/// A path that is already relative is returned unchanged, whether it is
/// stored as the file name or, without a file name, as the absolute file
/// name.
pub proof fn lemma_relative_path_unchanged(filename: Seq<char>, absolute_filename: Seq<char>)
    ensures
        filename.len() > 0 && !is_absolute_path(filename) ==> relative_texture_path(
            filename,
            absolute_filename,
        ) == filename,
        filename.len() == 0 && !is_absolute_path(absolute_filename) ==> relative_texture_path(
            filename,
            absolute_filename,
        ) == absolute_filename,
{
}

/// Resolving is idempotent: a resolved path, stored as a file name, resolves
/// to itself. That resolving the same names twice gives the same path needs
/// no proof, `relative_texture_path` being a function of the names.
pub proof fn lemma_resolution_idempotent(filename: Seq<char>, absolute_filename: Seq<char>)
    ensures
        relative_texture_path(
            relative_texture_path(filename, absolute_filename),
            Seq::empty(),
        ) == relative_texture_path(filename, absolute_filename),
{
    lemma_strip_directories_idempotent(filename);
    lemma_strip_directories_idempotent(absolute_filename);
}

} // verus!
