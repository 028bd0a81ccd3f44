//! Paths as text: file names, stems, extensions and the joining of parts.

use vstd::prelude::*;
use vstd::string::*;

verus! {

/// The final component of a path, as `std::path::Path::file_name` reads it;
/// `None` where the path has no such component (it is empty, a root, or ends
/// in `..`).
pub uninterp spec fn file_name_of(path: Seq<char>) -> Option<Seq<char>>;

/// The path that `std::path::Path::join` makes of a base and a further part.
pub uninterp spec fn joined_path(base: Seq<char>, part: Seq<char>) -> Seq<char>;

/// The path that `std::path::Path::with_extension` makes of a path and a new
/// extension.
pub uninterp spec fn path_with_extension(path: Seq<char>, extension: Seq<char>) -> Seq<char>;

/// Calls `std::path::Path::file_name`. Trusted: the result is the final
/// component that std finds in `path`, handed back as text.
#[verifier::external_body]
pub(crate) fn file_name(path: &str) -> (name: Option<String>)
    ensures
        match name {
            Some(n) => file_name_of(path@) == Some(n@),
            None => file_name_of(path@) is None,
        },
{
    std::path::Path::new(path).file_name().map(|n| n.to_string_lossy().into_owned())
}

/// Calls `std::path::Path::join`. Trusted: the result is the path that std
/// builds from `base` and `part`.
#[verifier::external_body]
pub(crate) fn join(base: &str, part: &str) -> (joined: String)
    ensures
        joined@ == joined_path(base@, part@),
{
    std::path::Path::new(base).join(part).to_string_lossy().into_owned()
}

/// Whether `text` holds no character that separates the parts of a path.
pub open spec fn has_no_separator(text: Seq<char>) -> bool {
    forall|i: int| 0 <= i < text.len() ==> text[i] != '/' && text[i] != '\\'
}

/// Calls `std::path::Path::with_extension`. Trusted: the result is the path
/// that std builds from `path` with its extension set to `extension`. Std
/// panics on an extension that holds a path separator, which the
/// precondition leaves out.
#[verifier::external_body]
pub(crate) fn with_extension(path: &str, extension: &str) -> (changed: String)
    requires
        has_no_separator(extension@),
    ensures
        changed@ == path_with_extension(path@, extension@),
{
    std::path::Path::new(path).with_extension(extension).to_string_lossy().into_owned()
}

/// The position of the last `.` in `name`, or -1 where it holds none.
pub open spec fn last_dot(name: Seq<char>) -> int
    decreases name.len(),
{
    if name.len() == 0 {
        -1
    } else if name.last() == '.' {
        name.len() - 1
    } else {
        last_dot(name.drop_last())
    }
}

/// The stem of a file name, by the rule of `std::path::Path::file_stem`: the
/// whole name where it has no `.` beyond its first character, and else what
/// stands before its last `.`.
pub open spec fn name_stem(name: Seq<char>) -> Seq<char> {
    if last_dot(name) > 0 {
        name.subrange(0, last_dot(name))
    } else {
        name
    }
}

/// The extension of a file name, by the rule of
/// `std::path::Path::extension`: what stands after its last `.`, where that
/// `.` is not the first character of the name.
pub open spec fn name_extension(name: Seq<char>) -> Option<Seq<char>> {
    if last_dot(name) > 0 {
        Some(name.subrange(last_dot(name) + 1, name.len() as int))
    } else {
        None
    }
}

/// `last_dot` finds a `.`, and no `.` stands behind it.
pub proof fn lemma_last_dot(name: Seq<char>)
    ensures
        -1 <= last_dot(name) < name.len(),
        last_dot(name) >= 0 ==> name[last_dot(name)] == '.',
        forall|j: int| last_dot(name) < j < name.len() ==> name[j] != '.',
    decreases name.len(),
{
    if name.len() > 0 && name.last() != '.' {
        let front = name.drop_last();
        lemma_last_dot(front);
        assert forall|j: int| last_dot(name) < j < name.len() implies name[j] != '.' by {
            if j < front.len() {
                assert(front[j] == name[j]);
            }
        }
    }
}

/// A file name is its stem where it has no extension, and else its stem, a
/// `.` and its extension.
pub proof fn lemma_stem_and_extension(name: Seq<char>)
    ensures
        match name_extension(name) {
            Some(extension) => name == name_stem(name) + seq!['.'] + extension,
            None => name == name_stem(name),
        },
{
    lemma_last_dot(name);
}

/// The last `.` of a name that ends in a `.` and an extension without one is
/// the `.` before that extension.
pub proof fn lemma_last_dot_of_suffix(stem: Seq<char>, extension: Seq<char>)
    requires
        forall|i: int| 0 <= i < extension.len() ==> extension[i] != '.',
    ensures
        last_dot(stem + seq!['.'] + extension) == stem.len(),
    decreases extension.len(),
{
    let name = stem + seq!['.'] + extension;
    if extension.len() > 0 {
        assert(name.drop_last() =~= stem + seq!['.'] + extension.drop_last());
        lemma_last_dot_of_suffix(stem, extension.drop_last());
    }
}

/// Finds the last `.` of `name` in one pass over its characters.
fn find_last_dot(name: &str) -> (found: Option<usize>)
    ensures
        match found {
            Some(i) => i == last_dot(name@),
            None => last_dot(name@) == -1,
        },
{
    let len = name.unicode_len();
    let mut found: Option<usize> = None;
    let mut i: usize = 0;
    for c in it: name.chars()
        invariant
            i == it.index(),
            it.seq() == name@,
            len == name@.len(),
            match found {
                Some(k) => k == last_dot(name@.take(i as int)),
                None => last_dot(name@.take(i as int)) == -1,
            },
    {
        assert(name@.take(i + 1).drop_last() =~= name@.take(i as int));
        if c == '.' {
            found = Some(i);
        }
        i = i + 1;
    }
    assert(name@.take(i as int) =~= name@);
    found
}

/// The stem of the final component of `path`; `None` where the path has no
/// file name.
pub open spec fn path_stem(path: Seq<char>) -> Option<Seq<char>> {
    match file_name_of(path) {
        Some(name) => Some(name_stem(name)),
        None => None,
    }
}

/// The extension of the final component of `path`; `None` where the path has
/// no file name, or its file name has no extension.
pub open spec fn path_extension(path: Seq<char>) -> Option<Seq<char>> {
    match file_name_of(path) {
        Some(name) => name_extension(name),
        None => None,
    }
}

/// What an optional string holds, as an optional sequence of characters.
pub open spec fn text_of(value: Option<String>) -> Option<Seq<char>> {
    match value {
        Some(s) => Some(s@),
        None => None,
    }
}

/// The stem of the file that `path` names.
pub fn file_stem(path: &str) -> (stem: Option<String>)
    ensures
        text_of(stem) == path_stem(path@),
{
    match file_name(path) {
        None => None,
        Some(name) => {
            proof {
                lemma_last_dot(name@);
            }
            match find_last_dot(name.as_str()) {
                Some(dot) if dot > 0 => Some(name.as_str().substring_char(0, dot).to_owned()),
                _ => Some(name),
            }
        },
    }
}

/// The extension of the file that `path` names.
pub fn extension(path: &str) -> (ext: Option<String>)
    ensures
        text_of(ext) == path_extension(path@),
{
    match file_name(path) {
        None => None,
        Some(name) => {
            proof {
                lemma_last_dot(name@);
            }
            let len = name.as_str().unicode_len();
            match find_last_dot(name.as_str()) {
                Some(dot) if dot > 0 => Some(
                    name.as_str().substring_char(dot + 1, len).to_owned(),
                ),
                _ => None,
            }
        },
    }
}

/// Whether `path` names a source photograph: its extension is exactly `jpg`
/// or `jpeg`, in lower case.
pub open spec fn is_image_path(path: Seq<char>) -> bool {
    path_extension(path) == Some("jpg"@) || path_extension(path) == Some("jpeg"@)
}

/// Tells whether `path` names a source photograph.
pub fn is_image_file(path: &str) -> (eligible: bool)
    ensures
        eligible == is_image_path(path@),
{
    match extension(path) {
        None => false,
        Some(ext) => ext == "jpg".to_owned() || ext == "jpeg".to_owned(),
    }
}

} // verus!
