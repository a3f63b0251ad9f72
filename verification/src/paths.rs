//! What the checks learn about a file-system path. Most path rules depend on
//! the platform, and whether a path exists depends on the disk; those answers
//! are taken as `PathFacts` and the checks state their verdict for every
//! possible answer. The rules that every platform shares are stated: a path
//! with no `\`, no `:` and no leading `//` has `/` as its only separator and
//! no prefix, so it is relative unless it starts with `/`, its final
//! component is the text after its last `/` when that text is a name, and
//! its extension is what follows the last `.` of that name when the `.` is
//! not the name's first character.

use vstd::prelude::*;

verus! {

/// Whether `path` reads the same on every platform: no backslash, no colon,
/// and no leading `//` (which Windows reads as a network prefix).
pub open spec fn portable_path(path: Seq<char>) -> bool {
    &&& !path.contains('\\')
    &&& !path.contains(':')
    &&& !(path.len() >= 2 && path[0] == '/' && path[1] == '/')
}

/// The text after the last `/` of a path (all of it when there is none).
pub open spec fn last_segment(path: Seq<char>) -> Seq<char>
    decreases path.len(),
{
    if path.len() == 0 {
        path
    } else if path.last() == '/' {
        Seq::empty()
    } else {
        last_segment(path.drop_last()).push(path.last())
    }
}

/// Whether the final component of `path` is, on every platform, the text
/// after its last `/`: the path is portable and that text is a name (not
/// empty, `.` or `..`).
pub open spec fn names_file(path: Seq<char>) -> bool {
    let segment = last_segment(path);
    &&& portable_path(path)
    &&& segment.len() > 0
    &&& segment != seq!['.']
    &&& segment != seq!['.', '.']
}

/// The text after the last `.` of a name, if it has a `.`.
pub open spec fn after_last_dot(name: Seq<char>) -> Option<Seq<char>>
    decreases name.len(),
{
    if name.len() == 0 {
        None
    } else if name.last() == '.' {
        Some(Seq::empty())
    } else {
        match after_last_dot(name.drop_last()) {
            Some(tail) => Some(tail.push(name.last())),
            None => None,
        }
    }
}

/// The extension of a file name: the text after its last `.`, unless there
/// is none or that `.` is the name's first character.
pub open spec fn extension_of_name(name: Seq<char>) -> Option<Seq<char>> {
    match after_last_dot(name) {
        Some(tail) => if tail.len() + 1 < name.len() {
            Some(tail)
        } else {
            None
        },
        None => None,
    }
}

/// An optional string taken by its text.
pub open spec fn text_of(text: Option<String>) -> Option<Seq<char>> {
    match text {
        Some(t) => Some(t@),
        None => None,
    }
}

/// `Path::is_absolute`. A portable path that does not start with `/` is
/// relative on every platform (Unix needs a leading `/`, Windows a prefix as
/// well as a root); any other answer depends on the platform and is left
/// unsaid.
#[verifier::external_body]
fn path_is_absolute(path: &str) -> (absolute: bool)
    ensures
        portable_path(path@) && !(path@.len() > 0 && path@[0] == '/') ==> !absolute,
{
    std::path::Path::new(path).is_absolute()
}

/// How a portable `path` joins a portable `parent`, on every platform: a
/// path starting with `/` replaces the parent; otherwise the path follows
/// the parent, after one separator where the parent is not empty and does
/// not end with `/`. That separator is `/` on Unix and `\` on Windows.
pub open spec fn joined(parent: Seq<char>, path: Seq<char>, result: Seq<char>) -> bool {
    if path.len() > 0 && path[0] == '/' {
        result == path
    } else if parent.len() == 0 || parent.last() == '/' {
        result == parent + path
    } else {
        result == parent + seq!['/'] + path || result == parent + seq!['\\'] + path
    }
}

/// A relative path joined to a parent that is not empty and does not end
/// with `/` is the parent, one separator, then the path: it starts with the
/// whole parent and ends with the whole path.
pub proof fn lemma_relative_join(parent: Seq<char>, path: Seq<char>, result: Seq<char>)
    requires
        joined(parent, path, result),
        !(path.len() > 0 && path[0] == '/'),
        parent.len() > 0,
        parent.last() != '/',
    ensures
        result.len() == parent.len() + 1 + path.len(),
        result.take(parent.len() as int) == parent,
        result[parent.len() as int] == '/' || result[parent.len() as int] == '\\',
        result.skip(parent.len() as int + 1) == path,
{
    if result == parent + seq!['/'] + path {
        assert(result.take(parent.len() as int) =~= parent);
        assert(result.skip(parent.len() as int + 1) =~= path);
    } else {
        assert(result.take(parent.len() as int) =~= parent);
        assert(result.skip(parent.len() as int + 1) =~= path);
    }
}

/// A path that starts with `/` joins any parent as itself, and so does any
/// path an empty parent is joined to.
pub proof fn lemma_join_keeps_path(parent: Seq<char>, path: Seq<char>, result: Seq<char>)
    requires
        joined(parent, path, result),
        (path.len() > 0 && path[0] == '/') || parent.len() == 0,
    ensures
        result == path,
{
    if parent.len() == 0 && !(path.len() > 0 && path[0] == '/') {
        assert(parent + path =~= path);
    }
}

/// `Path::join`, rendered with `Path::display`. Its documentation (through
/// `PathBuf::push`): a path with a root replaces the base, except the base's
/// prefix; a relative one is appended after a separator where the base does
/// not end with one. For a portable base and path (no prefix, `/` the only
/// separator in them) that is `joined`; the separator added is the
/// platform's. Other joins are left unsaid.
#[verifier::external_body]
fn path_join(base: &str, path: &str) -> (result: String)
    ensures
        portable_path(base@) && portable_path(path@) ==> joined(base@, path@, result@),
{
    std::path::Path::new(base).join(path).display().to_string()
}

/// `Path::exists`; the answer depends on the disk and is left unsaid.
#[verifier::external_body]
fn path_exists(path: &str) -> (exists: bool) {
    std::path::Path::new(path).exists()
}

/// `Path::is_file`; the answer depends on the disk and is left unsaid.
#[verifier::external_body]
fn path_is_file(path: &str) -> (is_file: bool) {
    std::path::Path::new(path).is_file()
}

/// `Path::extension`, as text. Its documentation derives the extension from
/// the final component: none without one, none without an embedded `.` or
/// when the only `.` leads, else the text after the last `.`. Where the final
/// component is known on every platform (`names_file`), so is the extension;
/// otherwise it is left unsaid.
#[verifier::external_body]
fn path_extension(path: &str) -> (extension: Option<String>)
    ensures
        names_file(path@) ==> text_of(extension) == extension_of_name(last_segment(path@)),
{
    std::path::Path::new(path).extension().and_then(|e| e.to_str()).map(|e| e.to_owned())
}

/// `Path::file_name`, as text: the final component, where it is known on
/// every platform (`names_file`) the text after the last `/`; otherwise it
/// depends on the platform's path rules and is left unsaid.
#[verifier::external_body]
pub(crate) fn path_file_name(path: &str) -> (file_name: Option<String>)
    ensures
        names_file(path@) ==> text_of(file_name) == Some(last_segment(path@)),
{
    std::path::Path::new(path).file_name().and_then(|e| e.to_str()).map(|e| e.to_owned())
}

/// What the checks know of a path written in the configuration.
pub struct PathFacts {
    /// Whether the written path is absolute.
    pub absolute: bool,
    /// The written path, or the written path joined to the configuration's
    /// directory when it is relative.
    pub resolved: String,
    /// Whether something exists at the resolved path.
    pub exists: bool,
    /// Whether the resolved path is a regular file.
    pub is_file: bool,
    /// The extension of the written path.
    pub extension: Option<String>,
    /// The final component of the written path.
    pub file_name: Option<String>,
}

/// Whether `path` is absolute, and the path itself when it is, or else
/// `path` joined to `parent`. For a portable parent and path the resolved
/// path is their join (a path starting with `/` being itself either way).
pub fn resolve(parent: &str, path: &str) -> (resolution: (bool, String))
    ensures
        resolution.0 ==> resolution.1@ == path@,
        portable_path(path@) && !(path@.len() > 0 && path@[0] == '/') ==> !resolution.0,
        portable_path(parent@) && portable_path(path@) ==> joined(parent@, path@, resolution.1@),
{
    let absolute = path_is_absolute(path);
    let resolved = if absolute {
        crate::text::owned(path)
    } else {
        path_join(parent, path)
    };
    (absolute, resolved)
}

/// Whether `facts` can be what is known of the written path `path`, relative
/// paths being taken from `parent`: an absolute path resolves to itself, a
/// portable path not starting with `/` is relative, a portable path resolves
/// to its join with a portable parent, only what exists can be a regular
/// file (and nothing is looked up for a blank path), and where the final
/// component is known on every platform the file name and extension are
/// those of `path`.
pub open spec fn describes(parent: Seq<char>, path: Seq<char>, facts: PathFacts) -> bool {
    &&& facts.absolute ==> facts.resolved@ == path
    &&& portable_path(path) && !(path.len() > 0 && path[0] == '/') ==> !facts.absolute
    &&& portable_path(parent) && portable_path(path) ==> joined(parent, path, facts.resolved@)
    &&& crate::text::blank(path) ==> !facts.exists
    &&& facts.is_file ==> facts.exists
    &&& names_file(path) ==> text_of(facts.file_name) == Some(last_segment(path)) && text_of(
        facts.extension,
    ) == extension_of_name(last_segment(path))
}

/// Gathers the facts about `path`, relative paths being taken from `parent`.
pub fn inspect(parent: &str, path: &str) -> (facts: PathFacts)
    ensures
        describes(parent@, path@, facts),
{
    let (absolute, resolved) = resolve(parent, path);
    let exists = !crate::text::is_blank(path) && path_exists(resolved.as_str());
    let is_file = exists && path_is_file(resolved.as_str());
    PathFacts {
        absolute,
        resolved,
        exists,
        is_file,
        extension: path_extension(path),
        file_name: path_file_name(path),
    }
}

} // verus!
