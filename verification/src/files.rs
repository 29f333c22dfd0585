//! The records that the file-system commands of the host application
//! return to the user interface, and the rules by which a project's files
//! are offered for import.

use crate::text::{
    from_chars, join_from, joined, matches_at, optional_text, replace_chars, replaced,
    same_chars, same_text, split, split_by, texts_of, to_chars, trimmed_start,
};
use vstd::prelude::*;
use vstd::string::*;

verus! {

/// An entry of a directory listing.
#[derive(Debug, Clone, PartialEq, Eq)]
pub struct DirEntry {
    pub path: String,
    pub is_dir: bool,
}

/// An installed Python package, as the package manager lists it.
#[derive(Debug, Clone, PartialEq, Eq)]
pub struct PipPackage {
    pub name: String,
    pub version: String,
}

/// A node of the directory tree. A directory that was read has children,
/// possibly none; a file, or a directory that was not read, has no list.
pub struct FileItem {
    pub name: String,
    pub is_directory: bool,
    pub path: String,
    pub children: Option<Vec<FileItem>>,
}

/// What a path is expected to be.
#[derive(Debug, Clone, Copy, PartialEq, Eq)]
pub enum PathCheck {
    /// Anything that exists.
    Any,
    /// A directory.
    Directory,
    /// A regular file.
    File,
}

/// The names of directories that hold no files worth importing.
pub open spec fn ignored_directory(name: Seq<char>) -> bool {
    ||| name == "node_modules"@
    ||| name == ".git"@
    ||| name == "dist"@
    ||| name == "build"@
    ||| name == ".next"@
    ||| name == "out"@
    ||| name == ".cache"@
    ||| name == ".idea"@
    ||| name == ".vscode"@
    ||| name == ".github"@
    ||| name == "coverage"@
    ||| name == ".DS_Store"@
}

/// The extensions, in lower case, of files that can be imported.
pub open spec fn importable_extension(extension: Seq<char>) -> bool {
    ||| extension == "js"@
    ||| extension == "jsx"@
    ||| extension == "ts"@
    ||| extension == "tsx"@
    ||| extension == "vue"@
    ||| extension == "svelte"@
    ||| extension == "json"@
    ||| extension == "css"@
    ||| extension == "scss"@
    ||| extension == "sass"@
    ||| extension == "less"@
    ||| extension == "md"@
    ||| extension == "mdx"@
    ||| extension == "svg"@
    ||| extension == "png"@
    ||| extension == "jpg"@
    ||| extension == "jpeg"@
    ||| extension == "gif"@
    ||| extension == "webp"@
    ||| extension == "woff"@
    ||| extension == "woff2"@
    ||| extension == "ttf"@
    ||| extension == "otf"@
    ||| extension == "eot"@
}

/// Whether a scan skips the directory of this name.
pub fn is_ignored_directory(name: &str) -> (ignored: bool)
    ensures
        ignored == ignored_directory(name@),
{
    same_text(name, "node_modules") || same_text(name, ".git") || same_text(name, "dist")
        || same_text(name, "build") || same_text(name, ".next") || same_text(name, "out")
        || same_text(name, ".cache") || same_text(name, ".idea") || same_text(name, ".vscode")
        || same_text(name, ".github") || same_text(name, "coverage") || same_text(
        name,
        ".DS_Store",
    )
}

/// Whether a file with this extension, given in lower case, can be imported.
pub fn is_importable_extension(extension: &str) -> (importable: bool)
    ensures
        importable == importable_extension(extension@),
{
    same_text(extension, "js") || same_text(extension, "jsx") || same_text(extension, "ts")
        || same_text(extension, "tsx") || same_text(extension, "vue") || same_text(
        extension,
        "svelte",
    ) || same_text(extension, "json") || same_text(extension, "css") || same_text(
        extension,
        "scss",
    ) || same_text(extension, "sass") || same_text(extension, "less") || same_text(
        extension,
        "md",
    ) || same_text(extension, "mdx") || same_text(extension, "svg") || same_text(extension, "png")
        || same_text(extension, "jpg") || same_text(extension, "jpeg") || same_text(
        extension,
        "gif",
    ) || same_text(extension, "webp") || same_text(extension, "woff") || same_text(
        extension,
        "woff2",
    ) || same_text(extension, "ttf") || same_text(extension, "otf") || same_text(extension, "eot")
}

/// The number of leading positions at which `a` and `b` hold the same text.
pub open spec fn common_prefix_len(a: Seq<Seq<char>>, b: Seq<Seq<char>>) -> nat
    decreases a.len(),
{
    if a.len() > 0 && b.len() > 0 && a[0] == b[0] {
        1 + common_prefix_len(a.skip(1), b.skip(1))
    } else {
        0
    }
}

/// A path as imports name it, relative to the project root: slashes for
/// backslashes; then, where the path starts with the root, what follows the
/// root and any slashes after it; and else the path without the leading
/// components that it shares with the root.
pub open spec fn import_path(path: Seq<char>, root: Seq<char>) -> Seq<char> {
    let normalized = replaced(path, "\\"@, "/"@);
    if root.is_prefix_of(normalized) {
        trimmed_start(normalized.skip(root.len() as int), "/"@)
    } else {
        let parts = split_by(normalized, '/');
        let shared = common_prefix_len(split_by(root, '/'), parts);
        if shared > 0 {
            joined(parts.skip(shared as int), "/"@)
        } else {
            normalized
        }
    }
}

fn shared_components(a: &Vec<Vec<char>>, b: &Vec<Vec<char>>) -> (shared: usize)
    ensures
        shared == common_prefix_len(texts_of(a@), texts_of(b@)),
        shared <= a.len(),
        shared <= b.len(),
{
    let mut i: usize = 0;
    let ghost ta = texts_of(a@);
    let ghost tb = texts_of(b@);
    proof {
        assert(ta.skip(0) =~= ta);
        assert(tb.skip(0) =~= tb);
    }
    while i < a.len() && i < b.len() && same_chars(&a[i], &b[i])
        invariant
            i <= a.len(),
            i <= b.len(),
            ta == texts_of(a@),
            tb == texts_of(b@),
            common_prefix_len(ta, tb) == i + common_prefix_len(ta.skip(i as int), tb.skip(i as int)),
        decreases a.len() - i,
    {
        proof {
            assert(ta.skip(i as int).skip(1) =~= ta.skip(i + 1));
            assert(tb.skip(i as int).skip(1) =~= tb.skip(i + 1));
            assert(ta.skip(i as int)[0] == a@[i as int]@);
            assert(tb.skip(i as int)[0] == b@[i as int]@);
        }
        i += 1;
    }
    proof {
        if i < a.len() && i < b.len() {
            assert(ta.skip(i as int)[0] == a@[i as int]@);
            assert(tb.skip(i as int)[0] == b@[i as int]@);
        }
    }
    i
}

/// The path of an entry as imports name it: see [`import_path`].
pub fn relative_import_path(path: &str, root: &str) -> (relative: String)
    ensures
        relative@ == import_path(path@, root@),
{
    let path_chars = to_chars(path);
    let root_chars = to_chars(root);
    let backslash = to_chars("\\");
    let slash = to_chars("/");
    let normalized = replace_chars(&path_chars, &backslash, &slash);
    proof {
        assert(normalized@.skip(0) =~= normalized@);
    }
    if matches_at(&normalized, 0, &root_chars) {
        let mut i: usize = root_chars.len();
        proof {
            reveal_strlit("/");
            assert(slash@.len() == 1);
        }
        while matches_at(&normalized, i, &slash)
            invariant
                i <= normalized.len(),
                slash@.len() == 1,
                trimmed_start(normalized@.skip(root_chars@.len() as int), slash@) == trimmed_start(
                    normalized@.skip(i as int),
                    slash@,
                ),
            decreases normalized.len() - i,
        {
            proof {
                assert(normalized@.skip(i as int).skip(1) =~= normalized@.skip(i + 1));
            }
            i += 1;
        }
        let rest = crate::text::slice_chars(&normalized, i, normalized.len());
        proof {
            assert(rest@ =~= normalized@.skip(i as int));
        }
        from_chars(&rest)
    } else {
        let parts = split(&normalized, '/');
        let root_parts = split(&root_chars, '/');
        let shared = shared_components(&root_parts, &parts);
        if shared > 0 {
            let rest = join_from(&parts, shared, &slash);
            from_chars(&rest)
        } else {
            from_chars(&normalized)
        }
    }
}

/// The entry that a scan for imports reports for what it found at `path`,
/// if it reports one: a directory always, a file where its extension,
/// given in lower case and empty where the file has none, can be imported.
pub fn importable_entry(path: &str, is_dir: bool, extension: &str, root: &str) -> (entry: Option<
    DirEntry,
>)
    ensures
        match entry {
            Some(found) => (is_dir || importable_extension(extension@)) && found.is_dir == is_dir
                && found.path@ == import_path(path@, root@),
            None => !is_dir && !importable_extension(extension@),
        },
{
    if !is_dir && !is_importable_extension(extension) {
        None
    } else {
        Some(DirEntry { path: relative_import_path(path, root), is_dir })
    }
}

/// Whether a path, written with slashes, starts with a drive letter and a colon.
pub open spec fn drive_path(path: Seq<char>) -> bool {
    path.len() > 1 && (('a' <= path[0] && path[0] <= 'z') || ('A' <= path[0] && path[0] <= 'Z'))
        && path[1] == ':'
}

/// Whether a path, written with slashes, looks like a file: its last
/// component holds a dot.
pub open spec fn likely_file(path: Seq<char>) -> bool {
    split_by(path, '/').last().contains('.')
}

/// The answer to a search for the project root: the root and the directory
/// that the search began in, both with slashes, with `###` between them.
pub open spec fn project_root_answer(root: Seq<char>, current: Seq<char>) -> Seq<char> {
    replaced(root, "\\"@, "/"@) + "###"@ + replaced(current, "\\"@, "/"@)
}

/// The files and directories whose presence marks the root of a project.
pub fn project_markers() -> (markers: Vec<String>)
    ensures
        markers@.len() == 7,
        markers@[0]@ == "package.json"@,
        markers@[1]@ == ".git"@,
        markers@[2]@ == "tsconfig.json"@,
        markers@[3]@ == "next.config.js"@,
        markers@[4]@ == "next.config.ts"@,
        markers@[5]@ == "vite.config.js"@,
        markers@[6]@ == "vite.config.ts"@,
{
    let mut markers: Vec<String> = Vec::new();
    markers.push(String::from_str("package.json"));
    markers.push(String::from_str(".git"));
    markers.push(String::from_str("tsconfig.json"));
    markers.push(String::from_str("next.config.js"));
    markers.push(String::from_str("next.config.ts"));
    markers.push(String::from_str("vite.config.js"));
    markers.push(String::from_str("vite.config.ts"));
    markers
}

/// Where the search for a project root begins.
#[derive(Debug, Clone, Copy, PartialEq, Eq)]
pub enum SearchStart {
    /// In the current directory of the process.
    CurrentDirectory,
    /// In the path that was given.
    Path,
    /// In the parent of the path that was given.
    Parent,
}

/// Where the search for the root of the project around a path begins. Only
/// a path with a drive letter is followed. An existing directory is the
/// start itself, an existing file starts the search in its parent. A path
/// that does not exist is taken for a file where it looks like one.
pub open spec fn search_start_of(path: Seq<char>, exists: bool, is_dir: bool) -> SearchStart {
    let normalized = replaced(path, "\\"@, "/"@);
    if !drive_path(normalized) {
        SearchStart::CurrentDirectory
    } else if exists {
        if is_dir {
            SearchStart::Path
        } else {
            SearchStart::Parent
        }
    } else if likely_file(normalized) {
        SearchStart::Parent
    } else {
        SearchStart::Path
    }
}

/// Where the search for the root of the project around `path` begins, given
/// what was found at the path: see [`search_start_of`].
pub fn search_start(path: &str, exists: bool, is_dir: bool) -> (start: SearchStart)
    ensures
        start == search_start_of(path@, exists, is_dir),
{
    let normalized = crate::text::replace_all(path, "\\", "/");
    if !is_drive_path(normalized.as_str()) {
        SearchStart::CurrentDirectory
    } else if exists {
        if is_dir {
            SearchStart::Path
        } else {
            SearchStart::Parent
        }
    } else if is_likely_file(normalized.as_str()) {
        SearchStart::Parent
    } else {
        SearchStart::Path
    }
}

/// Whether the path starts with a drive letter and a colon: see [`drive_path`].
pub fn is_drive_path(path: &str) -> (drive: bool)
    ensures
        drive == drive_path(path@),
{
    let chars = to_chars(path);
    if chars.len() > 1 {
        let first = chars[0];
        let letter = ('a' <= first && first <= 'z') || ('A' <= first && first <= 'Z');
        letter && chars[1] == ':'
    } else {
        false
    }
}

/// Whether the path looks like a file: see [`likely_file`].
pub fn is_likely_file(path: &str) -> (likely: bool)
    ensures
        likely == likely_file(path@),
{
    let chars = to_chars(path);
    let parts = split(&chars, '/');
    proof {
        crate::text::lemma_split_by_nonempty(chars@, '/');
        assert(texts_of(parts@).len() == parts@.len());
    }
    let last = &parts[parts.len() - 1];
    proof {
        assert(texts_of(parts@).last() == last@);
    }
    let text = from_chars(last);
    crate::text::contains_char(text.as_str(), '.')
}

/// The answer to a search for the project root: see [`project_root_answer`].
pub fn fs_get_project_root(root: &str, current: &str) -> (answer: String)
    ensures
        answer@ == project_root_answer(root@, current@),
{
    let root_text = crate::text::replace_all(root, "\\", "/");
    let current_text = crate::text::replace_all(current, "\\", "/");
    let mut answer = crate::text::chained(root_text.as_str(), "###");
    answer.append(current_text.as_str());
    answer
}

/// The message for a kind of check that does not exist.
pub open spec fn invalid_check_text(kind: Seq<char>) -> Seq<char> {
    "Invalid check type: "@ + kind
}

/// The check that a request names: any path where it names none, a
/// directory for `directory`, a file for `file`; any other name is refused.
pub open spec fn path_check_for(kind: Option<Seq<char>>) -> Option<PathCheck> {
    match kind {
        None => Some(PathCheck::Any),
        Some(k) => if k == "directory"@ {
            Some(PathCheck::Directory)
        } else if k == "file"@ {
            Some(PathCheck::File)
        } else {
            None
        },
    }
}

/// The check that a request names: see [`path_check_for`].
pub fn check_path_exists(check_type: Option<&str>) -> (result: Result<PathCheck, String>)
    ensures
        match path_check_for(optional_text(check_type)) {
            Some(check) => result == Ok::<PathCheck, String>(check),
            None => result matches Err(text) && check_type matches Some(kind) && text@
                == invalid_check_text(kind@),
        },
{
    match check_type {
        None => Ok(PathCheck::Any),
        Some(kind) => {
            if same_text(kind, "directory") {
                Ok(PathCheck::Directory)
            } else if same_text(kind, "file") {
                Ok(PathCheck::File)
            } else {
                Err(crate::text::chained("Invalid check type: ", kind))
            }
        },
    }
}

/// Whether what was found at a path passes a check.
pub fn passes_check(check: PathCheck, exists: bool, is_dir: bool, is_file: bool) -> (passes: bool)
    ensures
        passes == match check {
            PathCheck::Any => exists,
            PathCheck::Directory => exists && is_dir,
            PathCheck::File => exists && is_file,
        },
{
    match check {
        PathCheck::Any => exists,
        PathCheck::Directory => exists && is_dir,
        PathCheck::File => exists && is_file,
    }
}

} // verus!
