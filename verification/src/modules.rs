//! Where the editor looks for the module that an import names, and what
//! the output of the version-control tool says.

use crate::path::{join, path_joined, Platform};
use crate::text::{
    chained, contains_char, contains_text, ends_with, first_word, occurs_in, optional_text, from_chars, leading_words, lines, lines_of, matches_at,
    replace_all, replaced, second_word, slice_chars, starts_with, texts_of, to_chars, trim_chars,
    trimmed, trimmed_start,
};
use vstd::prelude::*;
use vstd::string::*;

verus! {

/// The separator of path components on a host.
pub open spec fn separator_of(platform: Platform) -> Seq<char> {
    match platform {
        Platform::Windows => "\\"@,
        Platform::Unix => "/"@,
    }
}

/// Where a module name points, before the host's separator is applied:
/// under `src` of the project for the alias `@/`, under the project root
/// for `./`, itself where it looks like a path, and else under
/// `node_modules` of the project.
pub open spec fn module_location(root: Seq<char>, name: Seq<char>) -> Seq<char> {
    if "@/"@.is_prefix_of(name) || "@\\"@.is_prefix_of(name) {
        root + "/src/"@ + replaced(replaced(name, "@/"@, ""@), "@\\"@, ""@)
    } else if "./"@.is_prefix_of(name) || ".\\"@.is_prefix_of(name) {
        root + "/"@ + replaced(replaced(name, "./"@, ""@), ".\\"@, ""@)
    } else if name.contains(':') || name.contains('\\') || name.contains('/') {
        name
    } else {
        root + "/node_modules/"@ + name
    }
}

/// Where a module name points, in the host's path syntax.
pub open spec fn located_module(root: Seq<char>, name: Seq<char>, platform: Platform) -> Seq<char> {
    replaced(module_location(root, name), "/"@, separator_of(platform))
}

/// What is tried after a module's path, in this order.
pub open spec fn module_suffixes() -> Seq<Seq<char>> {
    seq![
        ""@,
        ".ts"@,
        ".tsx"@,
        ".js"@,
        ".jsx"@,
        ".json"@,
        "/index.ts"@,
        "/index.tsx"@,
        "/index.js"@,
        "/index.jsx"@,
    ]
}

/// The position of the first `true` in `found`, if it has one.
pub open spec fn first_found(found: Seq<bool>) -> Option<int>
    decreases found.len(),
{
    if found.len() == 0 {
        None
    } else if found[0] {
        Some(0)
    } else {
        match first_found(found.skip(1)) {
            Some(i) => Some(i + 1),
            None => None,
        }
    }
}

/// The first position that was found holds `true` and no position before
/// it does; where none was found, no position holds `true`.
pub proof fn lemma_first_found(found: Seq<bool>)
    ensures
        match first_found(found) {
            Some(i) => 0 <= i < found.len() && found[i] && forall|k: int|
                0 <= k < i ==> !#[trigger] found[k],
            None => forall|k: int| 0 <= k < found.len() ==> !#[trigger] found[k],
        },
    decreases found.len(),
{
    if found.len() > 0 && !found[0] {
        let rest = found.skip(1);
        lemma_first_found(rest);
        match first_found(rest) {
            Some(i) => {
                assert(found[i + 1] == rest[i]);
                assert forall|k: int| 0 <= k < i + 1 implies !#[trigger] found[k] by {
                    if k > 0 {
                        assert(found[k] == rest[k - 1]);
                    }
                }
            },
            None => {
                assert forall|k: int| 0 <= k < found.len() implies !#[trigger] found[k] by {
                    if k > 0 {
                        assert(found[k] == rest[k - 1]);
                    }
                }
            },
        }
    }
}

/// Where a module name points: see [`located_module`].
pub fn locate_module(project_root: &str, module_name: &str, platform: Platform) -> (path: String)
    ensures
        path@ == located_module(project_root@, module_name@, platform),
{
    let location = if starts_with(module_name, "@/") || starts_with(module_name, "@\\") {
        let first = replace_all(module_name, "@/", "");
        let bare = replace_all(first.as_str(), "@\\", "");
        let mut location = chained(project_root, "/src/");
        location.append(bare.as_str());
        location
    } else if starts_with(module_name, "./") || starts_with(module_name, ".\\") {
        let first = replace_all(module_name, "./", "");
        let bare = replace_all(first.as_str(), ".\\", "");
        let mut location = chained(project_root, "/");
        location.append(bare.as_str());
        location
    } else if contains_char(module_name, ':') || contains_char(module_name, '\\') || contains_char(
        module_name,
        '/',
    ) {
        String::from_str(module_name)
    } else {
        let mut location = chained(project_root, "/node_modules/");
        location.append(module_name);
        location
    };
    match platform {
        Platform::Windows => replace_all(location.as_str(), "/", "\\"),
        Platform::Unix => replace_all(location.as_str(), "/", "/"),
    }
}

/// The files that may hold a module, in the order in which they are tried:
/// the module's path followed by each of [`module_suffixes`].
pub fn module_candidates(project_root: &str, module_name: &str, platform: Platform) -> (candidates:
    Vec<String>)
    ensures
        candidates@.len() == module_suffixes().len(),
        forall|i: int|
            0 <= i < candidates@.len() ==> (#[trigger] candidates@[i])@ == located_module(
                project_root@,
                module_name@,
                platform,
            ) + module_suffixes()[i],
{
    let path = locate_module(project_root, module_name, platform);
    let mut candidates: Vec<String> = Vec::new();
    candidates.push(chained(path.as_str(), ""));
    candidates.push(chained(path.as_str(), ".ts"));
    candidates.push(chained(path.as_str(), ".tsx"));
    candidates.push(chained(path.as_str(), ".js"));
    candidates.push(chained(path.as_str(), ".jsx"));
    candidates.push(chained(path.as_str(), ".json"));
    candidates.push(chained(path.as_str(), "/index.ts"));
    candidates.push(chained(path.as_str(), "/index.tsx"));
    candidates.push(chained(path.as_str(), "/index.js"));
    candidates.push(chained(path.as_str(), "/index.jsx"));
    candidates
}

/// The file that holds a module, given which of its candidates exist: the
/// first candidate that exists, and the module's bare path where none does
/// or nothing is known of any.
pub fn resolve_module_path(
    project_root: &str,
    module_name: &str,
    platform: Platform,
    found: &Vec<bool>,
) -> (path: String)
    ensures
        path@ == located_module(project_root@, module_name@, platform) + match first_found(found@) {
            Some(i) => if i < module_suffixes().len() {
                module_suffixes()[i]
            } else {
                Seq::<char>::empty()
            },
            None => Seq::<char>::empty(),
        },
{
    let candidates = module_candidates(project_root, module_name, platform);
    let mut i: usize = 0;
    proof {
        assert(found@.skip(0) =~= found@);
        lemma_first_found(found@);
    }
    while i < found.len() && i < candidates.len()
        invariant
            i <= found.len(),
            i <= candidates.len(),
            forall|k: int| 0 <= k < i ==> !#[trigger] found@[k],
            candidates@.len() == module_suffixes().len(),
            forall|k: int|
                0 <= k < candidates@.len() ==> (#[trigger] candidates@[k])@ == located_module(
                    project_root@,
                    module_name@,
                    platform,
                ) + module_suffixes()[k],
        decreases found.len() - i,
    {
        if found[i] {
            proof {
                lemma_first_found(found@);
            }
            return candidates[i].clone();
        }
        i += 1;
    }
    proof {
        reveal_strlit("");
        lemma_first_found(found@);
        let bare = located_module(project_root@, module_name@, platform);
        assert(candidates@[0]@ =~= bare + Seq::<char>::empty());
    }
    candidates[0].clone()
}

/// How the editor reads a module name.
#[derive(Debug, Clone, PartialEq, Eq)]
pub enum ModuleReference {
    /// The name is the path.
    Kept(String),
    /// The path lies under the project root; what follows the leading slash.
    UnderRoot(String),
    /// The path lies under `src` of the project; what follows the alias `@src/`.
    UnderSource(String),
}

/// Whether the editor keeps a module name as its path: a relative name, and
/// every name that neither starts from the root nor with the alias `@src/`.
pub open spec fn is_kept(name: Seq<char>) -> bool {
    "./"@.is_prefix_of(name) || "../"@.is_prefix_of(name) || (!"/"@.is_prefix_of(name)
        && !"@src/"@.is_prefix_of(name))
}

/// How the editor reads a module name: a name that [`is_kept`] as it is, a
/// name that starts with a slash as a path under the project root, and a
/// name that starts with `@src/` as a path under the project's sources.
pub fn module_reference(module_name: &str) -> (reference: ModuleReference)
    ensures
        match reference {
            ModuleReference::Kept(name) => is_kept(module_name@) && name@ == module_name@,
            ModuleReference::UnderRoot(rest) => !is_kept(module_name@) && "/"@.is_prefix_of(
                module_name@,
            ) && rest@ == module_name@.skip(1),
            ModuleReference::UnderSource(rest) => !is_kept(module_name@) && !"/"@.is_prefix_of(
                module_name@,
            ) && rest@ == module_name@.skip(5),
        },
{
    if starts_with(module_name, "./") || starts_with(module_name, "../") {
        return ModuleReference::Kept(String::from_str(module_name));
    }
    let chars = to_chars(module_name);
    if starts_with(module_name, "/") {
        proof {
            reveal_strlit("/");
        }
        let rest = slice_chars(&chars, 1, chars.len());
        proof {
            assert(rest@ =~= module_name@.skip(1));
        }
        return ModuleReference::UnderRoot(from_chars(&rest));
    }
    if starts_with(module_name, "@src/") {
        proof {
            reveal_strlit("@src/");
        }
        let rest = slice_chars(&chars, 5, chars.len());
        proof {
            assert(rest@ =~= module_name@.skip(5));
        }
        return ModuleReference::UnderSource(from_chars(&rest));
    }
    ModuleReference::Kept(String::from_str(module_name))
}

/// The path that the editor opens for a module name: the name itself where
/// it [`is_kept`]; for a name that starts with a slash, what follows the
/// slash adjoined to the project root; and for a name under the alias
/// `@src/`, what follows the alias adjoined to `src` under the project root.
pub open spec fn editor_path(root: Seq<char>, name: Seq<char>) -> Seq<char> {
    if is_kept(name) {
        name
    } else if "/"@.is_prefix_of(name) {
        path_joined(root, name.skip(1))
    } else {
        path_joined(path_joined(root, "src"@), name.skip(5))
    }
}

/// The path that the editor opens for a module name: see [`editor_path`].
/// Every name has one.
pub fn fs_resolve_module_path(project_root: &str, module_name: &str) -> (path: Option<String>)
    ensures
        path matches Some(text) && text@ == editor_path(project_root@, module_name@),
{
    match module_reference(module_name) {
        ModuleReference::Kept(name) => Some(name),
        ModuleReference::UnderRoot(rest) => Some(join(project_root, rest.as_str())),
        ModuleReference::UnderSource(rest) => {
            let source = join(project_root, "src");
            Some(join(source.as_str(), rest.as_str()))
        },
    }
}

/// The files and directories whose presence marks the directory that a
/// module belongs to as the root of its project.
pub fn root_markers() -> (markers: Vec<String>)
    ensures
        markers@.len() == 5,
        markers@[0]@ == "package.json"@,
        markers@[1]@ == "tsconfig.json"@,
        markers@[2]@ == ".git"@,
        markers@[3]@ == "src"@,
        markers@[4]@ == "node_modules"@,
{
    let mut markers: Vec<String> = Vec::new();
    markers.push(String::from_str("package.json"));
    markers.push(String::from_str("tsconfig.json"));
    markers.push(String::from_str(".git"));
    markers.push(String::from_str("src"));
    markers.push(String::from_str("node_modules"));
    markers
}

/// The number of directory levels that a search for the project root visits at most.
pub const ROOT_SEARCH_LEVELS: usize = 10;

/// The level at which a search for the project root ends, given for each
/// level, counted upwards from the directory where the search begins,
/// whether it holds a marker: the first level with a marker among the
/// first [`ROOT_SEARCH_LEVELS`], if there is one.
pub open spec fn marked_level(marked: Seq<bool>) -> Option<int> {
    match first_found(marked) {
        Some(level) => if level < ROOT_SEARCH_LEVELS {
            Some(level)
        } else {
            None
        },
        None => None,
    }
}

/// The level at which a search for the project root ends: see [`marked_level`].
pub fn first_marked_level(marked: &Vec<bool>) -> (level: Option<usize>)
    ensures
        match marked_level(marked@) {
            Some(found) => level == Some(found as usize),
            None => level is None,
        },
{
    let mut i: usize = 0;
    proof {
        lemma_first_found(marked@);
    }
    while i < marked.len() && i < ROOT_SEARCH_LEVELS
        invariant
            i <= marked.len(),
            i <= ROOT_SEARCH_LEVELS,
            forall|k: int| 0 <= k < i ==> !#[trigger] marked@[k],
        decreases marked.len() - i,
    {
        if marked[i] {
            proof {
                lemma_first_found(marked@);
            }
            return Some(i);
        }
        i += 1;
    }
    proof {
        lemma_first_found(marked@);
    }
    None
}

/// Whether a line of source text imports something.
pub fn is_import_line(line: &str) -> (imports: bool)
    ensures
        imports == (occurs_in("import"@, line@) || occurs_in("require"@, line@)),
{
    contains_text(line, "import") || contains_text(line, "require")
}

/// Whether a path names a script that can be imported.
pub fn is_script_file(path: &str) -> (script: bool)
    ensures
        script == (".ts"@.is_suffix_of(path@) || ".tsx"@.is_suffix_of(path@) || ".js"@.is_suffix_of(
            path@,
        ) || ".jsx"@.is_suffix_of(path@)),
{
    ends_with(path, ".ts") || ends_with(path, ".tsx") || ends_with(path, ".js") || ends_with(
        path,
        ".jsx",
    )
}

/// A completion that the editor offers for an import.
#[derive(Debug, Clone, PartialEq, Eq)]
pub struct ImportSuggestion {
    pub label: String,
    pub detail: String,
    pub insert_text: String,
    pub documentation: String,
}

/// A file's path as an import names it: what follows the project root and
/// any slashes after it, where the path starts with the root, and else the
/// path itself.
pub open spec fn suggested_path(file: Seq<char>, root: Seq<char>) -> Seq<char> {
    if root.is_prefix_of(file) {
        trimmed_start(file.skip(root.len() as int), "/"@)
    } else {
        file
    }
}

/// A file's path as an import names it: see [`suggested_path`].
pub fn import_name(file_path: &str, project_root: &str) -> (relative: String)
    ensures
        relative@ == suggested_path(file_path@, project_root@),
{
    if starts_with(file_path, project_root) {
        let chars = to_chars(file_path);
        let root = to_chars(project_root);
        let rest = from_chars(&slice_chars(&chars, root.len(), chars.len()));
        proof {
            assert(rest@ =~= file_path@.skip(project_root@.len() as int));
        }
        crate::text::trim_start_matches(rest.as_str(), "/")
    } else {
        String::from_str(file_path)
    }
}

/// The completion for the file that an import names `relative` and whose
/// name without extension is `stem`: it is labelled with the stem, or with
/// the whole name where the file has none, and inserts the name in quotes.
pub fn import_suggestion(relative: &str, stem: Option<&str>) -> (suggestion: ImportSuggestion)
    ensures
        suggestion.label@ == match optional_text(stem) {
            Some(s) => s,
            None => relative@,
        },
        suggestion.detail@ == "Import from "@ + relative@,
        suggestion.insert_text@ == "\""@ + relative@ + "\""@,
        suggestion.documentation@ == "Import from "@ + relative@,
{
    let label = match stem {
        Some(s) => String::from_str(s),
        None => String::from_str(relative),
    };
    let detail = chained("Import from ", relative);
    let mut insert_text = chained("\"", relative);
    insert_text.append("\"");
    let documentation = chained("Import from ", relative);
    ImportSuggestion { label, detail, insert_text, documentation }
}

/// The texts of a list of strings.
pub open spec fn strings_of(list: Seq<String>) -> Seq<Seq<char>> {
    list.map_values(|text: String| text@)
}

/// The name of the branch in a line of the branch list: the line without
/// surrounding whitespace and without the asterisks that mark the current
/// branch.
pub open spec fn branch_name(line: Seq<char>) -> Seq<char> {
    trimmed(trimmed_start(trimmed(line), "*"@))
}

/// Whether a branch is shown: it has a name and is no remote-tracking branch.
pub open spec fn is_local_branch(name: Seq<char>) -> bool {
    name.len() > 0 && !"remotes/"@.is_prefix_of(name)
}

/// The local branches named in the given lines of a branch list.
pub open spec fn branches_in(list: Seq<Seq<char>>) -> Seq<Seq<char>>
    decreases list.len(),
{
    if list.len() == 0 {
        Seq::empty()
    } else {
        let name = branch_name(list[0]);
        if is_local_branch(name) {
            seq![name] + branches_in(list.skip(1))
        } else {
            branches_in(list.skip(1))
        }
    }
}

/// The local branches that the output of the branch list names, in order.
pub fn get_git_branches(output: &str) -> (branches: Vec<String>)
    ensures
        strings_of(branches@) == branches_in(lines_of(output@)),
{
    let chars = to_chars(output);
    let all = lines(&chars);
    let star = to_chars("*");
    let remotes = to_chars("remotes/");
    let mut branches: Vec<String> = Vec::new();
    let mut i: usize = 0;
    let ghost list = texts_of(all@);
    proof {
        assert(list.skip(0) =~= list);
        assert(strings_of(branches@) =~= Seq::<Seq<char>>::empty());
        reveal_strlit("*");
        assert(star@.len() == 1);
    }
    while i < all.len()
        invariant
            i <= all.len(),
            list == texts_of(all@),
            star@ == "*"@,
            star@.len() == 1,
            remotes@ == "remotes/"@,
            branches_in(list) == strings_of(branches@) + branches_in(list.skip(i as int)),
        decreases all.len() - i,
    {
        let ghost before = strings_of(branches@);
        let ghost rest = list.skip(i as int);
        let inner = trim_chars(&all[i]);
        let mut k: usize = 0;
        proof {
            assert(inner@.skip(0) =~= inner@);
        }
        while matches_at(&inner, k, &star)
            invariant
                k <= inner.len(),
                star@.len() == 1,
                trimmed_start(inner@, star@) == trimmed_start(inner@.skip(k as int), star@),
            decreases inner.len() - k,
        {
            proof {
                assert(inner@.skip(k as int).skip(1) =~= inner@.skip(k + 1));
            }
            k += 1;
        }
        let unmarked = slice_chars(&inner, k, inner.len());
        proof {
            assert(unmarked@ =~= inner@.skip(k as int));
        }
        let name = trim_chars(&unmarked);
        proof {
            assert(rest[0] == all@[i as int]@);
            assert(name@ == branch_name(rest[0]));
            assert(rest.skip(1) =~= list.skip(i + 1));
            assert(name@.skip(0) =~= name@);
        }
        if name.len() > 0 && !matches_at(&name, 0, &remotes) {
            let text = from_chars(&name);
            branches.push(text);
            proof {
                assert(strings_of(branches@) =~= before + seq![name@]);
                assert(strings_of(branches@) + branches_in(list.skip(i + 1)) =~= before + (seq![
                    name@,
                ] + branches_in(rest.skip(1))));
            }
        }
        i += 1;
    }
    proof {
        assert(list.skip(i as int) =~= Seq::<Seq<char>>::empty());
        assert(strings_of(branches@) + Seq::<Seq<char>>::empty() =~= strings_of(branches@));
    }
    branches
}

/// A changed path in the working tree.
#[derive(Debug, Clone, PartialEq, Eq)]
pub struct GitChange {
    /// The status letters.
    pub status: String,
    /// The path, up to its first whitespace.
    pub path: String,
}

/// The state of the working tree, as the status output gives it.
#[derive(Debug, Clone, PartialEq, Eq)]
pub struct GitStatus {
    /// `clean` for a tree without changes, `dirty` for any other.
    pub status: String,
    /// One entry for each line of the status output.
    pub changes: Vec<GitChange>,
}

/// The summary word for a number of changes.
pub open spec fn status_word(changes: nat) -> Seq<char> {
    if changes == 0 {
        "clean"@
    } else {
        "dirty"@
    }
}

/// The state of the working tree that the short status output describes:
/// each line gives one change, its first word the status and its second
/// the path.
pub fn get_git_info(output: &str) -> (info: GitStatus)
    ensures
        info.changes@.len() == lines_of(output@).len(),
        forall|i: int|
            0 <= i < info.changes@.len() ==> (#[trigger] info.changes@[i]).status@ == first_word(
                lines_of(output@)[i],
            ) && info.changes@[i].path@ == second_word(lines_of(output@)[i]),
        info.status@ == status_word(lines_of(output@).len()),
{
    let chars = to_chars(output);
    let all = lines(&chars);
    let mut changes: Vec<GitChange> = Vec::new();
    let mut i: usize = 0;
    let ghost list = texts_of(all@);
    while i < all.len()
        invariant
            i <= all.len(),
            list == texts_of(all@),
            changes@.len() == i,
            forall|k: int|
                0 <= k < i ==> (#[trigger] changes@[k]).status@ == first_word(list[k])
                    && changes@[k].path@ == second_word(list[k]),
        decreases all.len() - i,
    {
        let line = from_chars(&all[i]);
        let (status, path) = leading_words(line.as_str());
        proof {
            assert(list[i as int] == all@[i as int]@);
        }
        changes.push(GitChange { status, path });
        i += 1;
    }
    let status = if changes.len() == 0 {
        String::from_str("clean")
    } else {
        String::from_str("dirty")
    };
    GitStatus { status, changes }
}

/// The name of the current branch, from the output that names it.
pub fn current_branch(output: &str) -> (name: String)
    ensures
        name@ == trimmed(output@),
{
    crate::text::trim(output)
}

} // verus!
