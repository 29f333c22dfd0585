//! Paths as the bridge shows and resolves them: the search path handed to
//! spawned shells, the target of a directory change, and the working
//! directory without the artefacts that canonicalisation leaves on a host
//! whose separator is the backslash.

use crate::error::TerminalError;
use crate::text::{
    chained, lemma_replaced_absent, lemma_replaced_without, lemma_trimmed_start_has_no_prefix,
    occurs_in, optional_text, replace_all, replaced, same_text, trim_start_matches,
    trimmed_start,
};
use vstd::prelude::*;
use vstd::string::*;

verus! {

/// The conventions of the host operating system.
#[derive(Debug, Clone, Copy, PartialEq, Eq)]
pub enum Platform {
    Windows,
    Unix,
}

/// A path of a host whose separator is the backslash, without the
/// artefacts of canonicalisation: no verbatim prefix `\\?\` anywhere,
/// backslashes for slashes, and no pairs of backslashes in front.
pub open spec fn without_unc(path: Seq<char>) -> Seq<char> {
    trimmed_start(replaced(replaced(path, "\\\\?\\"@, ""@), "/"@, "\\"@), "\\\\"@)
}

/// A path as the user interface shows it. Where the host's separator is the
/// backslash, the artefacts of canonicalisation are taken away: see
/// [`without_unc`]. Where it is the slash, canonicalisation leaves none, and
/// the path is shown as it is.
pub open spec fn cleaned(path: Seq<char>, platform: Platform) -> Seq<char> {
    match platform {
        Platform::Windows => without_unc(path),
        Platform::Unix => path,
    }
}

/// Whether a path is absolute in the path syntax of the host that the
/// program is built for: what `std::path::Path::is_absolute` tells of it.
pub uninterp spec fn path_is_absolute(path: Seq<char>) -> bool;

/// `path` adjoined to `base` in the path syntax of the host that the
/// program is built for: what `std::path::Path::join` makes of the two.
pub uninterp spec fn path_joined(base: Seq<char>, path: Seq<char>) -> Seq<char>;

/// Calls `dunce::simplified`, which gives the path back as it is or, where
/// the path starts with the verbatim prefix `\\?\` and is as valid without
/// it, gives back what follows those four characters. On hosts other than
/// Windows it always gives the path back as it is.
#[verifier::external_body]
fn simplified(path: &str) -> (simple: String)
    ensures
        simple@ == path@ || ("\\\\?\\"@.is_prefix_of(path@) && simple@ == path@.skip(4)),
{
    dunce::simplified(std::path::Path::new(path)).to_string_lossy().into_owned()
}

/// Calls `dirs::home_dir`: the home directory of the current user, where
/// the environment names one. Nothing is known of the answer.
#[verifier::external_body]
fn home_directory() -> (home: Option<String>) {
    match dirs::home_dir() {
        Some(path) => Some(path.to_string_lossy().into_owned()),
        None => None,
    }
}

/// Calls `std::path::Path::is_absolute`, whose answer follows the host's
/// path syntax and depends on the path alone.
#[verifier::external_body]
fn is_absolute(path: &str) -> (absolute: bool)
    ensures
        absolute == path_is_absolute(path@),
{
    std::path::Path::new(path).is_absolute()
}

/// Calls `std::path::Path::join`, which adjoins `path` to `base` in the
/// host's path syntax; the result depends on the two paths alone.
#[verifier::external_body]
pub(crate) fn join(base: &str, path: &str) -> (joined: String)
    ensures
        joined@ == path_joined(base@, path@),
{
    std::path::Path::new(base).join(path).to_string_lossy().into_owned()
}

/// A path that was already simplified, without the artefacts of
/// canonicalisation: see [`without_unc`].
pub fn clean_simplified(path: &str) -> (shown: String)
    ensures
        shown@ == without_unc(path@),
{
    let without_prefix = replace_all(path, "\\\\?\\", "");
    let backslashed = replace_all(without_prefix.as_str(), "/", "\\");
    trim_start_matches(backslashed.as_str(), "\\\\")
}

/// Simplifying a path first does not change what is left of it.
pub proof fn lemma_cleaned_after_simplified(path: Seq<char>)
    requires
        "\\\\?\\"@.is_prefix_of(path),
    ensures
        without_unc(path.skip(4)) == without_unc(path),
{
    reveal_strlit("\\\\?\\");
    reveal_strlit("");
    let verbatim = "\\\\?\\"@;
    assert(verbatim.len() == 4);
    assert(replaced(path, verbatim, ""@) =~= replaced(path.skip(4), verbatim, ""@));
}

/// On a host whose separator is the backslash, the shown form of a path
/// never starts with two backslashes and holds no slash.
pub proof fn lemma_cleaned_has_no_unc_artifacts(path: Seq<char>)
    ensures
        !"\\\\"@.is_prefix_of(cleaned(path, Platform::Windows)),
        !cleaned(path, Platform::Windows).contains('/'),
{
    reveal_strlit("\\\\");
    reveal_strlit("\\");
    reveal_strlit("/");
    let stripped = replaced(path, "\\\\?\\"@, ""@);
    let backslashed = replaced(stripped, "/"@, "\\"@);
    assert("/"@ =~= seq!['/']);
    assert(!"\\"@.contains('/'));
    lemma_replaced_without(stripped, '/', "\\"@);
    lemma_trimmed_start_has_no_prefix(backslashed, "\\\\"@);
    crate::text::lemma_trimmed_start_is_suffix(backslashed, "\\\\"@);
}

/// A path that holds no artefact of canonicalisation is shown as it is: on
/// a host whose separator is the slash every path, and on a host whose
/// separator is the backslash every path that holds no verbatim prefix and
/// no slash and does not start with two backslashes.
pub proof fn lemma_cleaned_keeps_plain_path(path: Seq<char>, platform: Platform)
    requires
        platform == Platform::Windows ==> !occurs_in("\\\\?\\"@, path) && !path.contains('/')
            && !"\\\\"@.is_prefix_of(path),
    ensures
        cleaned(path, platform) == path,
{
    if platform == Platform::Windows {
        reveal_strlit("\\\\?\\");
        reveal_strlit("\\\\");
        reveal_strlit("/");
        lemma_replaced_absent(path, "\\\\?\\"@, ""@);
        assert(!occurs_in("/"@, path)) by {
            if occurs_in("/"@, path) {
                let i = choose|i: int| 0 <= i <= path.len() && "/"@.is_prefix_of(#[trigger] path.skip(i));
                assert(path.skip(i).subrange(0, 1)[0] == path[i]);
                assert(path[i] == '/');
            }
        }
        lemma_replaced_absent(path, "/"@, "\\"@);
    }
}

/// The path as the user interface shows it on a host: see [`cleaned`].
pub fn clean_unc_path(path: &str, platform: Platform) -> (shown: String)
    ensures
        shown@ == cleaned(path@, platform),
{
    match platform {
        Platform::Windows => {
            let simple = simplified(path);
            proof {
                if simple@ != path@ {
                    lemma_cleaned_after_simplified(path@);
                }
            }
            clean_simplified(simple.as_str())
        },
        Platform::Unix => String::from_str(path),
    }
}

/// The search path for a spawned shell: the directories where package
/// managers install tools on the host, in front of the inherited search
/// path. The per-user directories are present where the user has a home
/// directory.
pub open spec fn extended_path(
    inherited: Seq<char>,
    home: Option<Seq<char>>,
    platform: Platform,
) -> Seq<char> {
    match platform {
        Platform::Windows => match home {
            Some(home) => home + "\\AppData\\Roaming\\npm"@ + ";"@ + "C:\\Program Files\\nodejs"@
                + ";"@ + inherited,
            None => inherited,
        },
        Platform::Unix => "/usr/local/bin:/usr/bin:/bin:"@ + match home {
            Some(home) => home + "/.nvm/versions/node/*/bin"@ + ":"@,
            None => Seq::empty(),
        } + inherited,
    }
}

/// The search path for a spawned shell, for a known home directory: see
/// [`extended_path`].
pub fn extend_path(inherited: &str, home: Option<&str>, platform: Platform) -> (path: String)
    ensures
        path@ == extended_path(inherited@, optional_text(home), platform),
{
    match platform {
        Platform::Windows => match home {
            Some(home) => {
                let mut path = chained(home, "\\AppData\\Roaming\\npm");
                path.append(";");
                path.append("C:\\Program Files\\nodejs");
                path.append(";");
                path.append(inherited);
                path
            },
            None => String::from_str(inherited),
        },
        Platform::Unix => {
            let mut path = String::from_str("/usr/local/bin:/usr/bin:/bin:");
            match home {
                Some(home) => {
                    path.append(home);
                    path.append("/.nvm/versions/node/*/bin");
                    path.append(":");
                    proof {
                        assert(path@ =~= "/usr/local/bin:/usr/bin:/bin:"@ + (home@
                            + "/.nvm/versions/node/*/bin"@ + ":"@));
                    }
                },
                None => {
                    proof {
                        assert(path@ =~= "/usr/local/bin:/usr/bin:/bin:"@ + Seq::<char>::empty());
                    }
                },
            }
            path.append(inherited);
            path
        },
    }
}

/// The search path for a spawned shell on this machine: [`extended_path`]
/// for the home directory that the environment names, or for none.
pub fn get_extended_path(inherited: &str, platform: Platform) -> (path: String)
    ensures
        exists|home: Option<Seq<char>>| path@ == extended_path(inherited@, home, platform),
{
    let home = home_directory();
    match home {
        Some(home) => {
            let path = extend_path(inherited, Some(home.as_str()), platform);
            proof {
                assert(path@ == extended_path(inherited@, Some(home@), platform));
            }
            path
        },
        None => {
            let path = extend_path(inherited, None, platform);
            proof {
                assert(path@ == extended_path(inherited@, None, platform));
            }
            path
        },
    }
}

/// The message for a `~` without a home directory.
pub open spec fn home_not_found_text() -> Seq<char> {
    "Home directory not found"@
}

/// The directory that a change to `path` aims at, before it is resolved
/// against the file system: the home directory for `~`, the path itself
/// where it is absolute, and else the path adjoined to the current
/// directory, here `joined`.
pub open spec fn cd_target(
    path: Seq<char>,
    home: Option<Seq<char>>,
    absolute: bool,
    joined: Seq<char>,
) -> Option<Seq<char>> {
    if path == "~"@ {
        home
    } else if absolute {
        Some(path)
    } else {
        Some(joined)
    }
}

/// The directory that a change to `path` aims at: see [`cd_target`]. It
/// fails, with a path error, exactly where `~` is asked for and there is no
/// home directory.
pub fn select_cd_target(path: &str, home: Option<&str>, absolute: bool, joined: &str) -> (result:
    Result<String, TerminalError>)
    ensures
        match cd_target(path@, optional_text(home), absolute, joined@) {
            Some(target) => result matches Ok(text) && text@ == target,
            None => result matches Err(TerminalError::Path(text)) && text@
                == home_not_found_text(),
        },
{
    if same_text(path, "~") {
        match home {
            Some(home) => Ok(String::from_str(home)),
            None => Err(TerminalError::home_not_found()),
        }
    } else if absolute {
        Ok(String::from_str(path))
    } else {
        Ok(String::from_str(joined))
    }
}

/// The directory that a change to `path` from `current_dir` aims at on this
/// machine, before it is resolved against the file system.
///
/// For `~` it is the home directory that the environment names, and a path
/// error where it names none. Every other path gives a directory: the path
/// itself where the host takes it for absolute, and else the path adjoined
/// to the current directory.
pub fn handle_cd_command(path: &str, current_dir: &str) -> (result: Result<String, TerminalError>)
    ensures
        path@ != "~"@ ==> (result matches Ok(text) && text@ == if path_is_absolute(path@) {
            path@
        } else {
            path_joined(current_dir@, path@)
        }),
        path@ == "~"@ ==> result is Ok || (result matches Err(TerminalError::Path(text)) && text@
            == home_not_found_text()),
{
    if same_text(path, "~") {
        match home_directory() {
            Some(home) => select_cd_target(path, Some(home.as_str()), false, path),
            None => select_cd_target(path, None, false, path),
        }
    } else {
        let absolute = is_absolute(path);
        let joined = join(current_dir, path);
        select_cd_target(path, None, absolute, joined.as_str())
    }
}

/// The directory that relative paths of commands are resolved against, on a
/// host with its conventions.
pub struct WorkingDirectory {
    path: String,
    platform: Platform,
}

impl View for WorkingDirectory {
    type V = Seq<char>;

    closed spec fn view(&self) -> Seq<char> {
        self.path@
    }
}

impl WorkingDirectory {
    /// The conventions of the host that the directory is on.
    pub closed spec fn host(&self) -> Platform {
        self.platform
    }

    /// The working directory `path` on a host with the conventions `platform`.
    pub fn new(path: String, platform: Platform) -> (directory: WorkingDirectory)
        ensures
            directory@ == path@,
            directory.host() == platform,
    {
        WorkingDirectory { path, platform }
    }

    /// The directory as it is stored.
    pub fn path(&self) -> (path: &str)
        ensures
            path@ == self@,
    {
        self.path.as_str()
    }

    /// The conventions of the host that the directory is on.
    pub fn platform(&self) -> (platform: Platform)
        ensures
            platform == self.host(),
    {
        self.platform
    }

    /// The directory as the user interface shows it.
    pub fn get_current_dir(&self) -> (shown: String)
        ensures
            shown@ == cleaned(self@, self.host()),
    {
        clean_unc_path(self.path.as_str(), self.platform)
    }

    /// Completes a directory change, given how resolving and entering the
    /// target went: `Ok` with the canonical directory that was entered, or
    /// the error. After a success the working directory is the canonical
    /// one and its shown form is returned. After a failure the working
    /// directory is what it was and the error is returned. The host stays
    /// the same.
    pub fn change_directory(&mut self, entered: Result<String, TerminalError>) -> (result: Result<
        String,
        TerminalError,
    >)
        ensures
            final(self).host() == old(self).host(),
            match entered {
                Ok(canonical) => final(self)@ == canonical@ && (result matches Ok(shown) && shown@
                    == cleaned(canonical@, old(self).host())),
                Err(error) => final(self)@ == old(self)@ && result == Err::<String, TerminalError>(
                    error,
                ),
            },
    {
        match entered {
            Ok(canonical) => {
                let shown = clean_unc_path(canonical.as_str(), self.platform);
                self.path = canonical;
                Ok(shown)
            },
            Err(error) => Err(error),
        }
    }
}

/// After a change of directory that succeeded, the directory that is shown
/// is the one that the change returned. Where it holds no artefact of
/// canonicalisation, it is the canonical directory itself: on a host whose
/// separator is the slash always.
pub proof fn lemma_shown_directory_after_change(canonical: Seq<char>, platform: Platform)
    ensures
        platform == Platform::Unix ==> cleaned(canonical, platform) == canonical,
        platform == Platform::Windows ==> !"\\\\"@.is_prefix_of(cleaned(canonical, platform))
            && !cleaned(canonical, platform).contains('/'),
        platform == Platform::Windows && !occurs_in("\\\\?\\"@, canonical) && !canonical.contains('/')
            && !"\\\\"@.is_prefix_of(canonical) ==> cleaned(canonical, platform) == canonical,
{
    if platform == Platform::Windows {
        lemma_cleaned_has_no_unc_artifacts(canonical);
        if !occurs_in("\\\\?\\"@, canonical) && !canonical.contains('/') && !"\\\\"@.is_prefix_of(
            canonical,
        ) {
            lemma_cleaned_keeps_plain_path(canonical, platform);
        }
    }
}

/// The current directory as the user interface shows it on a host: the
/// canonical form where the directory could be resolved, else the
/// directory itself.
pub fn get_current_dir(current_dir: &str, canonical: Option<&str>, platform: Platform) -> (shown:
    String)
    ensures
        shown@ == match canonical {
            Some(canonical) => cleaned(canonical@, platform),
            None => cleaned(current_dir@, platform),
        },
{
    match canonical {
        Some(canonical) => clean_unc_path(canonical, platform),
        None => clean_unc_path(current_dir, platform),
    }
}

} // verus!
