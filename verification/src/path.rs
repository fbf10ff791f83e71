//! Which directory is meant: the configured one, or the default, taken
//! relative to the application's root unless it is already rooted.
//!
//! Paths are texts with `/` between their segments.
use vstd::prelude::*;
use vstd::string::*;
use crate::error::{StartupError, StartupErrorView};

verus! {

/// The key under which the directory is configured.
pub const CONFIG_KEY: &'static str = "syntaxes_path";

/// The directory that is used when none is configured.
pub const DEFAULT_DIR: &'static str = "syntaxes";

/// What the configuration source holds under [`CONFIG_KEY`].
#[derive(Debug)]
pub enum Configured {
    /// Nothing: the key is not set.
    Absent,
    /// A value that is not a path, with what the source said of it.
    Malformed(String),
    /// This path.
    Present(String),
}

/// A [`Configured`] with its texts as sequences of characters.
pub enum ConfiguredView {
    Absent,
    Malformed(Seq<char>),
    Present(Seq<char>),
}

impl View for Configured {
    type V = ConfiguredView;

    open spec fn view(&self) -> ConfiguredView {
        match *self {
            Configured::Absent => ConfiguredView::Absent,
            Configured::Malformed(cause) => ConfiguredView::Malformed(cause@),
            Configured::Present(path) => ConfiguredView::Present(path@),
        }
    }
}

/// A path is rooted when it starts at the top of the file system.
pub open spec fn is_rooted(path: Seq<char>) -> bool {
    path.len() > 0 && path[0] == '/'
}

/// `path` as seen from `root`: itself when it is rooted or `root` is empty,
/// else `root` and `path` with exactly one `/` between them.
pub open spec fn rebased(root: Seq<char>, path: Seq<char>) -> Seq<char> {
    if is_rooted(path) {
        path
    } else if root.len() == 0 || root.last() == '/' {
        root + path
    } else {
        root + seq!['/'] + path
    }
}

/// The directory to normalize for a given setting, or the reason why there
/// is none: the default directory for an absent setting, the configured one
/// for a present setting, each as seen from `root`, and a configuration
/// error for a malformed setting.
pub open spec fn spec_candidate(root: Seq<char>, value: ConfiguredView) -> Result<
    Seq<char>,
    StartupErrorView,
> {
    match value {
        ConfiguredView::Absent => Ok(rebased(root, DEFAULT_DIR@)),
        ConfiguredView::Present(path) => Ok(rebased(root, path)),
        ConfiguredView::Malformed(cause) => Err(StartupErrorView::Config { cause }),
    }
}

/// Tells whether `path` starts at the top of the file system.
pub fn has_root(path: &str) -> (b: bool)
    ensures
        b == is_rooted(path@),
{
    path.unicode_len() > 0 && path.get_char(0) == '/'
}

/// Places `path` under `root`, unless it is rooted already.
pub fn rebase(root: &str, path: &str) -> (r: String)
    ensures
        r@ == rebased(root@, path@),
{
    if has_root(path) {
        return String::from_str(path);
    }
    let mut out = String::from_str(root);
    let n: usize = root.unicode_len();
    if n > 0 && root.get_char(n - 1) != '/' {
        proof {
            reveal_strlit("/");
            assert("/"@ =~= seq!['/']);
        }
        out.append("/");
    }
    out.append(path);
    out
}

/// Chooses the directory to normalize.
///
/// An absent setting falls back to [`DEFAULT_DIR`]; a malformed one does
/// not: it is an error, so that a mistyped setting is never silently
/// replaced by the default.
pub fn candidate(root: &str, value: Configured) -> (r: Result<String, StartupError>)
    ensures
        match spec_candidate(root@, value@) {
            Ok(path) => r matches Ok(p) && p@ == path,
            Err(error) => r matches Err(e) && e@ == error,
        },
{
    match value {
        Configured::Absent => Ok(rebase(root, DEFAULT_DIR)),
        Configured::Present(path) => Ok(rebase(root, path.as_str())),
        Configured::Malformed(cause) => Err(StartupError::Config { cause }),
    }
}

/// An absent setting means the directory `syntaxes` under the root.
pub proof fn lemma_absent_means_default(root: Seq<char>)
    ensures
        DEFAULT_DIR@ == "syntaxes"@,
        !is_rooted(DEFAULT_DIR@),
        spec_candidate(root, ConfiguredView::Absent) == Ok::<Seq<char>, StartupErrorView>(
            rebased(root, "syntaxes"@),
        ),
        root.len() > 0 && root.last() != '/' ==> rebased(root, "syntaxes"@) == root + "/syntaxes"@,
        root.len() == 0 || root.last() == '/' ==> rebased(root, "syntaxes"@) == root + "syntaxes"@,
{
    reveal_strlit("syntaxes");
    reveal_strlit("/syntaxes");
    if root.len() > 0 && root.last() != '/' {
        assert(root + seq!['/'] + "syntaxes"@ =~= root + "/syntaxes"@);
    }
}

/// A configured path that is rooted is taken as it stands, whatever the
/// root is.
pub proof fn lemma_rooted_is_kept(root: Seq<char>, path: Seq<char>)
    requires
        is_rooted(path),
    ensures
        rebased(root, path) == path,
        spec_candidate(root, ConfiguredView::Present(path)) == Ok::<Seq<char>, StartupErrorView>(
            path,
        ),
{
}

/// Seen from a rooted root, every path is rooted.
pub proof fn lemma_rebased_is_rooted(root: Seq<char>, path: Seq<char>)
    requires
        is_rooted(root),
    ensures
        is_rooted(rebased(root, path)),
{
}

/// Only a malformed setting stops the choice of a directory.
pub proof fn lemma_candidate_fails_on_malformed_only(root: Seq<char>, value: ConfiguredView)
    ensures
        spec_candidate(root, value) is Err <==> value is Malformed,
{
}

} // verus!
