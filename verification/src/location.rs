//! Where a key file of the earlier storage scheme may lie.

use vstd::prelude::*;
use vstd::string::*;
use crate::error::{ErrorKind, KeychainError};
use crate::text::text_of;

verus! {

/// The flavour of a build. Each keeps its data in a folder of its own.
#[derive(Clone, Copy, Debug, PartialEq, Eq, Structural)]
pub enum BuildVariant {
    Development,
    Production,
}

/// The folder of a build variant under the local data directory.
pub open spec fn folder_of(variant: BuildVariant) -> Seq<char> {
    match variant {
        BuildVariant::Development => "Journal-dev"@,
        BuildVariant::Production => "Journal"@,
    }
}

/// The other build variant.
pub open spec fn sibling_of(variant: BuildVariant) -> BuildVariant {
    match variant {
        BuildVariant::Development => BuildVariant::Production,
        BuildVariant::Production => BuildVariant::Development,
    }
}

/// The data folder of a build variant: the root, a slash, the folder.
pub open spec fn support_dir_under(root: Seq<char>, variant: BuildVariant) -> Seq<char> {
    root + "/"@ + folder_of(variant)
}

/// The key file of a build variant: its data folder, then `/journal.key`.
pub open spec fn key_file_under(root: Seq<char>, variant: BuildVariant) -> Seq<char> {
    support_dir_under(root, variant) + "/journal.key"@
}

/// The sidecar of a file, in which its content is kept while the file is at
/// risk: the file's own path, then `.backup`.
pub open spec fn backup_of(path: Seq<char>) -> Seq<char> {
    path + ".backup"@
}

impl BuildVariant {
    /// The folder of this variant.
    pub fn folder(self) -> (name: &'static str)
        ensures
            name@ == folder_of(self),
    {
        match self {
            BuildVariant::Development => "Journal-dev",
            BuildVariant::Production => "Journal",
        }
    }

    /// The other variant.
    pub fn sibling(self) -> (other: BuildVariant)
        ensures
            other == sibling_of(self),
    {
        match self {
            BuildVariant::Development => BuildVariant::Production,
            BuildVariant::Production => BuildVariant::Development,
        }
    }
}

/// The data folder of a build variant under the given root.
pub fn support_dir_in(root: &str, variant: BuildVariant) -> (dir: String)
    ensures
        dir@ == support_dir_under(root@, variant),
{
    let mut dir = String::from_str(root);
    dir.append("/");
    dir.append(variant.folder());
    dir
}

/// The key file of a build variant under the given root.
pub fn key_file_in(root: &str, variant: BuildVariant) -> (path: String)
    ensures
        path@ == key_file_under(root@, variant),
{
    let mut path = support_dir_in(root, variant);
    path.append("/journal.key");
    path
}

/// The sidecar of the file at `path`.
pub fn backup_path(path: &str) -> (backup: String)
    ensures
        backup@ == backup_of(path@),
{
    let mut backup = String::from_str(path);
    backup.append(".backup");
    backup
}

/// A file and its sidecar never share a path.
pub proof fn lemma_backup_is_another_path(path: Seq<char>)
    ensures
        backup_of(path) != path,
        backup_of(path).len() == path.len() + 7,
{
    reveal_strlit(".backup");
}

/// The two build variants never share a key file: under one root their
/// places differ.
pub proof fn lemma_places_differ(root: Seq<char>, variant: BuildVariant)
    ensures
        key_file_under(root, variant) != key_file_under(root, sibling_of(variant)),
{
    reveal_strlit("Journal-dev");
    reveal_strlit("Journal");
    assert(key_file_under(root, variant).len() != key_file_under(root, sibling_of(variant)).len());
}

/// The two places in which a key file is looked for: that of the running
/// build variant, which comes first, and that of its sibling.
#[derive(Debug)]
pub struct KeyFilePaths {
    pub current: String,
    pub alternate: String,
}

/// The mathematical value of a [`KeyFilePaths`].
pub struct PathsView {
    pub current: Seq<char>,
    pub alternate: Seq<char>,
}

impl View for KeyFilePaths {
    type V = PathsView;

    open spec fn view(&self) -> PathsView {
        PathsView { current: self.current@, alternate: self.alternate@ }
    }
}

/// The two places under a root, for a running build variant.
pub open spec fn paths_under(root: Seq<char>, variant: BuildVariant) -> PathsView {
    PathsView {
        current: key_file_under(root, variant),
        alternate: key_file_under(root, sibling_of(variant)),
    }
}

/// The two places, where there is a root to look under.
pub open spec fn paths_where(root: Option<Seq<char>>, variant: BuildVariant) -> Option<PathsView> {
    match root {
        Some(root) => Some(paths_under(root, variant)),
        None => None,
    }
}

/// The views of optional paths.
pub open spec fn paths_view(paths: Option<KeyFilePaths>) -> Option<PathsView> {
    match paths {
        Some(paths) => Some(paths@),
        None => None,
    }
}

impl KeyFilePaths {
    /// The two places under the given root.
    pub fn under(root: &str, variant: BuildVariant) -> (paths: Self)
        ensures
            paths@ == paths_under(root@, variant),
    {
        KeyFilePaths {
            current: key_file_in(root, variant),
            alternate: key_file_in(root, variant.sibling()),
        }
    }

    /// The two places, where there is a root to look under.
    pub fn resolve(root: Option<String>, variant: BuildVariant) -> (paths: Option<Self>)
        ensures
            paths_view(paths) == paths_where(text_of(root), variant),
    {
        match root {
            Some(root) => Some(KeyFilePaths::under(root.as_str(), variant)),
            None => None,
        }
    }

    /// The two places on this machine, where the user has a local data
    /// directory: they lie under some root.
    pub fn discover(variant: BuildVariant) -> (paths: Option<Self>)
        ensures
            paths matches Some(found) ==> exists|root: Seq<char>|
                found@ == paths_under(root, variant),
    {
        let root = local_data_root();
        let ghost root_text = text_of(root);
        let paths = KeyFilePaths::resolve(root, variant);
        proof {
            if root_text is Some {
                assert(paths->0@ == paths_under(root_text->0, variant));
            }
        }
        paths
    }
}

/// `dirs::data_local_dir`: the user's local data directory as text, if the
/// platform names one and its name is valid Unicode. It depends on the
/// user's account and settings, so nothing is claimed of it.
#[verifier::external_body]
pub(crate) fn local_data_root() -> (root: Option<String>) {
    match dirs::data_local_dir() {
        Some(dir) => dir.into_os_string().into_string().ok(),
        None => None,
    }
}

/// The data folder of the running build variant, or why there is none.
pub fn app_support_dir(root: Option<String>, variant: BuildVariant) -> (dir: Result<
    String,
    KeychainError,
>)
    ensures
        match root {
            Some(root) => dir matches Ok(path) && path@ == support_dir_under(root@, variant),
            None => dir matches Err(error) && error@.kind == ErrorKind::AppSupportDirNotFound,
        },
{
    match root {
        Some(root) => Ok(support_dir_in(root.as_str(), variant)),
        None => Err(KeychainError::AppSupportDirNotFound),
    }
}

/// The key file of the running build variant, or why there is none.
pub fn key_file_path(root: Option<String>, variant: BuildVariant) -> (file: Result<
    String,
    KeychainError,
>)
    ensures
        match root {
            Some(root) => file matches Ok(path) && path@ == key_file_under(root@, variant),
            None => file matches Err(error) && error@.kind == ErrorKind::AppSupportDirNotFound,
        },
{
    match root {
        Some(root) => Ok(key_file_in(root.as_str(), variant)),
        None => Err(KeychainError::AppSupportDirNotFound),
    }
}

} // verus!
