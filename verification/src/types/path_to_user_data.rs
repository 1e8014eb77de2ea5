//! Locations of a user's documents inside the data directory.

use vstd::prelude::*;
use crate::types::GerritUsername;

verus! {

/// The location of one user's synchronization document.
pub open spec fn spec_sync_path(data_dir: Seq<char>, username: Seq<char>) -> Seq<char> {
    data_dir + "/"@ + username + "/sync.ron"@
}

/// The location of one user's settings document.
pub open spec fn spec_settings_path(data_dir: Seq<char>, username: Seq<char>) -> Seq<char> {
    data_dir + "/"@ + username + "/settings.ron"@
}

/// A path to one user-related document.
///
/// Can point to a user's synchronization document, which holds the mapping to
/// a profile identity, or to the user's settings document.
#[derive(Debug)]
pub struct PathToUserData {
    path: String,
}

impl PathToUserData {
    /// Appends the synchronization document's file name to a path that
    /// already points to a user's folder in the data directory.
    pub fn synchronization_with_path(path: &str) -> (r: PathToUserData)
        ensures
            r@ == path@ + "/sync.ron"@,
    {
        let mut p = String::from_str(path);
        p.append("/sync.ron");
        PathToUserData { path: p }
    }

    pub fn sync(data_dir: &str, username: &GerritUsername) -> (r: PathToUserData)
        ensures
            r@ == spec_sync_path(data_dir@, username.0@),
    {
        let mut p = String::from_str(data_dir);
        p.append("/");
        p.append(username.0.as_str());
        p.append("/sync.ron");
        PathToUserData { path: p }
    }

    pub fn settings(data_dir: &str, username: &GerritUsername) -> (r: PathToUserData)
        ensures
            r@ == spec_settings_path(data_dir@, username.0@),
    {
        let mut p = String::from_str(data_dir);
        p.append("/");
        p.append(username.0.as_str());
        p.append("/settings.ron");
        PathToUserData { path: p }
    }

    pub fn as_path(&self) -> (r: &str)
        ensures
            r@ == self@,
    {
        self.path.as_str()
    }
}

impl View for PathToUserData {
    type V = Seq<char>;

    closed spec fn view(&self) -> Seq<char> {
        self.path@
    }
}

} // verus!
