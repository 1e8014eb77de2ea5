//! The messages that name the operations of the service components: the
//! shared vocabulary between the core and whatever plumbing carries its
//! calls.  Their content is plain values.

use vstd::prelude::*;
use crate::types::{ConnectionParameters, GerritUsername, ProfileId, Synchronization};

verus! {

/// Sets the application state once, at startup.
#[derive(Debug)]
pub struct SetAppState(pub ConnectionParameters);

/// Asks for the current application state.
#[derive(Debug)]
pub struct GetAppState;

/// Asks for the profile identity and settings mapped to a username; the
/// second field is the user's display name, used for a remote search when
/// no mapping is available yet.
#[derive(Debug)]
pub struct GetUserData(pub GerritUsername, pub String);

impl Clone for GetUserData {
    fn clone(&self) -> (r: Self)
        ensures
            r == *self,
    {
        GetUserData(self.0.clone(), self.1.clone())
    }
}

/// Asks for the synchronization cache to be loaded from the given data
/// directory.
#[derive(Debug)]
pub struct InitializeCache(pub String);

/// Asks for the settings of a username.
#[derive(Debug)]
pub struct LoadSettings(pub GerritUsername);

impl From<GetUserData> for LoadSettings {
    fn from(origin: GetUserData) -> (r: Self) {
        LoadSettings(origin.0)
    }
}

impl vstd::std_specs::convert::FromSpecImpl<GetUserData> for LoadSettings {
    open spec fn obeys_from_spec() -> bool {
        true
    }

    open spec fn from_spec(origin: GetUserData) -> LoadSettings {
        LoadSettings(origin.0)
    }
}

/// Records a resolution state for a username, fire-and-forget.
#[derive(Debug)]
pub struct SetProfileIdMapping(pub GerritUsername, pub Synchronization<ProfileId>);

/// Asks the chat backend for the profile matching a name.
#[derive(Debug)]
pub struct SearchProfileId(pub String);

/// Asks for a chat message to be sent to the given recipient.
#[derive(Debug)]
pub struct SendChatMessage(pub ProfileId, pub String);

/// Asks for a username to be resolved to a profile identity; the second
/// field is the display name.
#[derive(Debug)]
pub struct ResolveToProfileId(pub GerritUsername, pub String);

impl From<GetUserData> for ResolveToProfileId {
    fn from(origin: GetUserData) -> (r: Self) {
        ResolveToProfileId(origin.0, origin.1)
    }
}

impl vstd::std_specs::convert::FromSpecImpl<GetUserData> for ResolveToProfileId {
    open spec fn obeys_from_spec() -> bool {
        true
    }

    open spec fn from_spec(origin: GetUserData) -> ResolveToProfileId {
        ResolveToProfileId(origin.0, origin.1)
    }
}

} // verus!
