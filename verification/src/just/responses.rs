//! Response shapes of the chat backend, held as plain values.  The transport
//! adapter decodes the wire format and hands these in.

use vstd::prelude::*;
use crate::types::{spec_profile_id_of, ConversationId, ProfileId};

verus! {

/// The OAuth token response.
#[derive(Debug)]
pub struct AccesTokenResponse {
    pub access_token: String,
}

/// The textual profile identity in a user-search response.
#[derive(Debug)]
pub struct JustUserProfileString(pub String);

impl JustUserProfileString {
    /// The profile identity this string denotes; the caller must have
    /// checked that the backend handed back the canonical form.
    pub fn to_profile_id(&self) -> (r: ProfileId)
        requires
            spec_profile_id_of(self.0@) is Some,
        ensures
            Some(r) == spec_profile_id_of(self.0@),
    {
        match ProfileId::try_from(self.0.as_str()) {
            Ok(p) => p,
            Err(_) => {
                proof {
                    assert(false);
                }
                ProfileId(0)
            },
        }
    }
}

/// One profile in a user-search response.
#[derive(Debug)]
pub struct JustUserProfile {
    pub id: JustUserProfileString,
}

/// A user-search response.
#[derive(Debug)]
pub struct UserSearchResult {
    pub items: Vec<JustUserProfile>,
}

impl UserSearchResult {
    /// The unique match: the profile identity when the search returned
    /// exactly one item; nothing otherwise (zero and several items both
    /// count as "no unique match", not as errors).
    pub fn unique_profile_id(&self) -> (r: Option<ProfileId>)
        requires
            self.items@.len() == 1 ==> spec_profile_id_of(self.items@[0].id.0@) is Some,
        ensures
            self.items@.len() == 1 ==> r == spec_profile_id_of(self.items@[0].id.0@),
            self.items@.len() != 1 ==> r is None,
    {
        if self.items.len() == 1 {
            Some(self.items[0].id.to_profile_id())
        } else {
            None
        }
    }
}

/// A chat-creation response.
#[derive(Debug)]
pub struct ChatCreationResult {
    pub id: ConversationId,
}

/// The error payload the chat backend attaches to a failed call.
#[derive(Debug)]
pub struct JustError {
    pub message: String,
}

} // verus!
