//! The startup configuration handed to every service.

use vstd::prelude::*;
use crate::types::profile_id::ProfileId;

verus! {

/// Values required to run the service: the bot's own identity, the two
/// domains, the credentials for the chat backend, and the data directory.
#[derive(Debug)]
pub struct ConnectionParameters {
    pub profile_id: ProfileId,
    pub gerrit_domain: String,
    pub domain: String,
    pub username: String,
    pub password: String,
    pub oauth_token: String,
    pub data_dir: String,
    pub client_id: String,
}

impl Clone for ConnectionParameters {
    fn clone(&self) -> (r: Self)
        ensures
            r == *self,
    {
        ConnectionParameters {
            profile_id: self.profile_id,
            gerrit_domain: self.gerrit_domain.clone(),
            domain: self.domain.clone(),
            username: self.username.clone(),
            password: self.password.clone(),
            oauth_token: self.oauth_token.clone(),
            data_dir: self.data_dir.clone(),
            client_id: self.client_id.clone(),
        }
    }
}

} // verus!
