//! The persisted per-user store's decision core.
//!
//! The store keeps one synchronization document and one settings document
//! per username.  Reading and writing files is the transport adapter's job;
//! this module decides, under contract, what a read outcome means and what
//! must be written.

use vstd::prelude::*;
use crate::default::{default_settings, spec_is_default_settings, DEFAULT_SETTINGS};
use crate::service::documents::{lemma_sync_record_round_trip, parse_settings, parse_sync_record,
    spec_parse_settings, spec_parse_sync_record, spec_sync_record_text};
use crate::service::sync_cache::{spec_lookup, SyncCache};
use crate::types::{GerritUsername, ProfileId, Settings, Synchronization};

verus! {

/// The outcome of reading a user's settings document: the document is
/// missing, was read whole, or could not be read for another reason.
pub enum SettingsDocument {
    Missing,
    Content(String),
    Unreadable(String),
}

/// The store over a data directory.
#[derive(Debug)]
pub struct FileBackedUserService {
    pub data_dir: String,
}

impl Clone for FileBackedUserService {
    fn clone(&self) -> (r: Self)
        ensures
            r == *self,
    {
        FileBackedUserService { data_dir: self.data_dir.clone() }
    }
}

/// What the store's records say about a name: the state of the latest
/// record carrying that name whose document parses; `Unattempted` when no
/// such record exists.  A record that fails to parse is skipped, not fatal.
pub open spec fn spec_store_state(
    records: Seq<(String, String)>,
    name: Seq<char>,
) -> Synchronization<ProfileId>
    decreases records.len(),
{
    if records.len() == 0 {
        Synchronization::Unattempted
    } else if records.last().0@ == name && spec_parse_sync_record(records.last().1@) is Some {
        spec_parse_sync_record(records.last().1@)->0
    } else {
        spec_store_state(records.drop_last(), name)
    }
}

/// Write-through round trip: a record whose document is the serialized form
/// of a state reads back into exactly that state when the cache is rebuilt,
/// whatever the store held before.
pub proof fn lemma_store_reads_back(
    records: Seq<(String, String)>,
    entry: (String, String),
    state: Synchronization<ProfileId>,
)
    requires
        entry.1@ == spec_sync_record_text(state),
    ensures
        spec_store_state(records.push(entry), entry.0@) == state,
{
    lemma_sync_record_round_trip(state);
    let pushed = records.push(entry);
    assert(pushed.last() == entry);
}

impl FileBackedUserService {
    /// Builds the in-memory cache from the per-user records the adapter read
    /// from the data directory: each pair is a username and its
    /// synchronization document.  The cache answers exactly what the records
    /// say; unparsable documents are skipped.
    pub fn load_sync_cache(&self, records: Vec<(String, String)>) -> (r: SyncCache)
        ensures
            forall|n: Seq<char>| spec_lookup(r@, n) == spec_store_state(records@, n),
    {
        let mut cache = SyncCache::new();
        let mut i: usize = 0;
        while i < records.len()
            invariant
                i <= records.len(),
                forall|n: Seq<char>| spec_lookup(cache@, n) == spec_store_state(
                    records@.subrange(0, i as int),
                    n,
                ),
            decreases records.len() - i,
        {
            let ghost prefix = records@.subrange(0, i as int);
            let ghost extended = records@.subrange(0, i as int + 1);
            proof {
                assert(extended.last() == records@[i as int]);
                assert(extended.drop_last() =~= prefix);
            }
            match parse_sync_record(records[i].1.as_str()) {
                Some(state) => {
                    let username = GerritUsername(records[i].0.clone());
                    cache.insert(username, state);
                    proof {
                        assert forall|n: Seq<char>| spec_lookup(cache@, n) == spec_store_state(
                            extended,
                            n,
                        ) by {}
                    }
                },
                None => {
                    proof {
                        assert forall|n: Seq<char>| spec_lookup(cache@, n) == spec_store_state(
                            extended,
                            n,
                        ) by {}
                    }
                },
            }
            i += 1;
        }
        proof {
            assert(records@.subrange(0, i as int) =~= records@);
        }
        cache
    }

    /// Decides what a settings read means.  A missing document yields the
    /// built-in defaults together with the document text the adapter must
    /// create; a document that was read yields exactly its parsed content,
    /// and one that is present but unparsable is an error — explicit user
    /// edits are never silently replaced by defaults.  A read failure is an
    /// error too.
    pub fn load_settings(&self, user: &GerritUsername, doc: SettingsDocument) -> (r: Result<
        (Settings, Option<String>),
        String,
    >)
        ensures
            doc is Missing ==> (r matches Ok((s, created)) && spec_is_default_settings(s) && (
            created matches Some(text) && text@ == DEFAULT_SETTINGS@)),
            doc matches SettingsDocument::Content(text) ==> match spec_parse_settings(text@) {
                Some(view) => (r matches Ok((s, created)) && s@ == view && created is None),
                None => (r matches Err(m) && m@ == "Error deserializing settings for "@ + user@
                    + "."@),
            },
            doc matches SettingsDocument::Unreadable(cause) ==> (r matches Err(m) && m@
                == "Error reading settings for "@ + user@ + ". Cause: "@ + cause@ + "."@),
    {
        match doc {
            SettingsDocument::Missing => Ok(
                (default_settings(), Some(String::from_str(DEFAULT_SETTINGS))),
            ),
            SettingsDocument::Content(text) => match parse_settings(text.as_str()) {
                Some(settings) => Ok((settings, None)),
                None => {
                    let mut m = String::from_str("Error deserializing settings for ");
                    m.append(user.0.as_str());
                    m.append(".");
                    Err(m)
                },
            },
            SettingsDocument::Unreadable(cause) => {
                let mut m = String::from_str("Error reading settings for ");
                m.append(user.0.as_str());
                m.append(". Cause: ");
                m.append(cause.as_str());
                m.append(".");
                Err(m)
            },
        }
    }
}

} // verus!
