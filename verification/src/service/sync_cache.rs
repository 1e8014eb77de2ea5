//! The in-memory map from usernames to their resolution state.

use vstd::prelude::*;
use crate::types::{GerritUsername, ProfileId, Synchronization};

verus! {

/// What a username maps to in a sequence of cache entries: the state of the
/// latest entry carrying that name, and `Unattempted` for a name no entry
/// carries.
pub open spec fn spec_lookup(
    entries: Seq<(GerritUsername, Synchronization<ProfileId>)>,
    name: Seq<char>,
) -> Synchronization<ProfileId>
    decreases entries.len(),
{
    if entries.len() == 0 {
        Synchronization::Unattempted
    } else if entries.last().0@ == name {
        entries.last().1
    } else {
        spec_lookup(entries.drop_last(), name)
    }
}

/// Appending an entry changes the lookup for exactly that entry's name.
pub proof fn lemma_lookup_push(
    entries: Seq<(GerritUsername, Synchronization<ProfileId>)>,
    entry: (GerritUsername, Synchronization<ProfileId>),
    name: Seq<char>,
)
    ensures
        spec_lookup(entries.push(entry), name) == if entry.0@ == name {
            entry.1
        } else {
            spec_lookup(entries, name)
        },
{
    let pushed = entries.push(entry);
    assert(pushed.last() == entry);
    assert(pushed.drop_last() =~= entries);
}

/// The in-memory cache of resolution states, keyed by username.
///
/// A username that was never recorded is `Unattempted`; recording a state
/// for a username overrides whatever was recorded before.
pub struct SyncCache {
    entries: Vec<(GerritUsername, Synchronization<ProfileId>)>,
}

impl View for SyncCache {
    type V = Seq<(GerritUsername, Synchronization<ProfileId>)>;

    closed spec fn view(&self) -> Seq<(GerritUsername, Synchronization<ProfileId>)> {
        self.entries@
    }
}

impl SyncCache {
    pub fn new() -> (r: SyncCache)
        ensures
            r@.len() == 0,
    {
        SyncCache { entries: Vec::new() }
    }

    /// The recorded state for a username; `Unattempted` when none was
    /// recorded.
    pub fn lookup(&self, username: &GerritUsername) -> (r: Synchronization<ProfileId>)
        ensures
            r == spec_lookup(self@, username@),
    {
        proof {
            assert(self@.subrange(0, self@.len() as int) =~= self@);
        }
        let mut i: usize = self.entries.len();
        while i > 0
            invariant
                i <= self.entries.len(),
                self.entries@ == self@,
                spec_lookup(self@, username@) == spec_lookup(
                    self@.subrange(0, i as int),
                    username@,
                ),
            decreases i,
        {
            let t = Ghost(self@.subrange(0, i as int));
            proof {
                assert(t@.last() == self@[i as int - 1]);
                assert(t@.drop_last() =~= self@.subrange(0, i as int - 1));
            }
            if self.entries[i - 1].0 == *username {
                return self.entries[i - 1].1;
            }
            i -= 1;
        }
        Synchronization::Unattempted
    }

    /// Records a state for a username, overriding any earlier record.
    pub fn insert(&mut self, username: GerritUsername, state: Synchronization<ProfileId>)
        ensures
            final(self)@ == old(self)@.push((username, state)),
            spec_lookup(final(self)@, username@) == state,
            forall|n: Seq<char>| n != username@ ==> spec_lookup(final(self)@, n) == spec_lookup(
                old(self)@,
                n,
            ),
    {
        let ghost name = username@;
        let ghost entry = (username, state);
        let ghost before = self.entries@;
        self.entries.push((username, state));
        proof {
            lemma_lookup_push(before, entry, name);
            assert forall|n: Seq<char>| n != name implies spec_lookup(
                self.entries@,
                n,
            ) == spec_lookup(before, n) by {
                lemma_lookup_push(before, entry, n);
            }
        }
    }
}

} // verus!
