//! Maps a username to a profile identity through three tiers: the in-memory
//! cache, and — for a username never attempted before — a remote search over
//! up to three candidate strings derived from the display name.
//!
//! The remote calls themselves are the transport adapter's job.  The
//! resolver hands out a [`SearchSession`] saying exactly which queries to
//! try in which order, and records the outcome; every decision is made
//! here, under contract.

use vstd::prelude::*;
use crate::just::{spec_user_firstname, spec_user_lastname, user_firstname, user_lastname};
use crate::service::sync_cache::{spec_lookup, SyncCache};
use crate::text::has_char;
use crate::types::{GerritUsername, ProfileId, Synchronization};

verus! {

/// The remote-search part of one resolution attempt: the candidate queries
/// in the order they must be tried, how many were handed out, and the first
/// unique match found so far.
pub struct SearchSession {
    pub queries: Vec<String>,
    pub next: usize,
    pub found: Option<ProfileId>,
}

impl SearchSession {
    /// The next query to send to the remote search, advancing the session.
    /// Hands out nothing once a match was found or the candidates are
    /// exhausted: the search stops at the first unique match.
    pub fn next_query(&mut self) -> (r: Option<String>)
        ensures
            old(self).found is Some || old(self).next >= old(self).queries@.len() ==> r is None
                && *final(self) == *old(self),
            old(self).found is None && old(self).next < old(self).queries@.len() ==> (r matches
                Some(q) && q@ == old(self).queries@[old(self).next as int]@
                && final(self).next == old(self).next + 1
                && final(self).queries == old(self).queries
                && final(self).found == old(self).found),
    {
        if self.found.is_some() || self.next >= self.queries.len() {
            return None;
        }
        let q = self.queries[self.next].clone();
        self.next = self.next + 1;
        Some(q)
    }

    /// Records what the remote search answered for the last query: a unique
    /// match is kept, "no unique match" leaves the session unchanged.
    pub fn record_result(&mut self, outcome: Option<ProfileId>)
        ensures
            final(self).found == if outcome is Some {
                outcome
            } else {
                old(self).found
            },
            final(self).queries == old(self).queries,
            final(self).next == old(self).next,
    {
        if outcome.is_some() {
            self.found = outcome;
        }
    }

    /// Whether the session is over: a match was found or every candidate
    /// was tried.
    pub fn finished(&self) -> (r: bool)
        ensures
            r == (self.found is Some || self.next >= self.queries@.len()),
    {
        self.found.is_some() || self.next >= self.queries.len()
    }

    /// The outcome of the finished session: the first unique match, or
    /// nothing when all candidates were exhausted.
    pub fn result(&self) -> (r: Option<ProfileId>)
        ensures
            r == self.found,
    {
        self.found
    }
}

/// What one call to `begin_resolve` asks the caller to do.
pub enum ResolveStep {
    /// The cache already holds a definitive answer; use it and make no
    /// remote call.
    UseCached(Option<ProfileId>),
    /// The username was never attempted: run the remote search this session
    /// prescribes, then report back through `complete_resolve`.
    Search(SearchSession),
}

/// The resolver: the cache of resolution states, consulted and updated
/// under one serialization point by the caller.
pub struct ProfileIdResolver {
    pub cache: SyncCache,
}

impl ProfileIdResolver {
    pub fn new(cache: SyncCache) -> (r: ProfileIdResolver)
        ensures
            r.cache@ == cache@,
    {
        ProfileIdResolver { cache }
    }

    /// The cached resolution state for a username; `Unattempted` when no
    /// entry exists, which most likely means no attempt was made yet.
    pub fn lookup_cache(&self, username: &GerritUsername) -> (r: Synchronization<ProfileId>)
        ensures
            r == spec_lookup(self.cache@, username@),
    {
        self.cache.lookup(username)
    }

    /// Starts one resolution attempt.  A username already `Resolved` or
    /// `ConfirmedAbsent` is answered from the cache alone — no remote search
    /// is made for it.  Only an `Unattempted` username yields a search, over
    /// exactly three candidates in order: the full display name, the first
    /// name, the last name.
    pub fn begin_resolve(&self, username: &GerritUsername, name: &str) -> (r: ResolveStep)
        requires
            has_char(name@, '<'),
        ensures
            match spec_lookup(self.cache@, username@) {
                Synchronization::Resolved(p) => r == ResolveStep::UseCached(Some(p)),
                Synchronization::ConfirmedAbsent => r == ResolveStep::UseCached(
                    None::<ProfileId>,
                ),
                Synchronization::Unattempted => (r matches ResolveStep::Search(session)
                    && session.queries@.len() == 3 && session.queries@[0]@ == name@
                    && session.queries@[1]@ == spec_user_firstname(name@) && session.queries@[2]@
                    == spec_user_lastname(name@) && session.next == 0 && session.found is None),
            },
    {
        match self.lookup_cache(username) {
            Synchronization::Resolved(p) => ResolveStep::UseCached(Some(p)),
            Synchronization::ConfirmedAbsent => ResolveStep::UseCached(None),
            Synchronization::Unattempted => {
                let mut queries: Vec<String> = Vec::new();
                queries.push(name.to_owned());
                queries.push(user_firstname(name).to_owned());
                queries.push(user_lastname(name).to_owned());
                ResolveStep::Search(SearchSession { queries, next: 0, found: None })
            },
        }
    }

    /// Finishes a resolution attempt whose search ran to completion: the
    /// outcome is recorded in the cache — as `Resolved` on a unique match
    /// and as `ConfirmedAbsent` otherwise, never back to `Unattempted` —
    /// and returned, for the caller to write through to the persisted store
    /// best-effort.  A failed search must not reach this point: on an error
    /// the caller aborts and the cache keeps its old state.
    pub fn complete_resolve(&mut self, username: &GerritUsername, found: Option<ProfileId>) -> (r:
        Synchronization<ProfileId>)
        ensures
            r == match found {
                Some(p) => Synchronization::Resolved(p),
                None => Synchronization::<ProfileId>::ConfirmedAbsent,
            },
            spec_lookup(final(self).cache@, username@) == r,
            !(spec_lookup(final(self).cache@, username@) is Unattempted),
            forall|n: Seq<char>| n != username@ ==> spec_lookup(final(self).cache@, n)
                == spec_lookup(old(self).cache@, n),
    {
        let state = match found {
            Some(p) => Synchronization::Resolved(p),
            None => Synchronization::ConfirmedAbsent,
        };
        self.cache.insert(username.clone(), state);
        state
    }
}

} // verus!
