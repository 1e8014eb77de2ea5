//! The tri-state resolution record kept per username.

use vstd::prelude::*;

verus! {

/// Whether a username's profile identity has been looked up.
///
/// `Unattempted` ("no attempt made yet") is deliberately kept distinct from
/// `ConfirmedAbsent` ("looked up and definitively found nothing"): only an
/// unattempted username may trigger a remote search.
#[derive(Clone, Copy, Debug, PartialEq, Eq)]
pub enum Synchronization<V> {
    /// A mapping has been found.
    Resolved(V),
    /// A lookup was made and definitively found no match.
    ConfirmedAbsent,
    /// No lookup has been attempted yet.
    Unattempted,
}

impl<V> Synchronization<V> {
    /// Returns the recorded answer when one exists, and otherwise asks the
    /// supplied closure to resolve.
    pub fn or_try_resolve_mut<F: FnMut() -> Result<Option<V>, String>>(
        self,
        mut closure: F,
    ) -> (r: Result<Option<V>, String>)
        requires
            self is Unattempted ==> call_requires(closure, ()),
        ensures
            match self {
                Synchronization::Resolved(v) => r == Ok::<Option<V>, String>(Some(v)),
                Synchronization::ConfirmedAbsent => r == Ok::<Option<V>, String>(None),
                Synchronization::Unattempted => call_ensures(closure, (), r),
            },
    {
        match self {
            Synchronization::Resolved(v) => Ok(Some(v)),
            Synchronization::ConfirmedAbsent => Ok(None),
            Synchronization::Unattempted => closure(),
        }
    }
}

} // verus!
