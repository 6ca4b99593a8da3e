//! The records the remote service serves, and the lifecycle of one fetch.

use vstd::prelude::*;

verus! {

/// Why a fetch failed.  Both cases are recovered into the owning cache
/// entry and rendered by the caller; neither ever aborts the process.
#[derive(Clone, Debug, PartialEq, Eq)]
pub enum FetchError {
    /// The transport call itself failed: network or HTTP error, including a
    /// timeout reported by the transport.
    Transport(String),
    /// The response arrived but its bytes did not match the expected schema.
    Decode(String),
}

/// Lifecycle of one asynchronous fetch: created `Pending` the moment its
/// key is first requested, it becomes `Ready` exactly once, when the
/// transport call completes, and never returns to `Pending`.  The only way
/// out of `Ready` is destruction of the whole entry by invalidation.
#[derive(Debug, PartialEq, Eq)]
pub enum CacheEntry<T> {
    /// The transport call is still outstanding.
    Pending,
    /// The fetch finished, successfully or not; the outcome is immutable.
    Ready(Result<T, FetchError>),
}

impl<T> CacheEntry<T> {
    /// Whether the fetch has completed, successfully or not.
    pub fn is_ready(&self) -> (b: bool)
        ensures
            b == (*self is Ready),
    {
        match self {
            CacheEntry::Pending => false,
            CacheEntry::Ready(_) => true,
        }
    }

    /// Read-only, non-destructive poll: `None` while the fetch is
    /// outstanding, the stored outcome once it is ready.
    pub fn poll(&self) -> (r: Option<&Result<T, FetchError>>)
        ensures
            match r {
                None => *self is Pending,
                Some(outcome) => *self matches CacheEntry::Ready(o) && *outcome == o,
            },
    {
        match self {
            CacheEntry::Pending => None,
            CacheEntry::Ready(outcome) => Some(outcome),
        }
    }
}

/// Summary record returned by the index fetch.  Immutable once returned;
/// the index as a whole is replaced on refresh, never patched.
#[derive(Clone, Debug, PartialEq, Eq)]
pub struct PartialEntry {
    /// Distributed identifier of the log entry.
    pub id: u64,
    /// Network origin the entry was reported from.
    pub addr: String,
    /// Instant of the last update, in microseconds since the fixed epoch.
    pub last_updated: u64,
    /// Whether the remote service has persisted the entry.
    pub is_saved: bool,
}

/// Detail record returned by a per-identifier fetch.  Immutable once
/// returned.
#[derive(Clone, Debug, PartialEq, Eq)]
pub struct FullEntry {
    /// Distributed identifier of the log entry.
    pub id: u64,
    /// The entry's textual payload.
    pub data: String,
}

} // verus!
