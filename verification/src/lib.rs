//! Client-side lazy fetch cache for a remote log-entry service.
//!
//! Two independent components:
//!
//! * [`id_clock`] — a pure decoder that recovers the creation instant
//!   embedded in a 64-bit distributed identifier, given the identifier's
//!   bit layout.
//! * [`cache`] — a single-flight fetch cache: at most one outstanding
//!   transport call per key, idempotent read-only polling, and wholesale
//!   invalidation that orphans (rather than cancels) in-flight calls.
//!
//! The cache never performs I/O itself: `get_index` / `get_detail` return a
//! request descriptor when (and only when) a transport call must be issued,
//! and the transport layer reports back through `complete_index` /
//! `complete_detail`.  The records and fetch lifecycle live in [`entry`];
//! fire-and-forget persist/discard requests, which are never cached, in
//! [`mutation`].

pub mod cache;
pub mod entry;
pub mod id_clock;
pub mod mutation;
