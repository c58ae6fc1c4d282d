use vstd::prelude::*;

verus! {

/// The error taxonomy of the provider core.
///
/// Every failure carries the path or detail it concerns, so a caller can see
/// which operation went wrong. No operation retries: each error is an
/// immediate abort of the current operation.
#[derive(Debug)]
pub enum Error {
    /// The session holds no remote handle; credentials must be (re)acquired.
    Auth(String),
    /// The path was never produced by a listing, search or upload on this
    /// session, so it cannot be resolved to a remote id. The caller must list
    /// the parent directory first; this is a protocol violation by the caller,
    /// not a transient fault.
    NotCached(String),
    /// The remote store failed, or returned an object this core cannot
    /// digest (a missing id or name, an unreadable size).
    RemoteCall(String),
    /// A local filesystem operation failed.
    LocalIo(String),
    /// The operation is recognised but deliberately not implemented
    /// (remote-to-remote copy). It fails loudly rather than silently no-op.
    Unsupported(String),
}

} // verus!
