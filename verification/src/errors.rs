//! The error taxonomy of the monitor: one variant per failure kind, so that
//! callers can tell fatal startup errors from per-event, recoverable ones.
use vstd::prelude::*;

verus! {

/// Why an event (or the whole monitor) failed.
///
/// `StartupFailure` and `ChannelError` are fatal-versus-loop conditions that
/// only the process wiring produces; the per-event handlers return the four
/// recoverable kinds, each naming the resolution step that failed.
#[derive(Clone, Copy, Debug, PartialEq, Eq, Structural)]
pub enum ErrorKind {
    /// Installing the directory watch failed; the process cannot start.
    StartupFailure,
    /// The entry's file name is not a base-10 unsigned integer in range.
    IdParseFailure,
    /// The entry's filesystem metadata (owning user id) could not be read.
    MetadataFailure,
    /// No user account matches the numeric owning-user id.
    IdentityLookupFailure,
    /// The desktop notification could not be created and shown.
    NotificationFailure,
    /// Receiving from the event channel failed; the loop continues.
    ChannelError,
}

} // verus!
