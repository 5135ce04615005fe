//! The errors a session operation can return. All are synchronous and
//! local to the call that detected them; nothing is retried here.

use vstd::prelude::*;

verus! {

/// Why a session operation failed.
#[derive(Clone, Copy, Debug, PartialEq, Eq, Structural)]
pub enum Error {
    /// A text argument cannot be represented in the engine's expected
    /// encoding (it contains an embedded null byte).
    InvalidArgument,
    /// The engine refused to create a session.
    InitializationError,
    /// The engine rejected the broker configuration or the session start.
    ConnectionError,
    /// The engine rejected a subscribe or unsubscribe request.
    SubscriptionError,
    /// The engine rejected a publish request.
    PublicationError,
}

} // verus!
