//! Safe, verified core of a messaging-session layer.
//!
//! The session engine itself is an opaque native library driven through
//! raw handles and C-style callbacks; everything that can be stated and
//! checked about the layer around it lives here: the domain types, the
//! wire-code mappings, the validation every inbound and outbound value
//! goes through, and the ownership protocol that keeps the shared
//! callback context alive exactly as long as the engine may call back.

use vstd::prelude::*;

pub mod error;
pub mod gate;
pub mod inbound;
pub mod message;
pub mod session;
pub mod text;
pub mod types;

verus! {

pub use crate::error::Error;
pub use crate::message::Message;
pub use crate::session::SessionLifecycle;
pub use crate::types::ConnectionState;
pub use crate::types::QoS;

} // verus!
