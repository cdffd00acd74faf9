//! Failures of message delivery between the daemon's actors.

use vstd::prelude::*;

verus! {

/// Why a message exchange with another actor failed. The text names the
/// message that was on its way.
#[derive(Debug, PartialEq, Eq)]
pub enum ChanError {
    /// The receiving actor is gone.
    SendError(&'static str),
    /// The actor went away before it answered.
    RecvError(&'static str),
}

} // verus!
