//! What the actors of the debugging protocol have in common.
use vstd::prelude::*;

verus! {

/// Why an actor did not answer a message.
#[derive(Clone, Copy, Debug, PartialEq, Eq, Structural)]
pub enum ActorError {
    /// The actor does not know the kind of the message.
    UnrecognizedPacketType,
}

} // verus!
