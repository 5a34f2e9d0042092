//! What the public clients share: filling in request structs, and turning
//! what became of a command into the result of a call.

use vstd::prelude::*;

use crate::error::BitcoinCapnpError;

verus! {

/// Writes a Rust-native options struct into its Cap'n Proto counterpart `B`.
pub trait IntoCapnp<B> {
    /// What `builder` holds after the options were written over `before`.
    spec fn applied(&self, before: B) -> B;

    fn apply(&self, builder: &mut B)
        ensures
            *final(builder) == self.applied(*old(builder)),
    ;
}

/// What became of a command that a client handed to the actor.
pub enum Delivery<T> {
    /// The actor no longer takes commands.
    NotSent,
    /// The actor took the command and dropped it without a reply.
    Dropped,
    /// The actor replied.
    Replied(Result<T, BitcoinCapnpError>),
}

impl<T> Delivery<T> {
    /// The result of the call.
    pub open spec fn settled(self) -> Result<T, BitcoinCapnpError> {
        match self {
            Delivery::NotSent => Err(BitcoinCapnpError::ActorDisconnected),
            Delivery::Dropped => Err(BitcoinCapnpError::ActorDisconnected),
            Delivery::Replied(reply) => reply,
        }
    }

    /// The result of the call: the actor's reply as it stands, or
    /// `ActorDisconnected` where there is none.
    pub fn settle(self) -> (r: Result<T, BitcoinCapnpError>)
        ensures
            r == self.settled(),
    {
        match self {
            Delivery::NotSent => Err(BitcoinCapnpError::ActorDisconnected),
            Delivery::Dropped => Err(BitcoinCapnpError::ActorDisconnected),
            Delivery::Replied(reply) => reply,
        }
    }
}

} // verus!
