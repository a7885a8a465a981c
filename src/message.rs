use vstd::prelude::*;
use crate::profiles::{ServerProfile, UserProfile};

verus! {

/// Messages that a client sends to its peers. None is defined yet: the one
/// variant holds a value of an empty type, so no message can be made.
#[derive(Clone, Copy, Debug)]
pub enum ClientMessage {
    Undefined(core::convert::Infallible),
}

/// Messages that a server sends to its peers. None is defined yet: the one
/// variant holds a value of an empty type, so no message can be made.
#[derive(Clone, Copy, Debug)]
pub enum ServerMessage {
    Undefined(core::convert::Infallible),
}

/// A message on the network, with the profile of the peer that sent it.
/// Identifiers are UUIDs, held as their 128-bit value.
#[derive(Clone, Debug)]
#[allow(inconsistent_fields)]
pub enum NetworkMessage {
    Client { id: u128, peer_profile: UserProfile, message: ClientMessage },
    Server {
        id: u128,
        responding_to: Option<u128>,
        peer_profile: ServerProfile,
        message: ServerMessage,
    },
}

} // verus!
