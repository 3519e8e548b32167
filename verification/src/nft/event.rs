//! The notifications that the registry gives out, one for each committed
//! change.

use vstd::prelude::*;
use crate::address::Address;

verus! {

/// A notification of one committed change to the registry.
#[derive(Debug, PartialEq, Eq)]
pub enum NftEvent {
    /// A token was minted to `to`.
    Minted { token_id: u64, to: Address },
    /// A token passed from `from` to `to`.
    Transferred { token_id: u64, from: Address, to: Address },
}

impl NftEvent {
    /// The identifier of the token that the event is about.
    pub open spec fn subject(self) -> u64 {
        match self {
            NftEvent::Minted { token_id, .. } => token_id,
            NftEvent::Transferred { token_id, .. } => token_id,
        }
    }

    /// The topic under which the event is published.
    pub open spec fn topic_text(self) -> Seq<char> {
        match self {
            NftEvent::Minted { .. } => "mint"@,
            NftEvent::Transferred { .. } => "transfer"@,
        }
    }

    /// The topic under which the event is published.
    pub fn topic(&self) -> (topic: &'static str)
        ensures
            topic@ == self.topic_text(),
    {
        match self {
            NftEvent::Minted { .. } => "mint",
            NftEvent::Transferred { .. } => "transfer",
        }
    }

    /// The identifier of the token that the event is about.
    pub fn token_id(&self) -> (id: u64)
        ensures
            id == self.subject(),
    {
        match self {
            NftEvent::Minted { token_id, .. } => *token_id,
            NftEvent::Transferred { token_id, .. } => *token_id,
        }
    }
}

impl Clone for NftEvent {
    fn clone(&self) -> (copy: Self)
        ensures
            copy == *self,
    {
        match self {
            NftEvent::Minted { token_id, to } => {
                NftEvent::Minted { token_id: *token_id, to: to.clone() }
            },
            NftEvent::Transferred { token_id, from, to } => {
                NftEvent::Transferred { token_id: *token_id, from: from.clone(), to: to.clone() }
            },
        }
    }
}

} // verus!
