//! The mathematical model of the registry.
//!
//! A `Registry` is everything the registry keeps between calls: the tokens,
//! the holdings of each owner, the identifier counter and the events given
//! out so far. A refused call leaves it as it was.

use vstd::prelude::*;
use crate::address::Address;
use crate::index::filed_under;
use crate::nft::error::NftError;
use crate::nft::event::NftEvent;
use crate::nft::token::{NFTMetadata, NFT};

verus! {

/// The state of the registry as a mathematical value.
#[verifier::ext_equal]
pub struct Registry {
    /// The administrator named at bootstrap, who alone may mint.
    pub admin: Address,
    /// The identifier that the next token will get.
    pub next_token_id: u64,
    /// Each token, by identifier.
    pub tokens: Map<u64, NFT>,
    /// The tokens filed under each owner, in the order in which they came.
    pub holdings: Map<Seq<char>, Seq<u64>>,
    /// Every event given out so far, oldest first.
    pub events: Seq<NftEvent>,
}

impl Registry {
    /// The state right after bootstrap: no tokens, and the first identifier
    /// to be given out is 1.
    pub open spec fn fresh(admin: Address) -> Registry {
        Registry {
            admin,
            next_token_id: 1,
            tokens: Map::empty(),
            holdings: Map::empty(),
            events: Seq::empty(),
        }
    }

    /// Whether a token with this identifier exists.
    pub open spec fn has(self, id: u64) -> bool {
        self.tokens.dom().contains(id)
    }

    /// The tokens filed under an owner; empty for one that has none.
    pub open spec fn holding(self, owner: Seq<char>) -> Seq<u64> {
        filed_under(self.holdings, owner)
    }

    /// The number of tokens minted so far.
    pub open spec fn supply(self) -> int {
        self.next_token_id - 1
    }

    /// The identifiers in use are exactly those from 1 up to the counter, and
    /// each token is filed under its own identifier.
    pub open spec fn ids_wf(self) -> bool {
        &&& self.next_token_id >= 1
        &&& forall|id: u64| #[trigger]
            self.tokens.dom().contains(id) <==> 1 <= id < self.next_token_id
        &&& forall|id: u64| self.tokens.dom().contains(id) ==> (#[trigger] self.tokens[id]).id == id
    }

    /// Every token was created by the administrator.
    pub open spec fn creators_wf(self) -> bool {
        forall|id: u64|
            self.tokens.dom().contains(id) ==> (#[trigger] self.tokens[id]).creator@
                == self.admin@
    }

    /// Every token is filed under its owner, and whatever is filed under an
    /// owner is a token that exists.
    pub open spec fn holdings_wf(self) -> bool {
        &&& forall|id: u64|
            self.tokens.dom().contains(id) ==> self.holding(
                (#[trigger] self.tokens[id]).owner@,
            ).contains(id)
        &&& forall|owner: Seq<char>, id: u64| #[trigger]
            self.holding(owner).contains(id) ==> self.has(id)
    }

    /// Every event is about a token that exists.
    pub open spec fn events_wf(self) -> bool {
        forall|i: int| 0 <= i < self.events.len() ==> self.has((#[trigger] self.events[i]).subject())
    }

    /// The invariant of the registry. It holds after bootstrap and is kept
    /// by every operation.
    pub open spec fn wf(self) -> bool {
        &&& self.ids_wf()
        &&& self.creators_wf()
        &&& self.holdings_wf()
        &&& self.events_wf()
    }

    /// The token that a mint creates.
    pub open spec fn minted(
        self,
        to: Address,
        metadata: NFTMetadata,
        royalty_percentage: u32,
        now: u64,
    ) -> NFT {
        NFT {
            id: self.next_token_id,
            owner: to,
            creator: self.admin,
            metadata,
            royalty_percentage,
            minted_at: now,
        }
    }

    /// The state after an accepted mint: the counter's identifier is given to
    /// the new token, which is appended to the holdings of its owner, and the
    /// counter moves on by one.
    pub open spec fn after_mint(
        self,
        to: Address,
        metadata: NFTMetadata,
        royalty_percentage: u32,
        now: u64,
    ) -> Registry {
        let id = self.next_token_id;
        Registry {
            admin: self.admin,
            next_token_id: (id + 1) as u64,
            tokens: self.tokens.insert(id, self.minted(to, metadata, royalty_percentage, now)),
            holdings: self.holdings.insert(to@, self.holding(to@).push(id)),
            events: self.events.push(NftEvent::Minted { token_id: id, to }),
        }
    }

    /// Whether a transfer is accepted, and if not, why. The identity check
    /// comes first, then the lookup, then the ownership.
    pub open spec fn transfer_verdict(self, authorized: bool, from: Seq<char>, id: u64) -> Result<
        (),
        NftError,
    > {
        if !authorized {
            Err(NftError::Unauthorized)
        } else if !self.has(id) {
            Err(NftError::NotFound)
        } else {
            self.tokens[id].transfer_verdict(from)
        }
    }

    /// The state after an accepted transfer: the token belongs to `to`; its
    /// first occurrence is taken out of what is filed under `from`, and it is
    /// appended to what was filed under `to`. Both lists are read before
    /// either is written and the list of `to` is written last, so a transfer
    /// to oneself appends the token once more.
    pub open spec fn after_transfer(self, from: Address, to: Address, id: u64) -> Registry {
        Registry {
            tokens: self.tokens.insert(id, self.tokens[id].with_owner(to)),
            holdings: self.holdings.insert(from@, self.holding(from@).remove_value(id)).insert(
                to@,
                self.holding(to@).push(id),
            ),
            events: self.events.push(NftEvent::Transferred { token_id: id, from, to }),
            ..self
        }
    }
}

/// Taking the first occurrence of a value out of a sequence leaves every
/// other value in it, and brings in none.
pub proof fn lemma_remove_value_keeps_others(s: Seq<u64>, gone: u64, x: u64)
    ensures
        s.remove_value(gone).contains(x) ==> s.contains(x),
        s.contains(x) && x != gone ==> s.remove_value(gone).contains(x),
{
    s.index_of_first_ensures(gone);
    let rest = s.remove_value(gone);
    match s.index_of_first(gone) {
        Some(at) => {
            assert(rest == s.remove(at));
            if rest.contains(x) {
                let k = choose|k: int| 0 <= k < rest.len() && rest[k] == x;
                if k < at {
                    assert(s[k] == x);
                } else {
                    assert(s[k + 1] == x);
                }
            }
            if s.contains(x) && x != gone {
                let k = choose|k: int| 0 <= k < s.len() && s[k] == x;
                if k < at {
                    assert(rest[k] == x);
                } else {
                    assert(rest[k - 1] == x);
                }
            }
        },
        None => {},
    }
}

/// A freshly bootstrapped registry is well-formed.
pub proof fn lemma_fresh_wf(admin: Address)
    ensures
        Registry::fresh(admin).wf(),
{
}

/// Minting keeps the registry well-formed, as long as the counter stays
/// within the range of its type.
pub proof fn lemma_mint_keeps_wf(
    r: Registry,
    to: Address,
    metadata: NFTMetadata,
    royalty_percentage: u32,
    now: u64,
)
    requires
        r.wf(),
        r.next_token_id < u64::MAX,
    ensures
        r.after_mint(to, metadata, royalty_percentage, now).wf(),
{
    broadcast use vstd::seq_lib::lemma_seq_contains_after_push;

    let id = r.next_token_id;
    let next = r.after_mint(to, metadata, royalty_percentage, now);
    assert(!r.has(id));
    assert(next.ids_wf());
    assert(next.creators_wf());
    assert(next.holdings_wf()) by {
        assert forall|other: u64| next.tokens.dom().contains(other) implies next.holding(
            (#[trigger] next.tokens[other]).owner@,
        ).contains(other) by {
            if other != id {
                let owner = r.tokens[other].owner@;
                assert(r.holding(owner).contains(other));
            }
        }
        assert forall|owner: Seq<char>, other: u64| #[trigger]
            next.holding(owner).contains(other) implies next.has(other) by {
            if owner == to@ {
                if other != id {
                    assert(r.holding(owner).contains(other));
                }
            } else {
                assert(r.holding(owner).contains(other));
            }
        }
    }
    assert(next.events_wf()) by {
        assert forall|i: int| 0 <= i < next.events.len() implies next.has(
            (#[trigger] next.events[i]).subject(),
        ) by {
            if i < r.events.len() {
                assert(r.has(r.events[i].subject()));
            }
        }
    }
}

/// An accepted transfer keeps the registry well-formed.
pub proof fn lemma_transfer_keeps_wf(r: Registry, from: Address, to: Address, id: u64)
    requires
        r.wf(),
        r.transfer_verdict(true, from@, id) is Ok,
    ensures
        r.after_transfer(from, to, id).wf(),
{
    broadcast use vstd::seq_lib::lemma_seq_contains_after_push;

    let next = r.after_transfer(from, to, id);
    assert(next.ids_wf());
    assert(next.creators_wf());
    assert(next.holdings_wf()) by {
        assert forall|other: u64| next.tokens.dom().contains(other) implies next.holding(
            (#[trigger] next.tokens[other]).owner@,
        ).contains(other) by {
            if other != id {
                let owner = r.tokens[other].owner@;
                assert(r.holding(owner).contains(other));
                if owner != to@ && owner == from@ {
                    lemma_remove_value_keeps_others(r.holding(owner), id, other);
                }
            }
        }
        assert forall|owner: Seq<char>, other: u64| #[trigger]
            next.holding(owner).contains(other) implies next.has(other) by {
            if owner == to@ {
                if other != id {
                    assert(r.holding(owner).contains(other));
                }
            } else if owner == from@ {
                lemma_remove_value_keeps_others(r.holding(owner), id, other);
                assert(r.holding(owner).contains(other));
            } else {
                assert(r.holding(owner).contains(other));
            }
        }
    }
    assert(next.events_wf()) by {
        assert forall|i: int| 0 <= i < next.events.len() implies next.has(
            (#[trigger] next.events[i]).subject(),
        ) by {
            if i < r.events.len() {
                assert(r.has(r.events[i].subject()));
            }
        }
    }
}

} // verus!
