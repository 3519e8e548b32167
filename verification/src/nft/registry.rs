//! The registry over state held in memory.
//!
//! `StellarNFT` keeps the tokens in the order of their identifiers and keeps
//! an index of the tokens filed under each owner. Its view is the `Registry`
//! of the model.

use vstd::prelude::*;
use crate::address::Address;
use crate::index::{remove_first, AddressIndex};
use crate::nft::error::NftError;
use crate::nft::event::NftEvent;
use crate::nft::model::{lemma_fresh_wf, lemma_mint_keeps_wf, lemma_transfer_keeps_wf, Registry};
use crate::nft::token::{NFTAttribute, NFTMetadata, NFT};

verus! {

/// The registry and all that it keeps between calls.
pub struct StellarNFT {
    admin: Address,
    next_token_id: u64,
    tokens: Vec<NFT>,
    holders: AddressIndex,
    events: Vec<NftEvent>,
}

/// The tokens, each under its identifier.
spec fn tokens_of(tokens: Seq<NFT>) -> Map<u64, NFT> {
    Map::new(|id: u64| 1 <= id <= tokens.len(), |id: u64| tokens[id - 1])
}

impl View for StellarNFT {
    type V = Registry;

    closed spec fn view(&self) -> Registry {
        Registry {
            admin: self.admin,
            next_token_id: self.next_token_id,
            tokens: tokens_of(self.tokens@),
            holdings: self.holders@,
            events: self.events@,
        }
    }
}

impl StellarNFT {
    /// What the representation needs beyond the invariant of the model: the
    /// counter runs one ahead of the number of tokens, and the index of the
    /// owners is sound.
    pub closed spec fn repr_ok(&self) -> bool {
        &&& self.tokens@.len() + 1 == self.next_token_id
        &&& self.holders.wf()
    }

    /// The invariant of the registry: the state is a well-formed registry,
    /// and the representation is sound.
    pub open spec fn wf(&self) -> bool {
        &&& self.repr_ok()
        &&& self@.wf()
    }

    /// Bootstraps the registry: names the administrator and sets the counter
    /// to 1.
    pub fn initialize(admin: Address) -> (registry: StellarNFT)
        ensures
            registry.wf(),
            registry@ == Registry::fresh(admin),
    {
        let registry = StellarNFT {
            admin,
            next_token_id: 1,
            tokens: Vec::new(),
            holders: AddressIndex::new(),
            events: Vec::new(),
        };
        proof {
            lemma_fresh_wf(admin);
            assert(registry@.tokens =~= Map::<u64, NFT>::empty());
            assert(registry@ =~= Registry::fresh(admin));
        }
        registry
    }

    /// The administrator named at bootstrap.
    pub fn admin(&self) -> (admin: &Address)
        ensures
            *admin == self@.admin,
    {
        &self.admin
    }

    /// Every event given out so far, oldest first.
    pub fn events(&self) -> (events: &Vec<NftEvent>)
        ensures
            events@ == self@.events,
    {
        &self.events
    }

    /// The position of the token with this identifier, if there is one.
    fn position(&self, token_id: u64) -> (found: Option<usize>)
        requires
            self.wf(),
        ensures
            match found {
                Some(i) => {
                    &&& self@.has(token_id)
                    &&& i == token_id - 1
                    &&& i < self.tokens@.len()
                    &&& self@.tokens[token_id] == self.tokens@[i as int]
                },
                None => !self@.has(token_id),
            },
    {
        let count: usize = self.tokens.len();
        if token_id >= 1 && token_id - 1 < count as u64 {
            Some((token_id - 1) as usize)
        } else {
            None
        }
    }

    /// Mints a token to `to` and returns its identifier. Only the
    /// administrator may mint: `authorized` says whether the caller may act
    /// for the administrator. `now` is the ledger time.
    pub fn mint(
        &mut self,
        authorized: bool,
        to: Address,
        name: String,
        description: String,
        image_url: String,
        attributes: Vec<NFTAttribute>,
        royalty_percentage: u32,
        now: u64,
    ) -> (outcome: Result<u64, NftError>)
        requires
            old(self).wf(),
            old(self)@.next_token_id < u64::MAX,
        ensures
            final(self).wf(),
            match outcome {
                Ok(id) => {
                    &&& authorized
                    &&& id == old(self)@.next_token_id
                    &&& final(self)@ == old(self)@.after_mint(
                        to,
                        NFTMetadata { name, description, image_url, attributes },
                        royalty_percentage,
                        now,
                    )
                },
                Err(reason) => {
                    &&& !authorized
                    &&& reason == NftError::Unauthorized
                    &&& final(self)@ == old(self)@
                },
            },
    {
        if !authorized {
            return Err(NftError::Unauthorized);
        }
        let ghost before = *self;
        let id: u64 = self.next_token_id;
        let metadata = NFTMetadata { name, description, image_url, attributes };
        let token = NFT::mint(
            id,
            to.clone(),
            self.admin.clone(),
            metadata,
            royalty_percentage,
            now,
        );
        self.holders.append(&to, id);
        self.events.push(NftEvent::Minted { token_id: id, to });
        self.tokens.push(token);
        self.next_token_id = id + 1;
        proof {
            let target = before@.after_mint(to, metadata, royalty_percentage, now);
            assert(self@.tokens =~= target.tokens);
            assert(self@ =~= target);
            lemma_mint_keeps_wf(before@, to, metadata, royalty_percentage, now);
        }
        Ok(id)
    }

    /// Passes a token from `from` to `to`. `authorized` says whether the
    /// caller may act for `from`, which must own the token.
    ///
    /// What is filed under the two owners is read before either list is
    /// written, and the list of `to` is written last.
    pub fn transfer(&mut self, authorized: bool, from: Address, to: Address, token_id: u64) -> (outcome:
        Result<(), NftError>)
        requires
            old(self).wf(),
        ensures
            final(self).wf(),
            outcome == old(self)@.transfer_verdict(authorized, from@, token_id),
            outcome is Ok ==> final(self)@ == old(self)@.after_transfer(from, to, token_id),
            outcome is Err ==> final(self)@ == old(self)@,
    {
        if !authorized {
            return Err(NftError::Unauthorized);
        }
        let i: usize = match self.position(token_id) {
            Some(i) => i,
            None => {
                return Err(NftError::NotFound);
            },
        };
        let ghost before = *self;
        match self.tokens[i].transfer(&from, to.clone()) {
            Err(reason) => {
                proof {
                    assert(self.tokens@ =~= before.tokens@);
                }
                return Err(reason);
            },
            Ok(()) => {},
        }
        let mut from_tokens = self.holders.ids_of(&from);
        let mut to_tokens = self.holders.ids_of(&to);
        remove_first(&mut from_tokens, token_id);
        to_tokens.push(token_id);
        self.holders.put(&from, from_tokens);
        self.holders.put(&to, to_tokens);
        self.events.push(NftEvent::Transferred { token_id, from, to });
        proof {
            let target = before@.after_transfer(from, to, token_id);
            assert(self@.tokens =~= target.tokens);
            assert(self@ =~= target);
            lemma_transfer_keeps_wf(before@, from, to, token_id);
        }
        Ok(())
    }

    /// The token with this identifier.
    pub fn get_nft(&self, token_id: u64) -> (outcome: Result<NFT, NftError>)
        requires
            self.wf(),
        ensures
            match outcome {
                Ok(token) => self@.has(token_id) && token@ == self@.tokens[token_id]@,
                Err(reason) => !self@.has(token_id) && reason == NftError::NotFound,
            },
    {
        match self.position(token_id) {
            Some(i) => Ok(self.tokens[i].clone()),
            None => Err(NftError::NotFound),
        }
    }

    /// The tokens filed under `owner`, in the order in which they came;
    /// empty when none are.
    pub fn get_owner_tokens(&self, owner: Address) -> (ids: Vec<u64>)
        requires
            self.wf(),
        ensures
            ids@ == self@.holding(owner@),
    {
        self.holders.ids_of(&owner)
    }

    /// The owner of the token with this identifier.
    pub fn owner_of(&self, token_id: u64) -> (outcome: Result<Address, NftError>)
        requires
            self.wf(),
        ensures
            match outcome {
                Ok(owner) => self@.has(token_id) && owner == self@.tokens[token_id].owner,
                Err(reason) => !self@.has(token_id) && reason == NftError::NotFound,
            },
    {
        match self.position(token_id) {
            Some(i) => Ok(self.tokens[i].owner.clone()),
            None => Err(NftError::NotFound),
        }
    }

    /// The number of tokens minted so far.
    pub fn total_supply(&self) -> (supply: u64)
        requires
            self.wf(),
        ensures
            supply == self@.supply(),
    {
        self.next_token_id - 1
    }
}

} // verus!
