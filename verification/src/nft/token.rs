//! The token record and the description that it carries.

use vstd::prelude::*;
use crate::address::Address;
use crate::nft::error::NftError;

verus! {

/// One named trait of a token.
#[derive(Debug, PartialEq, Eq)]
pub struct NFTAttribute {
    pub trait_type: String,
    pub value: String,
}

/// A trait of a token as text.
pub struct NFTAttributeView {
    pub trait_type: Seq<char>,
    pub value: Seq<char>,
}

impl View for NFTAttribute {
    type V = NFTAttributeView;

    open spec fn view(&self) -> NFTAttributeView {
        NFTAttributeView { trait_type: self.trait_type@, value: self.value@ }
    }
}

impl Clone for NFTAttribute {
    fn clone(&self) -> (copy: Self)
        ensures
            copy == *self,
    {
        NFTAttribute { trait_type: self.trait_type.clone(), value: self.value.clone() }
    }
}

/// The description of a token.
#[derive(Debug, PartialEq, Eq)]
pub struct NFTMetadata {
    pub name: String,
    pub description: String,
    pub image_url: String,
    pub attributes: Vec<NFTAttribute>,
}

/// The description of a token as text.
pub struct NFTMetadataView {
    pub name: Seq<char>,
    pub description: Seq<char>,
    pub image_url: Seq<char>,
    pub attributes: Seq<NFTAttributeView>,
}

impl View for NFTMetadata {
    type V = NFTMetadataView;

    open spec fn view(&self) -> NFTMetadataView {
        NFTMetadataView {
            name: self.name@,
            description: self.description@,
            image_url: self.image_url@,
            attributes: self.attributes@.map_values(|a: NFTAttribute| a@),
        }
    }
}

impl Clone for NFTMetadata {
    fn clone(&self) -> (copy: Self)
        ensures
            copy@ == self@,
            copy.attributes@ == self.attributes@,
    {
        let mut attributes: Vec<NFTAttribute> = Vec::new();
        let mut k: usize = 0;
        while k < self.attributes.len()
            invariant
                k <= self.attributes@.len(),
                attributes@ == self.attributes@.take(k as int),
            decreases self.attributes@.len() - k,
        {
            attributes.push(self.attributes[k].clone());
            assert(self.attributes@.take(k + 1) == self.attributes@.take(k as int).push(
                self.attributes@[k as int],
            ));
            k = k + 1;
        }
        assert(self.attributes@.take(self.attributes@.len() as int) == self.attributes@);
        NFTMetadata {
            name: self.name.clone(),
            description: self.description.clone(),
            image_url: self.image_url.clone(),
            attributes,
        }
    }
}

/// One token of the registry.
#[derive(Debug, PartialEq, Eq)]
pub struct NFT {
    pub id: u64,
    pub owner: Address,
    pub creator: Address,
    pub metadata: NFTMetadata,
    pub royalty_percentage: u32,
    pub minted_at: u64,
}

/// A token as a mathematical value.
pub struct NFTView {
    pub id: u64,
    pub owner: Seq<char>,
    pub creator: Seq<char>,
    pub metadata: NFTMetadataView,
    pub royalty_percentage: u32,
    pub minted_at: u64,
}

impl View for NFT {
    type V = NFTView;

    open spec fn view(&self) -> NFTView {
        NFTView {
            id: self.id,
            owner: self.owner@,
            creator: self.creator@,
            metadata: self.metadata@,
            royalty_percentage: self.royalty_percentage,
            minted_at: self.minted_at,
        }
    }
}

impl Clone for NFT {
    fn clone(&self) -> (copy: Self)
        ensures
            copy@ == self@,
    {
        NFT {
            id: self.id,
            owner: self.owner.clone(),
            creator: self.creator.clone(),
            metadata: self.metadata.clone(),
            royalty_percentage: self.royalty_percentage,
            minted_at: self.minted_at,
        }
    }
}

impl NFT {
    /// The token with its owner replaced.
    pub open spec fn with_owner(self, owner: Address) -> NFT {
        NFT { owner, ..self }
    }

    /// Whether `from` may pass the token on, and if not, why.
    pub open spec fn transfer_verdict(self, from: Seq<char>) -> Result<(), NftError> {
        if self.owner@ != from {
            Err(NftError::NotOwner)
        } else {
            Ok(())
        }
    }

    /// Creates the record of a token minted to `to` at `now`.
    pub fn mint(
        id: u64,
        to: Address,
        creator: Address,
        metadata: NFTMetadata,
        royalty_percentage: u32,
        now: u64,
    ) -> (token: NFT)
        ensures
            token == (NFT { id, owner: to, creator, metadata, royalty_percentage, minted_at: now }),
    {
        NFT { id, owner: to, creator, metadata, royalty_percentage, minted_at: now }
    }

    /// Passes the token from `from`, which must own it, to `to`. A refused
    /// transfer leaves the token as it was.
    pub fn transfer(&mut self, from: &Address, to: Address) -> (outcome: Result<(), NftError>)
        ensures
            outcome == old(self).transfer_verdict(from@),
            outcome is Ok ==> *final(self) == old(self).with_owner(to),
            outcome is Err ==> *final(self) == *old(self),
    {
        if !self.owner.same_as(from) {
            return Err(NftError::NotOwner);
        }
        self.owner = to;
        Ok(())
    }
}

} // verus!
