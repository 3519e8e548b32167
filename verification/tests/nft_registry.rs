use stellar_marketplace::address::Address;
use stellar_marketplace::nft::error::NftError;
use stellar_marketplace::nft::event::NftEvent;
use stellar_marketplace::nft::registry::StellarNFT;
use stellar_marketplace::nft::token::{NFTAttribute, NFTMetadata, NFT};

fn addr(text: &str) -> Address {
    Address::from_str(text)
}

fn attribute(trait_type: &str, value: &str) -> NFTAttribute {
    NFTAttribute { trait_type: trait_type.to_string(), value: value.to_string() }
}

fn mint(registry: &mut StellarNFT, to: &str, now: u64) -> u64 {
    registry
        .mint(
            true,
            addr(to),
            "Name".to_string(),
            "Description".to_string(),
            "https://example.org/1.png".to_string(),
            vec![attribute("colour", "red")],
            5,
            now,
        )
        .unwrap()
}

#[test]
fn registry_bootstrap() {
    let registry = StellarNFT::initialize(addr("ADMIN"));
    assert_eq!(registry.admin(), &addr("ADMIN"));
    assert_eq!(registry.total_supply(), 0);
    assert!(registry.events().is_empty());
    assert_eq!(registry.get_nft(1), Err(NftError::NotFound));
}

#[test]
fn mint_gives_out_identifiers_in_order() {
    let mut registry = StellarNFT::initialize(addr("ADMIN"));
    assert_eq!(mint(&mut registry, "A", 10), 1);
    assert_eq!(mint(&mut registry, "B", 11), 2);
    assert_eq!(mint(&mut registry, "A", 12), 3);
    assert_eq!(registry.total_supply(), 3);
    assert_eq!(registry.get_owner_tokens(addr("A")), vec![1, 3]);
    assert_eq!(registry.get_owner_tokens(addr("B")), vec![2]);
    assert_eq!(registry.owner_of(2), Ok(addr("B")));
}

#[test]
fn minted_token_carries_what_was_given() {
    let mut registry = StellarNFT::initialize(addr("ADMIN"));
    let id = registry
        .mint(
            true,
            addr("A"),
            "Kite".to_string(),
            "A paper kite".to_string(),
            "ipfs://kite".to_string(),
            vec![attribute("colour", "red"), attribute("tail", "long")],
            12,
            777,
        )
        .unwrap();
    assert_eq!(
        registry.get_nft(id),
        Ok(NFT {
            id: 1,
            owner: addr("A"),
            creator: addr("ADMIN"),
            metadata: NFTMetadata {
                name: "Kite".to_string(),
                description: "A paper kite".to_string(),
                image_url: "ipfs://kite".to_string(),
                attributes: vec![attribute("colour", "red"), attribute("tail", "long")],
            },
            royalty_percentage: 12,
            minted_at: 777,
        })
    );
    assert_eq!(registry.events(), &vec![NftEvent::Minted { token_id: 1, to: addr("A") }]);
}

#[test]
fn unauthorized_mint_changes_nothing() {
    let mut registry = StellarNFT::initialize(addr("ADMIN"));
    let outcome = registry.mint(
        false,
        addr("A"),
        String::new(),
        String::new(),
        String::new(),
        vec![],
        0,
        0,
    );
    assert_eq!(outcome, Err(NftError::Unauthorized));
    assert_eq!(registry.total_supply(), 0);
    assert!(registry.get_owner_tokens(addr("A")).is_empty());
    assert!(registry.events().is_empty());
}

#[test]
fn transfer_moves_the_token() {
    let mut registry = StellarNFT::initialize(addr("ADMIN"));
    mint(&mut registry, "A", 0);
    mint(&mut registry, "A", 0);
    mint(&mut registry, "B", 0);
    assert_eq!(registry.transfer(true, addr("A"), addr("B"), 1), Ok(()));
    assert_eq!(registry.owner_of(1), Ok(addr("B")));
    assert_eq!(registry.get_nft(1).unwrap().creator, addr("ADMIN"));
    assert_eq!(registry.get_owner_tokens(addr("A")), vec![2]);
    assert_eq!(registry.get_owner_tokens(addr("B")), vec![3, 1]);
    assert_eq!(
        registry.events().last(),
        Some(&NftEvent::Transferred { token_id: 1, from: addr("A"), to: addr("B") })
    );
    assert_eq!(registry.events().last().unwrap().token_id(), 1);
    assert_eq!(registry.total_supply(), 3);
}

#[test]
fn transfer_refusals_come_in_order() {
    let mut registry = StellarNFT::initialize(addr("ADMIN"));
    mint(&mut registry, "A", 0);
    assert_eq!(registry.transfer(false, addr("A"), addr("B"), 1), Err(NftError::Unauthorized));
    assert_eq!(registry.transfer(false, addr("A"), addr("B"), 9), Err(NftError::Unauthorized));
    assert_eq!(registry.transfer(true, addr("A"), addr("B"), 9), Err(NftError::NotFound));
    assert_eq!(registry.transfer(true, addr("A"), addr("B"), 0), Err(NftError::NotFound));
    assert_eq!(registry.transfer(true, addr("B"), addr("A"), 1), Err(NftError::NotOwner));
    assert_eq!(registry.owner_of(1), Ok(addr("A")));
    assert_eq!(registry.get_owner_tokens(addr("A")), vec![1]);
    assert!(registry.get_owner_tokens(addr("B")).is_empty());
    assert_eq!(registry.events().len(), 1);
    assert_eq!(registry.owner_of(2), Err(NftError::NotFound));
}

#[test]
fn transfer_to_oneself_files_the_token_once_more() {
    let mut registry = StellarNFT::initialize(addr("ADMIN"));
    mint(&mut registry, "A", 0);
    mint(&mut registry, "A", 0);
    assert_eq!(registry.transfer(true, addr("A"), addr("A"), 1), Ok(()));
    assert_eq!(registry.owner_of(1), Ok(addr("A")));
    assert_eq!(registry.get_owner_tokens(addr("A")), vec![1, 2, 1]);
}

#[test]
fn token_returns_to_an_earlier_owner() {
    let mut registry = StellarNFT::initialize(addr("ADMIN"));
    mint(&mut registry, "A", 0);
    assert_eq!(registry.transfer(true, addr("A"), addr("B"), 1), Ok(()));
    assert_eq!(registry.transfer(true, addr("B"), addr("A"), 1), Ok(()));
    assert_eq!(registry.owner_of(1), Ok(addr("A")));
    assert_eq!(registry.get_owner_tokens(addr("A")), vec![1]);
    assert!(registry.get_owner_tokens(addr("B")).is_empty());
}

#[test]
fn token_copies_equal_what_they_copy() {
    let metadata = NFTMetadata {
        name: "n".to_string(),
        description: "d".to_string(),
        image_url: "u".to_string(),
        attributes: vec![attribute("a", "b"), attribute("c", "d")],
    };
    assert_eq!(metadata.clone(), metadata);
    assert_eq!(attribute("a", "b").clone(), attribute("a", "b"));
    let event = NftEvent::Minted { token_id: 4, to: addr("A") };
    assert_eq!(event.clone(), event);
    assert_eq!(event.token_id(), 4);
}

#[test]
fn registry_messages_and_topics() {
    assert_eq!(NftError::NotFound.message(), "Token does not exist");
    assert_eq!(NftError::NotOwner.message(), "Not the owner");
    assert_eq!(NftError::Unauthorized.message(), "Caller is not authorized");
    assert_eq!(NftEvent::Minted { token_id: 1, to: addr("A") }.topic(), "mint");
    assert_eq!(
        NftEvent::Transferred { token_id: 1, from: addr("A"), to: addr("B") }.topic(),
        "transfer"
    );
}

#[test]
fn token_record_operations() {
    let metadata = NFTMetadata {
        name: "n".to_string(),
        description: "d".to_string(),
        image_url: "u".to_string(),
        attributes: vec![],
    };
    let mut token = NFT::mint(4, addr("A"), addr("ADMIN"), metadata, 3, 99);
    assert_eq!(token.id, 4);
    assert_eq!(token.owner, addr("A"));
    assert_eq!(token.creator, addr("ADMIN"));
    assert_eq!(token.royalty_percentage, 3);
    assert_eq!(token.minted_at, 99);
    assert_eq!(token.transfer(&addr("B"), addr("C")), Err(NftError::NotOwner));
    assert_eq!(token.owner, addr("A"));
    assert_eq!(token.transfer(&addr("A"), addr("C")), Ok(()));
    assert_eq!(token.owner, addr("C"));
    assert_eq!(token.clone(), token);
}
