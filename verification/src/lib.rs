//! A ledger-resident marketplace: a timed ascending-price auction engine and a
//! registry of non-fungible assets.
//!
//! The engine holds no state between calls other than what is in the value it
//! is handed. Every operation validates first and commits afterwards, so a
//! rejected call leaves the state exactly as it was. The clock, the check that
//! a caller may act for a principal, and the delivery of events belong to the
//! ledger that embeds the engine: operations take the ledger time and the
//! outcome of the identity check as arguments, and record the events they
//! give rise to.
//!
//! - [`address`]: the identifiers of parties and contracts.
//! - [`index`]: lists of identifiers filed under addresses.
//! - [`auction`]: the auction record and its rules, the model of the engine,
//!   the engine itself, and what is proved of it.
//! - [`nft`]: the token record, the model of the registry, and the registry.

pub mod address;
pub mod auction;
pub mod index;
pub mod nft;

pub use address::Address;
pub use auction::error::AuctionError;
pub use auction::event::AuctionEvent;
pub use auction::record::{Auction, AuctionStatus, Bid};
pub use auction::store::StellarAuction;
pub use nft::error::NftError;
pub use nft::event::NftEvent;
pub use nft::registry::StellarNFT;
pub use nft::token::{NFTAttribute, NFTMetadata, NFT};
