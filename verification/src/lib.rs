//! A card-collecting chat bot's verified core: the collection-store
//! protocol (rolling, saving, trading cards and cooldown stamps over a
//! read-then-write document store), the typed decoders for the store's
//! documents, and the reaction-driven paginator that browses an
//! inventory. The surrounding gateway, HTTP and rendering glue stays
//! outside; it hands these modules plain values and performs the writes
//! they decide.

pub mod card;
pub mod category;
pub mod collection;
pub mod config;
pub mod cooldown;
pub mod decode;
pub mod error;
pub mod inventory;
pub mod paginator;
pub mod service;
pub mod text;
