//! An append-only, per-owner ledger of signed content assertions: titles
//! (content locators plus disclosure tags) and licenses (granted uses, terms
//! and expiry), with a binary framing format, canonical vocabulary handling,
//! an ordered write path and a verification traversal over the ledger.

pub mod codec;
pub mod error;
pub mod fields;
pub mod license;
pub mod msg_group;
pub mod owner;
pub mod schema;
pub mod service;
pub mod tag;
pub mod title;
pub mod transaction;
pub mod trusted;
pub mod use_case;
pub mod vocab;
pub mod writer_group;
