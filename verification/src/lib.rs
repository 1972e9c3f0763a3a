//! Message encoding for the Sommelier gravity bridge module.
//!
//! A [`message::SommGravity`] value is one action of the bridge module. It is turned into an
//! [`envelope::Any`], a type URL beside the bytes of the message, and from there into an
//! [`envelope::UnsignedTx`] of one message. The three confirmation actions exist to be carried
//! inside another message and are refused as transactions.
//!
//! The bytes themselves come from a wire codec that the caller hands in: the library decides
//! what is encoded, under which type URL it travels and whether it may be a transaction.
pub mod envelope;
pub mod error;
pub mod laws;
pub mod message;
