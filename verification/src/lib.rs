//! A verified core for reading a layer-2 sequencer broadcast feed: the data
//! model of a feed update, a message decoder that turns one incoming message
//! into typed, hash-identified transactions, the structural wire grammar the
//! transactions are encoded in, and the feed reader's decision rules. The
//! transport, JSON plumbing and task wiring live outside this crate; hashing
//! and base64 decoding are done by outside libraries behind stated contracts.

pub mod codec;
pub mod decoder;
pub mod feed_client;
pub mod rlp;
pub mod types;
