//! Verified core of an HLS (HTTP Live Streaming) ingestion pipeline.
//!
//! The library resolves a playlist hierarchy to a concrete media playlist,
//! models the resumable transfer of each MPEG-TS segment, decrypts segments
//! protected by AES-128-CBC key rotation, and hands the decoded byte
//! sequence, strictly in playlist order, to a bounded conduit that a sink
//! process drains.  All protocol decisions live here as verified state
//! machines; the surrounding process performs the network and process I/O
//! and feeds the outcomes back as events.

pub mod errors;
pub mod hexiv;
pub mod crypto;
pub mod playlist;
pub mod bridge;
pub mod transfer;
pub mod pipeline;
pub mod sinkargs;
pub mod utils;
