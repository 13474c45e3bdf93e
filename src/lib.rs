//! A client for a child process that speaks newline-delimited JSON-RPC over
//! its standard streams, and a recorder that keeps the bytes of the frames
//! that pass through it.
//!
//! The library holds the logic: how outbound frames are encoded and given
//! correlation ids, how inbound lines are classified, and how recorded frames
//! accumulate. Spawning the process, the pipes and the reader threads stand
//! around it.
pub mod codec;
pub mod json;
pub mod replay;
pub mod router;
