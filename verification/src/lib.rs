//! Client-side core of a publish/subscribe messaging service reachable over
//! HTTPS+JSON: credential/token state shared between a renewal task and
//! request issuers, request framing, pull/decode/acknowledge handling, and
//! the cooperative shutdown protocol.

pub mod client;
pub mod control;
pub mod error;
pub mod framing;
pub mod message;
pub mod subscription;
pub mod topic;
pub mod wire;

pub use client::Client;
pub use message::{EncodedMessage, FromPubSubMessage};
pub use subscription::Subscription;
pub use topic::Topic;
