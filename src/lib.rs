//! Client-side routing core for a sharded vehicle signal shadow service.
//!
//! Every shard owns the signal paths that start with its registered prefix.
//! This crate keeps the ordered shard registry and makes every decision of a
//! client call: which shard each path goes to, what request each shard gets,
//! how the replies merge, and when a batch stops. The RPCs themselves are
//! performed by the caller, which feeds each reply back into the batch.
pub mod batch;
pub mod client;
pub mod error;
pub mod messages;
pub mod routing;

pub use batch::{GetBatch, SetBatch, UnlockBatch};
pub use client::VehicleShadowClient;
pub use error::ClientError;
pub use messages::{
    GetRequest, GetResponse, LockRequest, SetRequest, SetResponse, SetSignalRequest,
    SubscribeRequest, UnlockRequest, UnlockResponse, UnsubscribeResponse,
};
