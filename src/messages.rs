//! The request and response shapes of the shard service. Signal values,
//! states and per-signal set results are type parameters: they pass through
//! unexamined.
use vstd::prelude::*;

verus! {

pub struct GetRequest {
    pub paths: Vec<String>,
}

pub struct GetResponse<S> {
    pub signals: Vec<S>,
    pub success: bool,
    pub error_message: String,
}

pub struct SetSignalRequest<T> {
    pub path: String,
    pub state: Option<T>,
}

pub struct SetRequest<T> {
    pub signals: Vec<SetSignalRequest<T>>,
    pub token: String,
}

pub struct SetResponse<R> {
    pub results: Vec<R>,
    pub success: bool,
    pub error_message: String,
}

pub struct SubscribeRequest {
    pub paths: Vec<String>,
}

pub struct LockRequest {
    pub paths: Vec<String>,
}

pub struct UnlockRequest {
    pub token: String,
}

pub struct UnlockResponse {
    pub success: bool,
}

pub struct UnsubscribeResponse {
    pub success: bool,
}

} // verus!
