//! One client call in progress, as a state machine. The caller asks for the
//! next shard request, performs it, and hands the reply back; the batch
//! merges replies in order and stops at the first failed RPC. Nothing that
//! was already applied on a shard is undone.
use vstd::prelude::*;
use crate::error::ClientError;
use crate::messages::{
    GetRequest, GetResponse, SetRequest, SetResponse, SetSignalRequest, UnlockRequest,
    UnlockResponse,
};

verus! {

/// Shard index and path of each pending single-path call.
pub open spec fn call_view(p: Seq<(usize, String)>) -> Seq<(int, Seq<char>)> {
    p.map_values(|e: (usize, String)| (e.0 as int, e.1@))
}

/// Whether every reply reported success (true of no replies at all).
pub open spec fn all_true(s: Seq<bool>) -> bool
    decreases s.len(),
{
    if s.len() == 0 {
        true
    } else {
        all_true(s.drop_last()) && s.last()
    }
}

/// The success of a broadcast is the conjunction of its replies, vacuously true
/// when no shard was asked.
pub proof fn lemma_all_true_iff(s: Seq<bool>)
    ensures
        all_true(s) <==> forall|i: int| 0 <= i < s.len() ==> #[trigger] s[i],
        s.len() == 0 ==> all_true(s),
    decreases s.len(),
{
    if s.len() > 0 {
        let init = s.drop_last();
        lemma_all_true_iff(init);
        assert forall|i: int| 0 <= i < init.len() implies init[i] == s[i] by {}
    }
}

/// A batched get: one single-path request per routed path, in input order.
pub struct GetBatch<S> {
    /// Calls not yet issued: shard index and path.
    pub pending: Vec<(usize, String)>,
    /// An RPC failed; nothing more is issued.
    pub failed: bool,
    /// The replies merged so far.
    pub response: GetResponse<S>,
}

impl<S> GetBatch<S> {
    /// The next call to make, or `None` once every call is made or one failed.
    pub fn next_request(&mut self) -> (r: Option<(usize, GetRequest)>)
        ensures
            old(self).failed || old(self).pending@.len() == 0 ==> r is None && *final(self)
                == *old(self),
            !old(self).failed && old(self).pending@.len() > 0 ==> {
                &&& r matches Some((shard, req))
                &&& shard == old(self).pending@[0].0
                &&& req.paths@.len() == 1
                &&& req.paths@[0] == old(self).pending@[0].1
                &&& final(self).pending@ == old(self).pending@.drop_first()
                &&& final(self).failed == old(self).failed
                &&& final(self).response == old(self).response
            },
    {
        if self.failed || self.pending.len() == 0 {
            return None;
        }
        let (shard, path) = self.pending.remove(0);
        let mut paths: Vec<String> = Vec::new();
        paths.push(path);
        Some((shard, GetRequest { paths }))
    }

    /// Takes the reply to the last call: appends its signals, or stops the batch
    /// and hands the RPC failure back.
    pub fn on_reply(&mut self, reply: Result<GetResponse<S>, tonic::Status>) -> (r: Result<
        (),
        ClientError,
    >)
        ensures
            final(self).pending == old(self).pending,
            final(self).response.success == old(self).response.success,
            final(self).response.error_message == old(self).response.error_message,
            match reply {
                Ok(resp) => {
                    &&& r is Ok
                    &&& final(self).failed == old(self).failed
                    &&& final(self).response.signals@ == old(self).response.signals@
                        + resp.signals@
                },
                Err(status) => {
                    &&& r == Err::<(), ClientError>(ClientError::TransportFailure(status))
                    &&& final(self).failed
                    &&& final(self).response.signals@ == old(self).response.signals@
                },
            },
    {
        match reply {
            Ok(resp) => {
                let mut signals = resp.signals;
                self.response.signals.append(&mut signals);
                Ok(())
            },
            Err(status) => {
                self.failed = true;
                Err(ClientError::TransportFailure(status))
            },
        }
    }

    /// The merged response.
    pub fn into_response(self) -> (r: GetResponse<S>)
        ensures
            r == self.response,
    {
        self.response
    }
}

/// Shard index, path and state of each pending single-signal set.
pub open spec fn set_call_view<T>(p: Seq<(usize, SetSignalRequest<T>)>) -> Seq<
    (int, Seq<char>, Option<T>),
> {
    p.map_values(|e: (usize, SetSignalRequest<T>)| (e.0 as int, e.1.path@, e.1.state))
}

/// A batched set: one single-signal request per routed signal, in input order,
/// each carrying the same lock token.
pub struct SetBatch<T, R> {
    /// Sets not yet issued: shard index and request entry.
    pub pending: Vec<(usize, SetSignalRequest<T>)>,
    /// The lock token that every request carries (empty without a lock).
    pub token: String,
    /// An RPC failed; nothing more is issued.
    pub failed: bool,
    /// The per-signal results merged so far.
    pub response: SetResponse<R>,
}

impl<T, R> SetBatch<T, R> {
    /// The next set to make, or `None` once every set is made or one failed.
    pub fn next_request(&mut self) -> (r: Option<(usize, SetRequest<T>)>)
        ensures
            old(self).failed || old(self).pending@.len() == 0 ==> r is None && *final(self)
                == *old(self),
            !old(self).failed && old(self).pending@.len() > 0 ==> {
                &&& r matches Some((shard, req))
                &&& shard == old(self).pending@[0].0
                &&& req.signals@ == seq![old(self).pending@[0].1]
                &&& req.token == old(self).token
                &&& final(self).pending@ == old(self).pending@.drop_first()
                &&& final(self).token == old(self).token
                &&& final(self).failed == old(self).failed
                &&& final(self).response == old(self).response
            },
    {
        if self.failed || self.pending.len() == 0 {
            return None;
        }
        let (shard, entry) = self.pending.remove(0);
        let mut signals: Vec<SetSignalRequest<T>> = Vec::new();
        signals.push(entry);
        assert(signals@ =~= seq![entry]);
        Some((shard, SetRequest { signals, token: self.token.clone() }))
    }

    /// Takes the reply to the last set: appends its results, or stops the batch
    /// and hands the RPC failure back. Results appended before a failure stay.
    pub fn on_reply(&mut self, reply: Result<SetResponse<R>, tonic::Status>) -> (r: Result<
        (),
        ClientError,
    >)
        ensures
            final(self).pending == old(self).pending,
            final(self).token == old(self).token,
            final(self).response.success == old(self).response.success,
            final(self).response.error_message == old(self).response.error_message,
            match reply {
                Ok(resp) => {
                    &&& r is Ok
                    &&& final(self).failed == old(self).failed
                    &&& final(self).response.results@ == old(self).response.results@
                        + resp.results@
                },
                Err(status) => {
                    &&& r == Err::<(), ClientError>(ClientError::TransportFailure(status))
                    &&& final(self).failed
                    &&& final(self).response.results@ == old(self).response.results@
                },
            },
    {
        match reply {
            Ok(resp) => {
                let mut results = resp.results;
                self.response.results.append(&mut results);
                Ok(())
            },
            Err(status) => {
                self.failed = true;
                Err(ClientError::TransportFailure(status))
            },
        }
    }

    /// The merged response, partial where the batch stopped at a failure.
    pub fn into_response(self) -> (r: SetResponse<R>)
        ensures
            r == self.response,
    {
        self.response
    }
}

/// An unlock broadcast: one request to every shard in registration order; the
/// outcome is the conjunction of the replies.
pub struct UnlockBatch {
    /// The token sent to every shard.
    pub token: String,
    /// Number of shards to ask.
    pub shards: usize,
    /// Number of requests handed out so far; the next goes to this shard.
    pub issued: usize,
    /// An RPC failed; nothing more is issued.
    pub failed: bool,
    /// Conjunction of the replies so far.
    pub success: bool,
    /// The success flags of the replies so far.
    pub replies: Ghost<Seq<bool>>,
}

impl UnlockBatch {
    pub open spec fn wf(&self) -> bool {
        &&& self.issued <= self.shards
        &&& self.success == all_true(self.replies@)
    }

    /// The next shard to ask and its request, or `None` once every shard was
    /// asked or one RPC failed.
    pub fn next_request(&mut self) -> (r: Option<(usize, UnlockRequest)>)
        requires
            old(self).wf(),
        ensures
            final(self).wf(),
            old(self).failed || old(self).issued == old(self).shards ==> r is None && *final(self)
                == *old(self),
            !old(self).failed && old(self).issued < old(self).shards ==> {
                &&& r matches Some((shard, req))
                &&& shard == old(self).issued
                &&& req.token == old(self).token
                &&& final(self).issued == old(self).issued + 1
                &&& final(self).token == old(self).token
                &&& final(self).shards == old(self).shards
                &&& final(self).failed == old(self).failed
                &&& final(self).success == old(self).success
                &&& final(self).replies == old(self).replies
            },
    {
        if self.failed || self.issued == self.shards {
            return None;
        }
        let shard = self.issued;
        self.issued = self.issued + 1;
        Some((shard, UnlockRequest { token: self.token.clone() }))
    }

    /// Takes one shard's reply: folds its success in, or stops the broadcast
    /// and hands the RPC failure back.
    pub fn on_reply(&mut self, reply: Result<UnlockResponse, tonic::Status>) -> (r: Result<
        (),
        ClientError,
    >)
        requires
            old(self).wf(),
        ensures
            final(self).wf(),
            final(self).token == old(self).token,
            final(self).shards == old(self).shards,
            final(self).issued == old(self).issued,
            match reply {
                Ok(resp) => {
                    &&& r is Ok
                    &&& final(self).failed == old(self).failed
                    &&& final(self).replies@ == old(self).replies@.push(resp.success)
                    &&& final(self).success == (old(self).success && resp.success)
                },
                Err(status) => {
                    &&& r == Err::<(), ClientError>(ClientError::TransportFailure(status))
                    &&& final(self).failed
                    &&& final(self).replies == old(self).replies
                    &&& final(self).success == old(self).success
                },
            },
    {
        match reply {
            Ok(resp) => {
                proof {
                    assert(self.replies@.push(resp.success).drop_last() =~= self.replies@);
                }
                self.success = self.success && resp.success;
                self.replies = Ghost(self.replies@.push(resp.success));
                Ok(())
            },
            Err(status) => {
                self.failed = true;
                Err(ClientError::TransportFailure(status))
            },
        }
    }

    /// The outcome: success exactly when every reply so far reported success.
    pub fn into_response(self) -> (r: UnlockResponse)
        requires
            self.wf(),
        ensures
            r.success == all_true(self.replies@),
            r.success <==> forall|i: int| 0 <= i < self.replies@.len() ==> #[trigger] self.replies@[i],
    {
        proof {
            lemma_all_true_iff(self.replies@);
        }
        UnlockResponse { success: self.success }
    }
}

} // verus!
