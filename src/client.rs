//! The client: an append-only, ordered registry of shards, each bound to a
//! path prefix, and the routing of every call through it.
use vstd::prelude::*;
use crate::batch::{call_view, set_call_view, GetBatch, SetBatch, UnlockBatch};
use crate::error::ClientError;
use crate::messages::{
    GetResponse, LockRequest, SetResponse, SetSignalRequest, SubscribeRequest, UnsubscribeResponse,
};
use crate::routing::{has_prefix, is_prefix_of, lemma_first_match_wins, lemma_resolve_none_iff, resolve_in, routes, set_routes};

verus! {

/// The views of a list of paths.
pub open spec fn paths_view(paths: Seq<String>) -> Seq<Seq<char>> {
    paths.map_values(|p: String| p@)
}

/// A client of a sharded signal service. `C` is the connection to one shard.
pub struct VehicleShadowClient<C> {
    clients: Vec<(String, C)>,
}

impl<C> View for VehicleShadowClient<C> {
    type V = Seq<(Seq<char>, C)>;

    /// The bindings in registration order: prefix and connection.
    closed spec fn view(&self) -> Seq<(Seq<char>, C)> {
        self.clients@.map_values(|b: (String, C)| (b.0@, b.1))
    }
}

impl<C> VehicleShadowClient<C> {
    /// The registered prefixes in registration order.
    pub open spec fn prefixes(&self) -> Seq<Seq<char>> {
        self@.map_values(|b: (Seq<char>, C)| b.0)
    }

    /// A client with no shard bound.
    pub fn create() -> (r: Result<Self, ClientError>)
        ensures
            r matches Ok(c) && c@.len() == 0,
    {
        let c = VehicleShadowClient { clients: Vec::new() };
        assert(c@ =~= Seq::empty());
        Ok(c)
    }

    /// Binds one more shard, reached through `connection`, to the paths that
    /// start with `path`. Earlier bindings stay and keep precedence.
    pub fn connect(&mut self, path: String, connection: C)
        ensures
            final(self)@ == old(self)@.push((path@, connection)),
    {
        self.clients.push((path, connection));
        assert(final(self)@ =~= old(self)@.push((path@, connection)));
    }

    /// Number of bound shards.
    pub fn shard_count(&self) -> (r: usize)
        ensures
            r == self@.len(),
    {
        self.clients.len()
    }

    /// The connection of shard `shard`.
    pub fn connection(&self, shard: usize) -> (r: &C)
        requires
            shard < self@.len(),
        ensures
            *r == self@[shard as int].1,
    {
        &self.clients[shard].1
    }

    /// The shard that owns `path`: the first binding whose prefix is a string
    /// prefix of it.
    pub fn get_target_client(&self, path: &String) -> (r: Option<usize>)
        ensures
            match r {
                Some(i) => resolve_in(self.prefixes(), path@) == Some(i as int),
                None => resolve_in(self.prefixes(), path@) is None,
            },
    {
        let mut i: usize = 0;
        while i < self.clients.len()
            invariant
                i <= self@.len(),
                self.prefixes().len() == self@.len(),
                forall|j: int| 0 <= j < i ==> !is_prefix_of(#[trigger] self.prefixes()[j], path@),
            decreases self.clients.len() - i,
        {
            if has_prefix(path.as_str(), self.clients[i].0.as_str()) {
                proof {
                    lemma_first_match_wins(self.prefixes(), path@, i as int);
                }
                return Some(i);
            }
            i = i + 1;
        }
        proof {
            lemma_resolve_none_iff(self.prefixes(), path@);
        }
        None
    }

    /// Starts a batched get: every path that resolves gets one call to its
    /// shard, in input order; paths that resolve to no shard are left out
    /// without an error.
    pub fn get_signals<S>(&self, paths: Vec<String>) -> (r: GetBatch<S>)
        ensures
            call_view(r.pending@) == routes(self.prefixes(), paths_view(paths@)),
            !r.failed,
            r.response.signals@.len() == 0,
            r.response.success,
            r.response.error_message@.len() == 0,
    {
        let mut pending: Vec<(usize, String)> = Vec::new();
        let mut i: usize = 0;
        while i < paths.len()
            invariant
                i <= paths@.len(),
                call_view(pending@) == routes(self.prefixes(), paths_view(paths@).take(i as int)),
            decreases paths.len() - i,
        {
            let ghost before = pending@;
            let ghost pv = paths_view(paths@);
            assert(pv.take(i + 1).drop_last() =~= pv.take(i as int));
            match self.get_target_client(&paths[i]) {
                Some(shard) => {
                    pending.push((shard, paths[i].clone()));
                    assert(call_view(pending@) =~= call_view(before).push((shard as int, pv[i as int])));
                },
                None => {},
            }
            i = i + 1;
        }
        assert(paths_view(paths@).take(i as int) =~= paths_view(paths@));
        GetBatch {
            pending,
            failed: false,
            response: GetResponse { signals: Vec::new(), success: true, error_message: String::new() },
        }
    }

    /// Starts a batched set: every signal whose path resolves gets one set to
    /// its shard, in input order, carrying `token`; signals whose path
    /// resolves to no shard are left out without an error.
    pub fn set_signals<T, R>(&self, signals: Vec<(String, T)>, token: String) -> (r: SetBatch<
        T,
        R,
    >)
        ensures
            set_call_view(r.pending@) == set_routes(self.prefixes(), signals@),
            r.token == token,
            !r.failed,
            r.response.results@.len() == 0,
            r.response.success,
            r.response.error_message@.len() == 0,
    {
        let ghost all = signals@;
        let mut rest = signals;
        let mut pending: Vec<(usize, SetSignalRequest<T>)> = Vec::new();
        let ghost mut done: int = 0;
        while rest.len() > 0
            invariant
                0 <= done <= all.len(),
                rest@ == all.skip(done),
                set_call_view(pending@) == set_routes(self.prefixes(), all.take(done)),
            decreases rest.len(),
        {
            let ghost before = pending@;
            assert(all.take(done + 1).drop_last() =~= all.take(done));
            assert(all.take(done + 1).last() == rest@[0]);
            let (path, state) = rest.remove(0);
            match self.get_target_client(&path) {
                Some(shard) => {
                    let ghost p = path@;
                    pending.push((shard, SetSignalRequest { path, state: Some(state) }));
                    assert(set_call_view(pending@) =~= set_call_view(before).push(
                        (shard as int, p, Some(state)),
                    ));
                },
                None => {},
            }
            proof {
                done = done + 1;
                assert(rest@ =~= all.skip(done));
            }
        }
        assert(all.take(done) =~= all);
        SetBatch {
            pending,
            token,
            failed: false,
            response: SetResponse { results: Vec::new(), success: true, error_message: String::new() },
        }
    }

    /// Routes a subscription to the one shard that owns `path`, or fails with
    /// `NotFound` where no binding matches it.
    pub fn subscribe(&self, path: String) -> (r: Result<(usize, SubscribeRequest), ClientError>)
        ensures
            match resolve_in(self.prefixes(), path@) {
                Some(i) => r matches Ok((shard, req)) && shard == i && req.paths@ == seq![path],
                None => r == Err::<(usize, SubscribeRequest), ClientError>(
                    ClientError::NotFound(path),
                ),
            },
            r is Err <==> forall|j: int|
                0 <= j < self@.len() ==> !is_prefix_of(#[trigger] self.prefixes()[j], path@),
    {
        proof {
            lemma_resolve_none_iff(self.prefixes(), path@);
        }
        match self.get_target_client(&path) {
            Some(shard) => {
                let ghost p = path;
                let mut paths: Vec<String> = Vec::new();
                paths.push(path);
                assert(paths@ =~= seq![p]);
                Ok((shard, SubscribeRequest { paths }))
            },
            None => Err(ClientError::NotFound(path)),
        }
    }

    /// Cancelling a subscription is not provided: always `NotImplemented`.
    pub fn unsubscribe(&self, paths: Vec<String>) -> (r: Result<UnsubscribeResponse, ClientError>)
        ensures
            r == Err::<UnsubscribeResponse, ClientError>(ClientError::NotImplemented),
    {
        Err(ClientError::NotImplemented)
    }

    /// Routes a lock of `paths` to the shard of the first path alone, with the
    /// whole list; paths of other shards are not locked separately.
    pub fn lock(&self, paths: Vec<String>) -> (r: Result<(usize, LockRequest), ClientError>)
        ensures
            paths@.len() == 0 ==> r == Err::<(usize, LockRequest), ClientError>(
                ClientError::InvalidInput,
            ),
            paths@.len() > 0 ==> match resolve_in(self.prefixes(), paths@[0]@) {
                Some(i) => r matches Ok((shard, req)) && shard == i && req.paths == paths,
                None => r == Err::<(usize, LockRequest), ClientError>(
                    ClientError::NotFound(paths@[0]),
                ),
            },
    {
        if paths.len() == 0 {
            return Err(ClientError::InvalidInput);
        }
        match self.get_target_client(&paths[0]) {
            Some(shard) => Ok((shard, LockRequest { paths })),
            None => Err(ClientError::NotFound(paths[0].clone())),
        }
    }

    /// Starts an unlock broadcast of `token` to every bound shard.
    pub fn unlock(&self, token: String) -> (r: UnlockBatch)
        ensures
            r.wf(),
            r.token == token,
            r.shards == self@.len(),
            r.issued == 0,
            !r.failed,
            r.replies@.len() == 0,
    {
        UnlockBatch {
            token,
            shards: self.clients.len(),
            issued: 0,
            failed: false,
            success: true,
            replies: Ghost(Seq::empty()),
        }
    }
}

} // verus!
