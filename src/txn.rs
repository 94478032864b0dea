//! Transactions as typestates.
//!
//! A fresh transaction ([`TxnType`]) can only be specialised: into a read-only
//! one ([`TxnReadOnlyType`]), which may further become best-effort
//! ([`TxnBestEffortType`]), or into a mutating one ([`TxnMutatedType`]). Each
//! transition consumes the handle it starts from. A mutating transaction ends
//! by `commit`, `discard` or a commit-now mutation, each of which consumes it.
//!
//! Every operation is split in two around its round trip: one method builds the
//! request to send, another folds the server's reply into the transaction
//! context. The transport that carries the request is the caller's.
use std::collections::HashMap;
use vstd::prelude::*;

use crate::api::txn_context::{empty_context, merged_context, start_ts_mismatch};
use crate::keys::lemma_sorted_union;
use crate::api::{Mutation, Request, RespFormat, Response, TxnContext, TxnContextView, UpsertMutation};
use crate::errors::{ClientError, DgraphError};

verus! {

/// The state every transaction carries: the stub that talks to the server and
/// the transaction context.
pub struct TxnState<C> {
    stub: C,
    context: TxnContext,
}

/// A transaction in the capability state `S`, talking through a stub `C`.
pub struct TxnVariant<S, C> {
    state: TxnState<C>,
    extra: S,
}

/// The state of a fresh transaction, which can neither query nor mutate.
pub struct Base {}

/// The state of a read-only transaction.
pub struct ReadOnly {
    base: Base,
}

/// The state of a read-only transaction whose reads may be served from a
/// cached timestamp.
pub struct BestEffort {
    read_only: ReadOnly,
}

/// The state of a transaction that can query and mutate; `mutated` records
/// whether a mutation was ever sent.
pub struct Mutated {
    base: Base,
    mutated: bool,
}

/// The state of a transaction whose last mutation commits it: it only awaits
/// that mutation's reply.
pub struct CommitNow {
    mutated: Mutated,
}

pub type TxnType<C> = TxnVariant<Base, C>;

pub type TxnReadOnlyType<C> = TxnVariant<ReadOnly, C>;

pub type TxnBestEffortType<C> = TxnVariant<BestEffort, C>;

pub type TxnMutatedType<C> = TxnVariant<Mutated, C>;

pub type TxnCommitNowType<C> = TxnVariant<CommitNow, C>;

/// The capability states that can query, and how they mark their requests.
pub trait IState: Sized {
    /// Requests of this state are marked read-only.
    spec fn marks_read_only() -> bool;

    /// Requests of this state are marked best-effort.
    spec fn marks_best_effort() -> bool;

    /// The read-only and best-effort marks of this state's requests.
    fn request_marks(&self) -> (r: (bool, bool))
        ensures
            r.0 == Self::marks_read_only(),
            r.1 == Self::marks_best_effort(),
    ;
}

impl IState for ReadOnly {
    open spec fn marks_read_only() -> bool {
        true
    }

    open spec fn marks_best_effort() -> bool {
        false
    }

    fn request_marks(&self) -> (r: (bool, bool)) {
        (true, false)
    }
}

impl IState for BestEffort {
    open spec fn marks_read_only() -> bool {
        true
    }

    open spec fn marks_best_effort() -> bool {
        true
    }

    fn request_marks(&self) -> (r: (bool, bool)) {
        let (read_only, _) = self.read_only.request_marks();
        (read_only, true)
    }
}

impl IState for Mutated {
    open spec fn marks_read_only() -> bool {
        false
    }

    open spec fn marks_best_effort() -> bool {
        false
    }

    fn request_marks(&self) -> (r: (bool, bool)) {
        (false, false)
    }
}

/// `r` is a query for `query` with variables `vars` at `start_ts`, carrying no
/// mutation and the given format and marks.
pub open spec fn is_query_request(
    r: Request,
    start_ts: u64,
    query: Seq<char>,
    vars: Map<String, String>,
    format: RespFormat,
    read_only: bool,
    best_effort: bool,
) -> bool {
    &&& r.start_ts == start_ts
    &&& r.query@ == query
    &&& r.vars@ == vars
    &&& r.read_only == read_only
    &&& r.best_effort == best_effort
    &&& r.mutations@.len() == 0
    &&& !r.commit_now
    &&& r.resp_format == format
}

/// `r` sends `mutations`, guarded by `query` with variables `vars`, at
/// `start_ts`, and asks for a commit with them when `commit_now` holds.
pub open spec fn is_mutation_request(
    r: Request,
    start_ts: u64,
    query: Seq<char>,
    vars: Map<String, String>,
    mutations: Seq<Mutation>,
    commit_now: bool,
) -> bool {
    &&& r.start_ts == start_ts
    &&& r.query@ == query
    &&& r.vars@ == vars
    &&& !r.read_only
    &&& !r.best_effort
    &&& r.mutations@ == mutations
    &&& r.commit_now == commit_now
    &&& r.resp_format == RespFormat::Json
}

/// The result of folding `reply` into a transaction whose context is `ctx`:
/// a failed call gives `GrpcError`, a reply without context gives `missing`,
/// a context of another transaction gives `StartTsMismatch`, and otherwise the
/// reply itself.
pub open spec fn reply_result(
    ctx: TxnContextView,
    reply: Result<Response, ClientError>,
    missing: DgraphError,
) -> Result<Response, DgraphError> {
    match reply {
        Err(e) => Err(DgraphError::GrpcError(e)),
        Ok(resp) => match resp.txn {
            None => Err(missing),
            Some(t) => if start_ts_mismatch(ctx, t@) {
                Err(DgraphError::StartTsMismatch)
            } else {
                Ok(resp)
            },
        },
    }
}

/// The context after folding `reply` into `ctx`: merged with the reply's
/// context when there is one that fits, unchanged otherwise.
pub open spec fn reply_context(ctx: TxnContextView, reply: Result<Response, ClientError>) -> TxnContextView {
    match reply {
        Ok(resp) => match resp.txn {
            Some(t) => match merged_context(ctx, t@) {
                Some(v) => v,
                None => ctx,
            },
            None => ctx,
        },
        Err(_) => ctx,
    }
}

/// What `commit` sends: the context, when the transaction has mutated.
pub open spec fn commit_message(has_mutated: bool, ctx: TxnContextView) -> Option<TxnContextView> {
    if has_mutated {
        Some(ctx)
    } else {
        None
    }
}

/// What `discard` sends: the context marked aborted, when the transaction has
/// mutated.
pub open spec fn discard_message(has_mutated: bool, ctx: TxnContextView) -> Option<TxnContextView> {
    if has_mutated {
        Some(TxnContextView { aborted: true, ..ctx })
    } else {
        None
    }
}

impl<C> TxnState<C> {
    fn apply_reply(&mut self, reply: Result<Response, ClientError>, missing: DgraphError) -> (r:
        Result<Response, DgraphError>)
        ensures
            r == reply_result(old(self).context@, reply, missing),
            final(self).context@ == reply_context(old(self).context@, reply),
            final(self).stub == old(self).stub,
    {
        match reply {
            Err(e) => Err(DgraphError::GrpcError(e)),
            Ok(resp) => {
                let merged = match &resp.txn {
                    Some(t) => self.context.merge_context(t),
                    None => {
                        return Err(missing);
                    },
                };
                match merged {
                    Ok(()) => Ok(resp),
                    Err(e) => Err(e),
                }
            },
        }
    }
}

impl<S, C> TxnVariant<S, C> {
    /// The transaction context.
    pub closed spec fn context(&self) -> TxnContextView {
        self.state.context@
    }

    /// The stub the transaction talks through.
    pub closed spec fn held_stub(&self) -> C {
        self.state.stub
    }

    /// The capability state.
    pub closed spec fn marker(&self) -> S {
        self.extra
    }

    /// The stub the transaction talks through.
    pub fn stub(&self) -> (r: &C)
        ensures
            *r == self.held_stub(),
    {
        &self.state.stub
    }

    /// The transaction context.
    pub fn txn_context(&self) -> (r: &TxnContext)
        ensures
            r@ == self.context(),
    {
        &self.state.context
    }
}

impl<C> TxnVariant<Base, C> {
    /// A fresh transaction talking through `stub`, with an empty context.
    pub fn new(stub: C) -> (r: TxnType<C>)
        ensures
            r.context() == empty_context(),
            r.held_stub() == stub,
    {
        TxnVariant { state: TxnState { stub, context: TxnContext::new() }, extra: Base {  } }
    }

    /// This transaction, made read-only.
    pub fn read_only(self) -> (r: TxnReadOnlyType<C>)
        ensures
            r.context() == self.context(),
            r.held_stub() == self.held_stub(),
    {
        TxnVariant { state: self.state, extra: ReadOnly { base: self.extra } }
    }

    /// This transaction, made able to mutate; it has not mutated yet.
    pub fn mutated(self) -> (r: TxnMutatedType<C>)
        ensures
            r.context() == self.context(),
            r.held_stub() == self.held_stub(),
            !r.has_mutated(),
    {
        TxnVariant { state: self.state, extra: Mutated { base: self.extra, mutated: false } }
    }
}

impl<C> TxnVariant<ReadOnly, C> {
    /// This read-only transaction, made best-effort.
    pub fn best_effort(self) -> (r: TxnBestEffortType<C>)
        ensures
            r.context() == self.context(),
            r.held_stub() == self.held_stub(),
    {
        TxnVariant { state: self.state, extra: BestEffort { read_only: self.extra } }
    }
}

impl<S: IState, C> TxnVariant<S, C> {
    fn shaped_query(&self, query: String, vars: HashMap<String, String>, format: RespFormat) -> (r:
        Request)
        ensures
            is_query_request(
                r,
                self.context().start_ts,
                query@,
                vars@,
                format,
                S::marks_read_only(),
                S::marks_best_effort(),
            ),
    {
        let (read_only, best_effort) = self.extra.request_marks();
        Request {
            start_ts: self.state.context.start_ts,
            query,
            vars,
            read_only,
            best_effort,
            mutations: Vec::new(),
            commit_now: false,
            resp_format: format,
        }
    }

    /// The request that runs `query` in this transaction.
    pub fn query_request(&self, query: String) -> (r: Request)
        ensures
            is_query_request(
                r,
                self.context().start_ts,
                query@,
                Map::empty(),
                RespFormat::Json,
                S::marks_read_only(),
                S::marks_best_effort(),
            ),
    {
        self.shaped_query(query, HashMap::new(), RespFormat::Json)
    }

    /// The request that runs `query` with the variables `vars` in this
    /// transaction.
    pub fn query_with_vars_request(&self, query: String, vars: HashMap<String, String>) -> (r:
        Request)
        ensures
            is_query_request(
                r,
                self.context().start_ts,
                query@,
                vars@,
                RespFormat::Json,
                S::marks_read_only(),
                S::marks_best_effort(),
            ),
    {
        self.shaped_query(query, vars, RespFormat::Json)
    }

    /// The request that runs `query` in this transaction, asking for RDF.
    pub fn query_rdf_request(&self, query: String) -> (r: Request)
        ensures
            is_query_request(
                r,
                self.context().start_ts,
                query@,
                Map::empty(),
                RespFormat::Rdf,
                S::marks_read_only(),
                S::marks_best_effort(),
            ),
    {
        self.shaped_query(query, HashMap::new(), RespFormat::Rdf)
    }

    /// The request that runs `query` with the variables `vars` in this
    /// transaction, asking for RDF.
    pub fn query_rdf_with_vars_request(&self, query: String, vars: HashMap<String, String>) -> (r:
        Request)
        ensures
            is_query_request(
                r,
                self.context().start_ts,
                query@,
                vars@,
                RespFormat::Rdf,
                S::marks_read_only(),
                S::marks_best_effort(),
            ),
    {
        self.shaped_query(query, vars, RespFormat::Rdf)
    }

    /// Folds the reply to a query into this transaction: the reply's context is
    /// merged into the transaction's, and a reply without one fails with
    /// `EmptyTxn`.
    pub fn apply_query_reply(&mut self, reply: Result<Response, ClientError>) -> (r: Result<
        Response,
        DgraphError,
    >)
        ensures
            r == reply_result(old(self).context(), reply, DgraphError::EmptyTxn),
            final(self).context() == reply_context(old(self).context(), reply),
            final(self).held_stub() == old(self).held_stub(),
            final(self).marker() == old(self).marker(),
    {
        self.state.apply_reply(reply, DgraphError::EmptyTxn)
    }
}

impl<C> TxnVariant<Mutated, C> {
    /// A mutation was sent in this transaction.
    pub closed spec fn has_mutated(&self) -> bool {
        self.extra.mutated
    }

    fn mutation_request(
        &mut self,
        query: String,
        vars: HashMap<String, String>,
        mutations: Vec<Mutation>,
        commit_now: bool,
    ) -> (r: Request)
        ensures
            is_mutation_request(
                r,
                old(self).context().start_ts,
                query@,
                vars@,
                mutations@,
                commit_now,
            ),
            final(self).has_mutated(),
            final(self).context() == old(self).context(),
            final(self).held_stub() == old(self).held_stub(),
    {
        self.extra.mutated = true;
        Request {
            start_ts: self.state.context.start_ts,
            query,
            vars,
            read_only: false,
            best_effort: false,
            mutations,
            commit_now,
            resp_format: RespFormat::Json,
        }
    }

    /// The request that applies `mu` in this transaction. From now on the
    /// transaction has mutated, so `commit` and `discard` reach the server.
    pub fn mutate_request(&mut self, mu: Mutation) -> (r: Request)
        ensures
            is_mutation_request(
                r,
                old(self).context().start_ts,
                Seq::empty(),
                Map::empty(),
                seq![mu],
                false,
            ),
            final(self).has_mutated(),
            final(self).context() == old(self).context(),
            final(self).held_stub() == old(self).held_stub(),
    {
        let r = self.mutation_request(String::new(), HashMap::new(), vec![mu], false);
        assert(r.mutations@ =~= seq![mu]);
        r
    }

    /// The request that runs `query` and applies the mutations of `mu`, whose
    /// conditions may refer to the query's variables.
    pub fn upsert_request(&mut self, query: String, mu: UpsertMutation) -> (r: Request)
        ensures
            is_mutation_request(
                r,
                old(self).context().start_ts,
                query@,
                Map::empty(),
                mu.mu@,
                false,
            ),
            final(self).has_mutated(),
            final(self).context() == old(self).context(),
            final(self).held_stub() == old(self).held_stub(),
    {
        self.mutation_request(query, HashMap::new(), mu.mu, false)
    }

    /// The request that runs `query` with the variables `vars` and applies the
    /// mutations of `mu`.
    pub fn upsert_with_vars_request(
        &mut self,
        query: String,
        vars: HashMap<String, String>,
        mu: UpsertMutation,
    ) -> (r: Request)
        ensures
            is_mutation_request(r, old(self).context().start_ts, query@, vars@, mu.mu@, false),
            final(self).has_mutated(),
            final(self).context() == old(self).context(),
            final(self).held_stub() == old(self).held_stub(),
    {
        self.mutation_request(query, vars, mu.mu, false)
    }

    fn into_commit_now(self) -> (r: TxnCommitNowType<C>)
        ensures
            r.context() == self.context(),
            r.held_stub() == self.held_stub(),
    {
        TxnVariant { state: self.state, extra: CommitNow { mutated: self.extra } }
    }

    /// Consumes the transaction into the request that applies `mu` and commits,
    /// and the handle that awaits the reply.
    pub fn mutate_and_commit_now(self, mu: Mutation) -> (r: (TxnCommitNowType<C>, Request))
        ensures
            is_mutation_request(
                r.1,
                self.context().start_ts,
                Seq::empty(),
                Map::empty(),
                seq![mu],
                true,
            ),
            r.0.context() == self.context(),
            r.0.held_stub() == self.held_stub(),
    {
        let mut txn = self;
        let request = txn.mutation_request(String::new(), HashMap::new(), vec![mu], true);
        assert(request.mutations@ =~= seq![mu]);
        (txn.into_commit_now(), request)
    }

    /// Consumes the transaction into the request that runs `query`, applies
    /// the mutations of `mu` and commits, and the handle that awaits the reply.
    pub fn upsert_and_commit_now(self, query: String, mu: UpsertMutation) -> (r: (
        TxnCommitNowType<C>,
        Request,
    ))
        ensures
            is_mutation_request(r.1, self.context().start_ts, query@, Map::empty(), mu.mu@, true),
            r.0.context() == self.context(),
            r.0.held_stub() == self.held_stub(),
    {
        let mut txn = self;
        let request = txn.mutation_request(query, HashMap::new(), mu.mu, true);
        (txn.into_commit_now(), request)
    }

    /// Consumes the transaction into the request that runs `query` with the
    /// variables `vars`, applies the mutations of `mu` and commits, and the
    /// handle that awaits the reply.
    pub fn upsert_with_vars_and_commit_now(
        self,
        query: String,
        vars: HashMap<String, String>,
        mu: UpsertMutation,
    ) -> (r: (TxnCommitNowType<C>, Request))
        ensures
            is_mutation_request(r.1, self.context().start_ts, query@, vars@, mu.mu@, true),
            r.0.context() == self.context(),
            r.0.held_stub() == self.held_stub(),
    {
        let mut txn = self;
        let request = txn.mutation_request(query, vars, mu.mu, true);
        (txn.into_commit_now(), request)
    }

    /// Folds the reply to a mutation or an upsert into this transaction: the
    /// reply's context is merged into the transaction's, and a reply without
    /// one fails with `MissingTxnContext`.
    pub fn apply_mutation_reply(&mut self, reply: Result<Response, ClientError>) -> (r: Result<
        Response,
        DgraphError,
    >)
        ensures
            r == reply_result(old(self).context(), reply, DgraphError::MissingTxnContext),
            final(self).context() == reply_context(old(self).context(), reply),
            final(self).held_stub() == old(self).held_stub(),
            final(self).has_mutated() == old(self).has_mutated(),
    {
        self.state.apply_reply(reply, DgraphError::MissingTxnContext)
    }

    /// Consumes the transaction into what committing it sends: the stub and
    /// the context, when a mutation was sent; nothing otherwise, as there is
    /// nothing to commit.
    pub fn commit(self) -> (r: Option<(C, TxnContext)>)
        ensures
            match r {
                Some(m) => commit_message(self.has_mutated(), self.context()) == Some(m.1@) && m.0
                    == self.held_stub(),
                None => commit_message(self.has_mutated(), self.context()) is None,
            },
    {
        if !self.extra.mutated {
            return None;
        }
        Some((self.state.stub, self.state.context))
    }

    /// Consumes the transaction into what discarding it sends: the stub and
    /// the context marked aborted, when a mutation was sent; nothing
    /// otherwise, as there is nothing to abort.
    pub fn discard(self) -> (r: Option<(C, TxnContext)>)
        ensures
            match r {
                Some(m) => discard_message(self.has_mutated(), self.context()) == Some(m.1@) && m.0
                    == self.held_stub(),
                None => discard_message(self.has_mutated(), self.context()) is None,
            },
    {
        let mut state = self.state;
        state.context.aborted = true;
        if !self.extra.mutated {
            return None;
        }
        Some((state.stub, state.context))
    }
}

impl<C> TxnVariant<CommitNow, C> {
    /// Folds the reply to a committing mutation into the transaction, which
    /// ends here: a reply without context fails with `MissingTxnContext`.
    pub fn apply_mutation_reply(self, reply: Result<Response, ClientError>) -> (r: Result<
        Response,
        DgraphError,
    >)
        ensures
            r == reply_result(self.context(), reply, DgraphError::MissingTxnContext),
    {
        let mut state = self.state;
        state.apply_reply(reply, DgraphError::MissingTxnContext)
    }
}

/// The outcome of a commit or an abort from the server's reply.
pub fn commit_reply(reply: Result<TxnContext, ClientError>) -> (r: Result<(), DgraphError>)
    ensures
        match reply {
            Ok(_) => r is Ok,
            Err(e) => r == Err::<(), DgraphError>(DgraphError::GrpcError(e)),
        },
{
    match reply {
        Ok(_) => Ok(()),
        Err(e) => Err(DgraphError::GrpcError(e)),
    }
}

/// A mutating transaction whose context is `ctx` sends two mutations; each
/// reply carries a context with the start timestamp the request had. Both
/// replies are accepted, and the commit that follows sends one context whose
/// keys and predicates are those of `ctx` and of both replies, without
/// duplicates.
pub proof fn lemma_mutate_twice_then_commit(ctx: TxnContextView, reply1: Response, reply2: Response)
    requires
        reply1.txn is Some,
        reply2.txn is Some,
        reply1.txn->0.start_ts == ctx.start_ts,
        reply2.txn->0.start_ts == ctx.start_ts,
    ensures
        reply_result(ctx, Ok(reply1), DgraphError::MissingTxnContext) == Ok::<
            Response,
            DgraphError,
        >(reply1),
        reply_result(
            reply_context(ctx, Ok(reply1)),
            Ok(reply2),
            DgraphError::MissingTxnContext,
        ) == Ok::<Response, DgraphError>(reply2),
        ({
            let last = reply_context(reply_context(ctx, Ok(reply1)), Ok(reply2));
            &&& commit_message(true, last) == Some(last)
            &&& last.start_ts == ctx.start_ts
            &&& last.keys.to_set() == ctx.keys.to_set() + reply1.txn->0@.keys.to_set()
                + reply2.txn->0@.keys.to_set()
            &&& last.preds.to_set() == ctx.preds.to_set() + reply1.txn->0@.preds.to_set()
                + reply2.txn->0@.preds.to_set()
            &&& last.keys.no_duplicates()
            &&& last.preds.no_duplicates()
        }),
{
    let t1 = reply1.txn->0@;
    let t2 = reply2.txn->0@;
    let c1 = reply_context(ctx, Ok(reply1));
    assert(c1 == merged_context(ctx, t1)->0);
    lemma_sorted_union(ctx.keys, t1.keys);
    lemma_sorted_union(ctx.preds, t1.preds);
    let c2 = reply_context(c1, Ok(reply2));
    assert(c2 == merged_context(c1, t2)->0);
    lemma_sorted_union(c1.keys, t2.keys);
    lemma_sorted_union(c1.preds, t2.preds);
}

} // verus!
