use std::cell::RefCell;
use std::collections::HashMap;
use std::rc::Rc;

use dgraph_tonic::api::{Mutation, Request, RespFormat, Response, UpsertMutation};
use dgraph_tonic::stub::{rpc_result, RpcKind};
use dgraph_tonic::txn::{commit_reply, TxnMutatedType, TxnType};
use dgraph_tonic::{ClientError, DgraphError, TxnContext};

#[derive(Default)]
struct Calls {
    queries: usize,
    mutations: usize,
    commits: usize,
    replies: Vec<Vec<String>>,
    committed: Vec<TxnContext>,
}

/// A stub that answers every request with a context carrying the start
/// timestamp it received, and counts the calls made through it.
#[derive(Clone, Default)]
struct MockStub {
    calls: Rc<RefCell<Calls>>,
}

impl MockStub {
    fn with_replies(replies: Vec<Vec<&str>>) -> Self {
        let stub = MockStub::default();
        stub.calls.borrow_mut().replies = replies
            .into_iter()
            .rev()
            .map(|keys| keys.into_iter().map(|k| k.to_string()).collect())
            .collect();
        stub
    }

    fn reply(&self, req: &Request) -> Result<Response, ClientError> {
        let mut calls = self.calls.borrow_mut();
        if req.mutations.is_empty() {
            calls.queries += 1;
        } else {
            calls.mutations += 1;
        }
        let keys = calls.replies.pop().unwrap_or_default();
        Ok(response(Some(TxnContext {
            start_ts: req.start_ts,
            commit_ts: 0,
            aborted: false,
            keys,
            preds: vec![],
        })))
    }

    fn commit_or_abort(&self, txn: TxnContext) -> Result<TxnContext, ClientError> {
        let mut calls = self.calls.borrow_mut();
        calls.commits += 1;
        calls.committed.push(TxnContext {
            start_ts: txn.start_ts,
            commit_ts: txn.commit_ts,
            aborted: txn.aborted,
            keys: txn.keys.clone(),
            preds: txn.preds.clone(),
        });
        Ok(txn)
    }
}

fn response(txn: Option<TxnContext>) -> Response {
    Response {
        json: b"{}".to_vec(),
        txn,
        latency: None,
        uids: HashMap::new(),
        rdf: vec![],
    }
}

fn context(start_ts: u64, keys: &[&str]) -> TxnContext {
    TxnContext {
        start_ts,
        commit_ts: 0,
        aborted: false,
        keys: keys.iter().map(|k| k.to_string()).collect(),
        preds: vec![],
    }
}

fn mutate(txn: &mut TxnMutatedType<MockStub>, mu: Mutation) -> Result<Response, DgraphError> {
    let request = txn.mutate_request(mu);
    let reply = txn.stub().reply(&request);
    txn.apply_mutation_reply(reply)
}

fn commit(txn: TxnMutatedType<MockStub>) -> Result<(), DgraphError> {
    match txn.commit() {
        None => Ok(()),
        Some((stub, context)) => commit_reply(stub.commit_or_abort(context)),
    }
}

fn discard(txn: TxnMutatedType<MockStub>) -> Result<(), DgraphError> {
    match txn.discard() {
        None => Ok(()),
        Some((stub, context)) => commit_reply(stub.commit_or_abort(context)),
    }
}

fn status() -> tonic::Status {
    tonic::Status::new(tonic::Code::Unavailable, "server down")
}

#[test]
fn commit_without_mutation_sends_nothing() {
    let stub = MockStub::default();
    let txn = TxnType::new(stub.clone()).mutated();
    assert!(commit(txn).is_ok());
    assert_eq!(stub.calls.borrow().commits, 0);
}

#[test]
fn discard_without_mutation_sends_nothing() {
    let stub = MockStub::default();
    let txn = TxnType::new(stub.clone()).mutated();
    assert!(discard(txn).is_ok());
    assert_eq!(stub.calls.borrow().commits, 0);
}

#[test]
fn query_does_not_arm_commit() {
    let stub = MockStub::default();
    let mut txn = TxnType::new(stub.clone()).mutated();
    let request = txn.query_request("{ q(func: uid(0x1)) { uid } }".to_string());
    let reply = txn.stub().reply(&request);
    assert!(txn.apply_query_reply(reply).is_ok());
    assert!(commit(txn).is_ok());
    assert_eq!(stub.calls.borrow().queries, 1);
    assert_eq!(stub.calls.borrow().commits, 0);
}

#[test]
fn mutate_twice_then_commit() {
    let stub = MockStub::with_replies(vec![vec!["k2", "k1"], vec!["k3", "k1"]]);
    let mut txn = TxnType::new(stub.clone()).mutated();
    assert!(mutate(&mut txn, Mutation::new()).is_ok());
    assert!(mutate(&mut txn, Mutation::new()).is_ok());
    assert_eq!(
        txn.txn_context().keys,
        vec!["k1".to_string(), "k2".to_string(), "k3".to_string()]
    );
    assert!(commit(txn).is_ok());
    let calls = stub.calls.borrow();
    assert_eq!(calls.mutations, 2);
    assert_eq!(calls.commits, 1);
    assert_eq!(
        calls.committed[0].keys,
        vec!["k1".to_string(), "k2".to_string(), "k3".to_string()]
    );
    assert!(!calls.committed[0].aborted);
}

#[test]
fn discard_after_mutation_aborts() {
    let stub = MockStub::with_replies(vec![vec!["k"]]);
    let mut txn = TxnType::new(stub.clone()).mutated();
    assert!(mutate(&mut txn, Mutation::new()).is_ok());
    assert!(discard(txn).is_ok());
    let calls = stub.calls.borrow();
    assert_eq!(calls.commits, 1);
    assert!(calls.committed[0].aborted);
    assert_eq!(calls.committed[0].keys, vec!["k".to_string()]);
}

#[test]
fn read_only_query_request_shape() {
    let mut txn = TxnType::new(()).read_only();
    let ctx = context(17, &[]);
    assert!(txn.apply_query_reply(Ok(response(Some(ctx)))).is_ok());
    let request = txn.query_request("{ me(func: uid(0x1)) { uid } }".to_string());
    assert!(request.read_only);
    assert!(!request.best_effort);
    assert_eq!(request.start_ts, 17);
    assert_eq!(request.query, "{ me(func: uid(0x1)) { uid } }");
    assert!(request.vars.is_empty());
    assert!(request.mutations.is_empty());
    assert!(!request.commit_now);
    assert_eq!(request.resp_format, RespFormat::Json);
}

#[test]
fn best_effort_query_request_shape() {
    let txn = TxnType::new(()).read_only().best_effort();
    let request = txn.query_request("{ q() }".to_string());
    assert!(request.read_only);
    assert!(request.best_effort);
    assert_eq!(request.start_ts, 0);
}

#[test]
fn mutated_query_request_shape() {
    let txn = TxnType::new(()).mutated();
    let mut vars = HashMap::new();
    vars.insert("$a".to_string(), "Alice".to_string());
    let request = txn.query_with_vars_request("query q($a: string) { q() }".to_string(), vars);
    assert!(!request.read_only);
    assert!(!request.best_effort);
    assert_eq!(request.vars.get("$a"), Some(&"Alice".to_string()));
}

#[test]
fn rdf_query_request_shape() {
    let txn = TxnType::new(()).read_only();
    let request = txn.query_rdf_request("{ q() }".to_string());
    assert_eq!(request.resp_format, RespFormat::Rdf);
    assert!(request.read_only);
}

#[test]
fn query_reply_without_context_is_empty_txn() {
    let mut txn = TxnType::new(()).read_only();
    let r = txn.apply_query_reply(Ok(response(None)));
    assert!(matches!(r, Err(DgraphError::EmptyTxn)));
}

#[test]
fn mutation_reply_without_context_is_missing_context() {
    let mut txn = TxnType::new(()).mutated();
    let _request = txn.mutate_request(Mutation::new());
    let r = txn.apply_mutation_reply(Ok(response(None)));
    assert!(matches!(r, Err(DgraphError::MissingTxnContext)));
}

#[test]
fn failed_query_is_grpc_error() {
    let mut txn = TxnType::new(()).read_only();
    let reply = rpc_result(RpcKind::Query, Err::<Response, _>(status()));
    let r = txn.apply_query_reply(reply);
    assert!(matches!(
        r,
        Err(DgraphError::GrpcError(ClientError::CannotQuery(_)))
    ));
    assert_eq!(txn.txn_context().start_ts, 0);
}

#[test]
fn query_reply_of_other_transaction_is_mismatch() {
    let mut txn = TxnType::new(()).read_only();
    assert!(txn.apply_query_reply(Ok(response(Some(context(5, &["a"]))))).is_ok());
    let r = txn.apply_query_reply(Ok(response(Some(context(6, &["b"])))));
    assert!(matches!(r, Err(DgraphError::StartTsMismatch)));
    assert_eq!(txn.txn_context().start_ts, 5);
    assert_eq!(txn.txn_context().keys, vec!["a".to_string()]);
}

#[test]
fn mutate_request_shape() {
    let mut txn = TxnType::new(()).mutated();
    assert!(txn.apply_query_reply(Ok(response(Some(context(8, &[]))))).is_ok());
    let mut mu = Mutation::new();
    mu.set_set_nquads("_:alice <name> \"Alice\" .".to_string());
    let request = txn.mutate_request(mu);
    assert_eq!(request.start_ts, 8);
    assert_eq!(request.query, "");
    assert!(!request.commit_now);
    assert!(!request.read_only);
    assert_eq!(request.mutations.len(), 1);
    assert_eq!(
        request.mutations[0].set_nquads,
        b"_:alice <name> \"Alice\" .".to_vec()
    );
}

#[test]
fn upsert_request_shape() {
    let mut txn = TxnType::new(()).mutated();
    let mut mu1 = Mutation::new();
    mu1.set_cond("@if(eq(len(user), 1))".to_string());
    let mut mu2 = Mutation::new();
    mu2.set_set_nquads("uid(user) <email> \"correct_email@dgraph.io\" .".to_string());
    let query = "{ user as var(func: eq(email, \"wrong_email@dgraph.io\")) }".to_string();
    let request = txn.upsert_request(query.clone(), UpsertMutation::from(vec![mu1, mu2]));
    assert_eq!(request.query, query);
    assert_eq!(request.mutations.len(), 2);
    assert_eq!(request.mutations[0].cond, "@if(eq(len(user), 1))");
    assert!(!request.commit_now);
}

#[test]
fn upsert_with_vars_and_commit_now_request_shape() {
    let txn = TxnType::new(()).mutated();
    let mut vars = HashMap::new();
    vars.insert("$email".to_string(), "a@b.c".to_string());
    let (pending, request) = txn.upsert_with_vars_and_commit_now(
        "query q($email: string) { user as var(func: eq(email, $email)) }".to_string(),
        vars,
        UpsertMutation::single(Mutation::new()),
    );
    assert!(request.commit_now);
    assert_eq!(request.mutations.len(), 1);
    assert_eq!(request.vars.get("$email"), Some(&"a@b.c".to_string()));
    let r = pending.apply_mutation_reply(Ok(response(Some(context(0, &["k"])))));
    assert!(r.is_ok());
}

#[test]
fn mutate_and_commit_now_sends_one_request() {
    let stub = MockStub::with_replies(vec![vec!["k"]]);
    let txn = TxnType::new(stub.clone()).mutated();
    let (pending, request) = txn.mutate_and_commit_now(Mutation::new());
    assert!(request.commit_now);
    assert_eq!(request.mutations.len(), 1);
    let reply = pending.stub().reply(&request);
    assert!(pending.apply_mutation_reply(reply).is_ok());
    let calls = stub.calls.borrow();
    assert_eq!(calls.mutations, 1);
    assert_eq!(calls.commits, 0);
}

#[test]
fn commit_now_reply_without_context_fails() {
    let txn = TxnType::new(()).mutated();
    let (pending, _request) = txn.upsert_and_commit_now("{ q() }".to_string(), UpsertMutation::single(Mutation::new()));
    let r = pending.apply_mutation_reply(Ok(response(None)));
    assert!(matches!(r, Err(DgraphError::MissingTxnContext)));
}

#[test]
fn failed_commit_is_grpc_error() {
    let r = commit_reply(rpc_result(RpcKind::CommitOrAbort, Err::<TxnContext, _>(status())));
    assert!(matches!(
        r,
        Err(DgraphError::GrpcError(ClientError::CannotCommitOrAbort(_)))
    ));
}

#[test]
fn transitions_keep_context() {
    let mut txn = TxnType::new(()).read_only();
    assert!(txn.apply_query_reply(Ok(response(Some(context(12, &["x"]))))).is_ok());
    let txn = txn.best_effort();
    assert_eq!(txn.txn_context().start_ts, 12);
    assert_eq!(txn.query_request("{ q() }".to_string()).start_ts, 12);
}
