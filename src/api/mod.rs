//! The messages exchanged with the server, as plain values.
use std::collections::HashMap;
use vstd::prelude::*;

pub mod mutation;
pub mod txn_context;

pub use crate::api::mutation::{Mutation, MutationView, UpsertMutation};
pub use crate::api::txn_context::{TxnContext, TxnContextView};

verus! {

/// The format in which a query asks for its result.
#[derive(Debug, Clone, Copy, PartialEq, Eq, Structural)]
pub enum RespFormat {
    Json,
    Rdf,
}

/// A query, a set of mutations, or both, sent in one round trip.
#[derive(Debug)]
pub struct Request {
    pub start_ts: u64,
    pub query: String,
    pub vars: HashMap<String, String>,
    pub read_only: bool,
    pub best_effort: bool,
    pub mutations: Vec<Mutation>,
    pub commit_now: bool,
    pub resp_format: RespFormat,
}

/// Time the server spent on the phases of a request.
#[derive(Debug, Clone, Copy, PartialEq, Eq, Structural)]
pub struct Latency {
    pub parsing_ns: u64,
    pub processing_ns: u64,
    pub encoding_ns: u64,
    pub assign_timestamp_ns: u64,
    pub total_ns: u64,
}

/// The server's reply to a [`Request`].
#[derive(Debug)]
pub struct Response {
    pub json: Vec<u8>,
    pub txn: Option<TxnContext>,
    pub latency: Option<Latency>,
    pub uids: HashMap<String, String>,
    pub rdf: Vec<u8>,
}

/// What a schema change drops.
#[derive(Debug, Clone, Copy, PartialEq, Eq, Structural)]
pub enum DropOp {
    Unspecified,
    All,
    Data,
    Attr,
    Type,
}

/// A schema change.
#[derive(Debug)]
pub struct Operation {
    pub schema: String,
    pub drop_attr: String,
    pub drop_all: bool,
    pub drop_op: DropOp,
    pub drop_value: String,
    pub run_in_background: bool,
}

/// The reply to an [`Operation`].
#[derive(Debug)]
pub struct Payload {
    pub data: Vec<u8>,
}

/// The server's version tag.
#[derive(Debug)]
pub struct Version {
    pub tag: String,
}

impl Operation {
    /// An operation that changes nothing.
    pub fn new() -> (r: Operation)
        ensures
            r.schema@ == Seq::<char>::empty(),
            r.drop_attr@ == Seq::<char>::empty(),
            !r.drop_all,
            r.drop_op == DropOp::Unspecified,
            r.drop_value@ == Seq::<char>::empty(),
            !r.run_in_background,
    {
        Operation {
            schema: String::new(),
            drop_attr: String::new(),
            drop_all: false,
            drop_op: DropOp::Unspecified,
            drop_value: String::new(),
            run_in_background: false,
        }
    }

    /// An operation that installs `schema`.
    pub fn set_schema(schema: String) -> (r: Operation)
        ensures
            r.schema == schema,
            r.drop_attr@ == Seq::<char>::empty(),
            !r.drop_all,
            r.drop_op == DropOp::Unspecified,
            r.drop_value@ == Seq::<char>::empty(),
            !r.run_in_background,
    {
        let mut op = Operation::new();
        op.schema = schema;
        op
    }

    /// An operation that installs `schema` and builds its indexes in the
    /// background.
    pub fn set_schema_in_background(schema: String) -> (r: Operation)
        ensures
            r.schema == schema,
            r.drop_attr@ == Seq::<char>::empty(),
            !r.drop_all,
            r.drop_op == DropOp::Unspecified,
            r.drop_value@ == Seq::<char>::empty(),
            r.run_in_background,
    {
        let mut op = Operation::set_schema(schema);
        op.run_in_background = true;
        op
    }

    /// An operation that drops all data and the schema.
    pub fn drop_all() -> (r: Operation)
        ensures
            r.schema@ == Seq::<char>::empty(),
            r.drop_attr@ == Seq::<char>::empty(),
            r.drop_all,
            r.drop_op == DropOp::Unspecified,
            r.drop_value@ == Seq::<char>::empty(),
            !r.run_in_background,
    {
        let mut op = Operation::new();
        op.drop_all = true;
        op
    }
}

} // verus!
