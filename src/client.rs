//! The client facade: a validated pool of endpoints, one picked at random for
//! each transaction or one-shot call.
use rand::Rng;
use std::sync::Arc;
use vstd::prelude::*;

use crate::api::txn_context::empty_context;
use crate::errors::ClientError;
use crate::txn::{TxnBestEffortType, TxnMutatedType, TxnReadOnlyType, TxnType};

verus! {

/// A parsed URI.
#[verifier::external_type_specification]
#[verifier::external_body]
pub struct ExUri(http::Uri);

/// `s` is a URI.
pub uninterp spec fn uri_parses(s: Seq<char>) -> bool;

/// Relies on `http::Uri`'s `FromStr`: the URI that `s` spells, if it is one.
#[verifier::external_body]
fn parse_uri(s: &str) -> (r: Option<http::Uri>)
    ensures
        r is Some <==> uri_parses(s@),
{
    s.parse::<http::Uri>().ok()
}

/// Relies on `rand::Rng::gen_range` over the thread's generator: an index
/// below `len`.
#[verifier::external_body]
fn random_index(len: usize) -> (r: usize)
    requires
        len > 0,
    ensures
        r < len,
{
    rand::thread_rng().gen_range(0..len)
}

/// The endpoints a client is built from, one or more.
#[derive(Debug)]
pub struct Endpoints {
    pub endpoints: Vec<String>,
}

impl Endpoints {
    /// The one endpoint `endpoint`.
    pub fn single(endpoint: String) -> (r: Endpoints)
        ensures
            r.endpoints@ == seq![endpoint],
    {
        let r = Endpoints { endpoints: vec![endpoint] };
        assert(r.endpoints@ =~= seq![endpoint]);
        r
    }
}

impl From<Vec<String>> for Endpoints {
    fn from(endpoints: Vec<String>) -> (r: Endpoints) {
        Endpoints { endpoints }
    }
}

impl vstd::std_specs::convert::FromSpecImpl<Vec<String>> for Endpoints {
    open spec fn obeys_from_spec() -> bool {
        true
    }

    open spec fn from_spec(endpoints: Vec<String>) -> Endpoints {
        Endpoints { endpoints }
    }
}

/// Some endpoint of `e` is not a URI.
pub open spec fn has_invalid_endpoint(e: Seq<String>) -> bool {
    exists|i: int| 0 <= i < e.len() && !uri_parses(#[trigger] e[i]@)
}

/// Parses every endpoint, before any connection is made. Fails with
/// `InvalidEndpoint` when one is not a URI, and otherwise with
/// `NoEndpointsDefined` when there is none; gives one URI per endpoint, in
/// order, otherwise.
pub fn balance_list(endpoints: Endpoints) -> (r: Result<Vec<http::Uri>, ClientError>)
    ensures
        has_invalid_endpoint(endpoints.endpoints@) ==> r == Err::<Vec<http::Uri>, ClientError>(
            ClientError::InvalidEndpoint,
        ),
        !has_invalid_endpoint(endpoints.endpoints@) && endpoints.endpoints@.len() == 0 ==> r
            == Err::<Vec<http::Uri>, ClientError>(ClientError::NoEndpointsDefined),
        !has_invalid_endpoint(endpoints.endpoints@) && endpoints.endpoints@.len() > 0 ==> r is Ok
            && r->Ok_0@.len() == endpoints.endpoints@.len(),
{
        let mut uris: Vec<http::Uri> = Vec::new();
    let mut i: usize = 0;
    while i < endpoints.endpoints.len()
        invariant
            i <= endpoints.endpoints@.len(),
            uris@.len() == i,
            forall|k: int| 0 <= k < i ==> uri_parses(#[trigger] endpoints.endpoints@[k]@),
        decreases endpoints.endpoints@.len() - i,
    {
        match parse_uri(endpoints.endpoints[i].as_str()) {
            Some(uri) => uris.push(uri),
            None => {
                assert(!uri_parses(endpoints.endpoints@[i as int]@));
                return Err(ClientError::InvalidEndpoint);
            },
        }
        i = i + 1;
    }
    if uris.len() == 0 {
        return Err(ClientError::NoEndpointsDefined);
    }
    Ok(uris)
}

/// A client: a non-empty pool of stubs, one per endpoint.
pub struct ClientVariant<C> {
    clients: Vec<C>,
}

impl<C> ClientVariant<C> {
    #[verifier::type_invariant]
    spec fn inv(&self) -> bool {
        self.clients@.len() > 0
    }

    /// The stubs of the pool.
    pub closed spec fn pool(&self) -> Seq<C> {
        self.clients@
    }

    /// A client over the stubs `clients`; fails with `NoEndpointsDefined` when
    /// there is none.
    pub fn new(clients: Vec<C>) -> (r: Result<ClientVariant<C>, ClientError>)
        ensures
            clients@.len() == 0 ==> r == Err::<ClientVariant<C>, ClientError>(
                ClientError::NoEndpointsDefined,
            ),
            clients@.len() > 0 ==> r is Ok && r->Ok_0.pool() == clients@,
    {
        if clients.len() == 0 {
            return Err(ClientError::NoEndpointsDefined);
        }
        Ok(ClientVariant { clients })
    }

    /// A stub of the pool, picked at random.
    pub fn any_client(&self) -> (r: &C)
        ensures
            self.pool().contains(*r),
    {
        proof {
            use_type_invariant(self);
        }
        let i = random_index(self.clients.len());
        &self.clients[i]
    }

    /// The stubs of the pool.
    pub fn clients(self) -> (r: Vec<C>)
        ensures
            r@ == self.pool(),
    {
        self.clients
    }
}

impl<C: Clone> ClientVariant<C> {
    /// A fresh transaction over a stub of the pool.
    pub fn new_txn(&self) -> (r: TxnType<C>)
        ensures
            r.context() == empty_context(),
    {
        TxnType::new(self.any_client().clone())
    }

    /// A fresh read-only transaction over a stub of the pool.
    pub fn new_read_only_txn(&self) -> (r: TxnReadOnlyType<C>)
        ensures
            r.context() == empty_context(),
    {
        self.new_txn().read_only()
    }

    /// A fresh best-effort transaction over a stub of the pool.
    pub fn new_best_effort_txn(&self) -> (r: TxnBestEffortType<C>)
        ensures
            r.context() == empty_context(),
    {
        self.new_read_only_txn().best_effort()
    }

    /// A fresh mutating transaction over a stub of the pool.
    pub fn new_mutated_txn(&self) -> (r: TxnMutatedType<C>)
        ensures
            r.context() == empty_context(),
            !r.has_mutated(),
    {
        self.new_txn().mutated()
    }
}

/// Attaches an API key to every call made to a hosted server.
#[derive(Clone, Debug)]
pub struct SlashQlInterceptor {
    api_key: Arc<String>,
}

impl SlashQlInterceptor {
    /// The API key attached to every call.
    pub closed spec fn key(&self) -> Seq<char> {
        (*self.api_key)@
    }

    /// An interceptor that attaches `api_key`.
    pub fn new(api_key: String) -> (r: SlashQlInterceptor)
        ensures
            r.key() == api_key@,
    {
        SlashQlInterceptor { api_key: Arc::new(api_key) }
    }

    /// The metadata entry attached to every call: the API key under
    /// `authorization`.
    pub fn metadata(&self) -> (r: (String, String))
        ensures
            r.0@ == "authorization"@,
            r.1@ == self.key(),
    {
        let key: &String = &self.api_key;
        (String::from_str("authorization"), key.clone())
    }
}

} // verus!
