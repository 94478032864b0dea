use dgraph_tonic::api::{DropOp, Mutation, Operation, UpsertMutation};
use dgraph_tonic::client::{balance_list, ClientVariant, Endpoints, SlashQlInterceptor};
use dgraph_tonic::stub::{rpc_error, rpc_result, RpcKind};
use dgraph_tonic::ClientError;

#[test]
fn from_vector() {
    let urls = vec![
        "http://localhost:2379".to_string(),
        "http://localhost:22379".to_string(),
    ];
    let endpoints = Endpoints::from(urls.clone());
    assert_eq!(endpoints.endpoints.len(), 2);
    assert_eq!(endpoints.endpoints[0], urls[0]);
    assert_eq!(endpoints.endpoints[1], urls[1]);
}

#[test]
fn from_str() {
    let url = "http://localhost:2379";
    let endpoints = Endpoints::single(url.to_string());
    assert_eq!(endpoints.endpoints.len(), 1);
    assert_eq!(endpoints.endpoints[0], url);
}

#[test]
fn no_endpoints_is_rejected() {
    let r = balance_list(Endpoints::from(Vec::<String>::new()));
    assert!(matches!(r, Err(ClientError::NoEndpointsDefined)));
}

#[test]
fn malformed_endpoint_is_rejected() {
    let r = balance_list(Endpoints::single("http://local host:19080".to_string()));
    assert!(matches!(r, Err(ClientError::InvalidEndpoint)));
    let r = balance_list(Endpoints::from(vec![
        "http://127.0.0.1:19080".to_string(),
        "".to_string(),
    ]));
    assert!(matches!(r, Err(ClientError::InvalidEndpoint)));
}

#[test]
fn valid_endpoints_parse_in_order() {
    let r = balance_list(Endpoints::from(vec![
        "http://127.0.0.1:19080".to_string(),
        "http://localhost:9080".to_string(),
    ]))
    .expect("valid endpoints");
    assert_eq!(r.len(), 2);
    assert_eq!(r[0].host(), Some("127.0.0.1"));
    assert_eq!(r[1].port_u16(), Some(9080));
}

#[test]
fn client_needs_a_stub() {
    let r = ClientVariant::<u8>::new(vec![]);
    assert!(matches!(r, Err(ClientError::NoEndpointsDefined)));
}

#[test]
fn any_client_picks_from_pool() {
    let client = ClientVariant::new(vec![10u8, 20, 30]).ok().expect("client");
    for _ in 0..50 {
        let c = *client.any_client();
        assert!(c == 10 || c == 20 || c == 30);
    }
    assert_eq!(client.clients(), vec![10u8, 20, 30]);
}

#[test]
fn new_txns_start_empty() {
    let client = ClientVariant::new(vec![1u8]).ok().expect("client");
    let txn = client.new_txn();
    assert_eq!(*txn.stub(), 1);
    assert_eq!(txn.txn_context().start_ts, 0);
    let ro = client.new_read_only_txn();
    assert!(ro.query_request("{ q() }".to_string()).read_only);
    let be = client.new_best_effort_txn();
    assert!(be.query_request("{ q() }".to_string()).best_effort);
    let mu = client.new_mutated_txn();
    assert!(mu.commit().is_none());
}

#[test]
fn rpc_errors_per_call() {
    let s = || tonic::Status::new(tonic::Code::Internal, "boom");
    assert!(matches!(rpc_error(RpcKind::Login, s()), ClientError::CannotLogin(_)));
    assert!(matches!(
        rpc_error(RpcKind::RefreshLogin, s()),
        ClientError::CannotRefreshLogin(_)
    ));
    assert!(matches!(rpc_error(RpcKind::Query, s()), ClientError::CannotQuery(_)));
    assert!(matches!(rpc_error(RpcKind::Mutate, s()), ClientError::CannotMutate(_)));
    assert!(matches!(
        rpc_error(RpcKind::DoRequest, s()),
        ClientError::CannotDoRequest(_)
    ));
    assert!(matches!(rpc_error(RpcKind::Alter, s()), ClientError::CannotAlter(_)));
    assert!(matches!(
        rpc_error(RpcKind::CommitOrAbort, s()),
        ClientError::CannotCommitOrAbort(_)
    ));
    assert!(matches!(
        rpc_error(RpcKind::CheckVersion, s()),
        ClientError::CannotCheckVersion(_)
    ));
    match rpc_error(RpcKind::Alter, s()) {
        ClientError::CannotAlter(status) => {
            assert_eq!(status.code(), tonic::Code::Internal);
            assert_eq!(status.message(), "boom");
        }
        _ => unreachable!(),
    }
}

#[test]
fn rpc_result_passes_replies() {
    let r = rpc_result(RpcKind::CheckVersion, Ok::<u32, tonic::Status>(7));
    assert!(matches!(r, Ok(7)));
}

#[test]
fn mutation_builder() {
    let mut mu = Mutation::new();
    assert!(mu.set_json.is_empty() && mu.cond.is_empty() && !mu.commit_now);
    let mut person = std::collections::BTreeMap::new();
    person.insert("uid", "_:alice");
    person.insert("name", "Alice");
    let json = serde_json::to_vec(&person).expect("Invalid JSON");
    mu.set_set_json(json);
    assert_eq!(mu.set_json, br#"{"name":"Alice","uid":"_:alice"}"#.to_vec());
    mu.set_delete_nquads("<0x1> * * .".to_string());
    assert_eq!(mu.del_nquads, b"<0x1> * * .".to_vec());
    mu.set_cond("@if(eq(len(u), 0))".to_string());
    assert_eq!(mu.cond, "@if(eq(len(u), 0))");
    let mu = mu.with_delete_json(b"{\"uid\":\"0x2\"}".to_vec());
    assert_eq!(mu.delete_json, b"{\"uid\":\"0x2\"}".to_vec());
    assert_eq!(mu.set_json, br#"{"name":"Alice","uid":"_:alice"}"#.to_vec());
    let mu = Mutation::new().with_set_json(b"[]".to_vec());
    assert_eq!(mu.set_json, b"[]".to_vec());
    let upsert = UpsertMutation::single(mu);
    assert_eq!(upsert.mu.len(), 1);
}

#[test]
fn non_ascii_nquads_are_utf8() {
    let mut mu = Mutation::new();
    mu.set_set_nquads("_:a <name> \"Zo\u{eb}\" .".to_string());
    assert_eq!(mu.set_nquads, "_:a <name> \"Zo\u{eb}\" .".as_bytes().to_vec());
}

#[test]
fn operations() {
    let op = Operation::set_schema("name: string @index(exact) .".to_string());
    assert_eq!(op.schema, "name: string @index(exact) .");
    assert!(!op.drop_all && !op.run_in_background);
    assert_eq!(op.drop_op, DropOp::Unspecified);
    let op = Operation::set_schema_in_background("color: string .".to_string());
    assert!(op.run_in_background);
    let op = Operation::drop_all();
    assert!(op.drop_all);
    assert!(op.schema.is_empty());
}

#[test]
fn slash_ql_metadata() {
    let i = SlashQlInterceptor::new("SECRET-REDACTED".to_string());
    let (name, value) = i.metadata();
    assert_eq!(name, "authorization");
    assert_eq!(value, "SECRET-REDACTED");
}
