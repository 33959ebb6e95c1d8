use aisil::backend::BoolStore;
use aisil::dispatch::DispatchTable;
use aisil::json_rpc::JsonRpcClient;
use aisil::json_rpc::JsonRpcRequest;
use aisil::json_rpc::JsonRpcResponse;
use aisil::json_rpc::json_rpc_router;
use aisil::post_json::PostJsonClient;
use aisil::post_json::mk_axum_router;
use aisil::post_json::mk_post_json_router;
use aisil::registry::Api;
use aisil::registry::Method;
use aisil::registry::MethodList;
use aisil::value::TypeTag;
use aisil::value::Value;

fn result_of(ok: TypeTag, err: TypeTag) -> TypeTag {
    TypeTag::ResultOf(Box::new(ok), Box::new(err))
}

fn some_api() -> Api {
    let mut methods = MethodList::new();
    methods.push(Method::new("get_a".to_string(), TypeTag::Unit, TypeTag::Bool, None));
    methods.push(Method::new(
        "post_a".to_string(),
        TypeTag::Bool,
        result_of(TypeTag::Unit, TypeTag::Str),
        None,
    ));
    Api::new("SomeAPI".to_string(), "0.0.0".to_string(), None, methods)
}

#[test]
fn router_serves_results() {
    let backend = BoolStore::new();
    let table = DispatchTable::build(some_api(), &backend).unwrap();
    let mut backend = backend;
    let req = JsonRpcRequest {
        method: "post_a".to_string(),
        payload: Value::Bool(true),
        id: Some(Value::Int(7)),
    };
    let resp = json_rpc_router(&table, &mut backend, &req);
    assert_eq!(resp.result, Some(Value::ROk(Box::new(Value::Null))));
    assert!(resp.error.is_none());
    assert_eq!(resp.id, Some(Value::Int(7)));
    assert_eq!(resp.jsonrpc, Some("2.0".to_string()));

    let req = JsonRpcRequest {
        method: "get_a".to_string(),
        payload: Value::Null,
        id: None,
    };
    let resp = json_rpc_router(&table, &mut backend, &req);
    assert_eq!(resp.result, Some(Value::Bool(true)));
    assert_eq!(resp.id, None);
}

#[test]
fn router_reports_method_not_found() {
    let backend = BoolStore::new();
    let table = DispatchTable::build(some_api(), &backend).unwrap();
    let mut backend = backend;
    let req = JsonRpcRequest {
        method: "nope".to_string(),
        payload: Value::Str("anything".to_string()),
        id: Some(Value::Int(1)),
    };
    let resp = json_rpc_router(&table, &mut backend, &req);
    assert!(resp.result.is_none());
    let err = resp.error.unwrap();
    assert_eq!(err.code, -32601);
    assert_eq!(err.message, "method not found: nope");
    assert_eq!(resp.id, Some(Value::Int(1)));
}

#[test]
fn router_reports_invalid_params() {
    let backend = BoolStore::new();
    let table = DispatchTable::build(some_api(), &backend).unwrap();
    let mut backend = backend;
    let req = JsonRpcRequest {
        method: "post_a".to_string(),
        payload: Value::Str("not a bool".to_string()),
        id: None,
    };
    let resp = json_rpc_router(&table, &mut backend, &req);
    let err = resp.error.unwrap();
    assert_eq!(err.code, -32602);
    assert_eq!(err.message, "invalid params");
}

#[test]
fn router_reports_serialization_error() {
    let mut methods = MethodList::new();
    methods.push(Method::new("get_a".to_string(), TypeTag::Unit, TypeTag::Str, None));
    let api = Api::new("BadAPI".to_string(), "0.0.0".to_string(), None, methods);
    let backend = BoolStore::new();
    let table = DispatchTable::build(api, &backend).unwrap();
    let mut backend = backend;
    let req = JsonRpcRequest {
        method: "get_a".to_string(),
        payload: Value::Null,
        id: None,
    };
    let resp = json_rpc_router(&table, &mut backend, &req);
    let err = resp.error.unwrap();
    assert_eq!(err.code, -32603);
    assert_eq!(err.message, "response serialization error");
}

#[test]
fn client_envelopes() {
    let client = JsonRpcClient::new("http://localhost/rpc".to_string());
    assert_eq!(client.base_url, "http://localhost/rpc");
    let req = client.build_request(&"get_a".to_string(), Value::Null);
    assert_eq!(req.method, "get_a");
    assert_eq!(req.payload, Value::Null);
    assert!(req.id.is_none());

    let ok = JsonRpcResponse {
        result: Some(Value::Bool(true)),
        error: None,
        id: None,
        jsonrpc: Some("2.0".to_string()),
    };
    match client.read_response(&ok) {
        Ok(v) => assert_eq!(v, Value::Bool(true)),
        _ => panic!("expected a result"),
    }

    let empty = JsonRpcResponse { result: None, error: None, id: None, jsonrpc: None };
    match client.read_response(&empty) {
        Err(None) => {}
        _ => panic!("expected an empty error"),
    }
}

#[test]
fn post_json_routes() {
    let routes = mk_post_json_router(&some_api());
    assert_eq!(routes.len(), 2);
    assert_eq!(routes[0].path, "/get_a");
    assert_eq!(routes[0].method_name, "get_a");
    assert_eq!(routes[1].path, "/post_a");
    assert_eq!(routes[1].method_name, "post_a");
    let same = mk_axum_router(&some_api());
    assert_eq!(same.len(), 2);
    assert_eq!(same[0].path, "/get_a");
}

#[test]
fn post_json_client_needs_a_base() {
    let client = PostJsonClient::new("http://localhost:8080".to_string()).unwrap();
    assert_eq!(
        client.route_url(&"get_a".to_string()),
        "http://localhost:8080/get_a"
    );
    assert!(PostJsonClient::new("not a url".to_string()).is_none());
    assert!(PostJsonClient::new("".to_string()).is_none());
}
