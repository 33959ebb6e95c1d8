use aisil::backend::BoolStore;
use aisil::dispatch::DispatchError;
use aisil::dispatch::DispatchTable;
use aisil::dispatch::RegistryError;
use aisil::implementor::ImplsMethod;
use aisil::registry::Api;
use aisil::registry::Method;
use aisil::registry::MethodList;
use aisil::value::TypeTag;
use aisil::value::Value;

fn result_of(ok: TypeTag, err: TypeTag) -> TypeTag {
    TypeTag::ResultOf(Box::new(ok), Box::new(err))
}

fn some_api() -> Api {
    let mut methods = MethodList::new();
    methods.push(Method::new(
        "get_a".to_string(),
        TypeTag::Unit,
        TypeTag::Bool,
        Some("Get A".to_string()),
    ));
    methods.push(Method::new(
        "post_a".to_string(),
        TypeTag::Bool,
        result_of(TypeTag::Unit, TypeTag::Str),
        None,
    ));
    Api::new(
        "SomeAPI".to_string(),
        "0.0.0".to_string(),
        Some("Some example api".to_string()),
        methods,
    )
}

#[test]
fn direct_api_call() {
    let mut backend = BoolStore::new();
    let posted = backend.call_api(&"post_a".to_string(), Value::Bool(true));
    assert!(matches!(posted, Value::ROk(_)));
    let new_a = backend.call_api(&"get_a".to_string(), Value::Null);
    assert_eq!(new_a, Value::Bool(true));
    let again = backend.call_api(&"post_a".to_string(), Value::Bool(true));
    assert!(matches!(again, Value::RErr(_)));
}

#[test]
fn dispatch_round_trip() {
    let backend = BoolStore::new();
    let table = DispatchTable::build(some_api(), &backend).unwrap();
    let mut backend = backend;
    let r = table.dispatch(&mut backend, &"post_a".to_string(), Value::Bool(true));
    assert_eq!(r.unwrap(), Value::ROk(Box::new(Value::Null)));
    let r = table.dispatch(&mut backend, &"get_a".to_string(), Value::Null);
    assert_eq!(r.unwrap(), Value::Bool(true));
}

#[test]
fn method_not_found() {
    let backend = BoolStore::new();
    let table = DispatchTable::build(some_api(), &backend).unwrap();
    let mut backend = backend;
    for payload in [Value::Null, Value::Bool(true), Value::Str("x".to_string())] {
        let r = table.dispatch(&mut backend, &"no_such_method".to_string(), payload);
        match r {
            Err(DispatchError::MethodNotFound(name)) => assert_eq!(name, "no_such_method"),
            other => panic!("expected MethodNotFound, got {other:?}"),
        }
    }
}

#[test]
fn invalid_params_skips_handler() {
    let backend = BoolStore::new();
    let table = DispatchTable::build(some_api(), &backend).unwrap();
    let mut backend = backend;
    let r = table.dispatch(&mut backend, &"post_a".to_string(), Value::Str("true".to_string()));
    assert!(matches!(r, Err(DispatchError::InvalidParams)));
    // the handler was not invoked: the flag is still unset and a post still
    // succeeds
    let r = table.dispatch(&mut backend, &"post_a".to_string(), Value::Bool(true));
    assert!(matches!(r, Ok(Value::ROk(_))));
}

#[test]
fn serialization_error() {
    // declare get_a as returning a string, which the handler does not do
    let mut methods = MethodList::new();
    methods.push(Method::new("get_a".to_string(), TypeTag::Unit, TypeTag::Str, None));
    let api = Api::new("BadAPI".to_string(), "0.0.0".to_string(), None, methods);
    let backend = BoolStore::new();
    let table = DispatchTable::build(api, &backend).unwrap();
    let mut backend = backend;
    let r = table.dispatch(&mut backend, &"get_a".to_string(), Value::Null);
    assert!(matches!(r, Err(DispatchError::SerializationError)));
}

#[test]
fn duplicate_name_rejected() {
    let mut methods = MethodList::new();
    methods.push(Method::new("get_a".to_string(), TypeTag::Unit, TypeTag::Bool, None));
    methods.push(Method::new("get_a".to_string(), TypeTag::Unit, TypeTag::Bool, None));
    let api = Api::new("DupAPI".to_string(), "0.0.0".to_string(), None, methods);
    let backend = BoolStore::new();
    match DispatchTable::build(api, &backend) {
        Err(RegistryError::DuplicateName(n)) => assert_eq!(n, "get_a"),
        other => panic!("expected DuplicateName, got {:?}", other.is_ok()),
    }
}

#[test]
fn missing_handler_rejected() {
    let mut methods = MethodList::new();
    methods.push(Method::new("get_a".to_string(), TypeTag::Unit, TypeTag::Bool, None));
    methods.push(Method::new("get_b".to_string(), TypeTag::Unit, TypeTag::Bool, None));
    let api = Api::new("WideAPI".to_string(), "0.0.0".to_string(), None, methods);
    let backend = BoolStore::new();
    match DispatchTable::build(api, &backend) {
        Err(RegistryError::MissingHandler(n)) => assert_eq!(n, "get_b"),
        other => panic!("expected MissingHandler, got {:?}", other.is_ok()),
    }
}

#[test]
fn one_shot_guard() {
    // posting while the flag is unset succeeds and sets it; a second post
    // fails because the flag can no longer be posted
    let backend = BoolStore::new();
    let table = DispatchTable::build(some_api(), &backend).unwrap();
    let mut backend = backend;
    let first = table.dispatch(&mut backend, &"post_a".to_string(), Value::Bool(true));
    assert_eq!(first.unwrap(), Value::ROk(Box::new(Value::Null)));
    let read = table.dispatch(&mut backend, &"get_a".to_string(), Value::Null);
    assert_eq!(read.unwrap(), Value::Bool(true));
    let second = table.dispatch(&mut backend, &"post_a".to_string(), Value::Bool(true));
    assert_eq!(
        second.unwrap(),
        Value::RErr(Box::new(Value::Str("can't post a anymore".to_string())))
    );
}

#[test]
fn method_list_concat_keeps_order() {
    let mut first = MethodList::new();
    first.push(Method::new("one".to_string(), TypeTag::Unit, TypeTag::Bool, None));
    let mut second = MethodList::new();
    second.push(Method::new("two".to_string(), TypeTag::Int, TypeTag::Str, None));
    first.concat(second);
    assert_eq!(first.len(), 2);
    assert_eq!(first.get(0).name, "one");
    assert_eq!(first.get(1).name, "two");
    assert_eq!(first.index_of(&"two".to_string()), Some(1));
    assert_eq!(first.index_of(&"three".to_string()), None);
}
