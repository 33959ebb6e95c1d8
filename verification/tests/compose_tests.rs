use aisil::backend::BoolStore;
use aisil::compose::Compose;
use aisil::compose::ComposeError;
use aisil::compose::ComposeRes;
use aisil::compose::compose_api;
use aisil::compose::compose_res_api;
use aisil::implementor::ImplsMethod;
use aisil::registry::Api;
use aisil::registry::Method;
use aisil::registry::MethodList;
use aisil::value::TypeTag;
use aisil::value::Val;
use aisil::value::Value;
use vstd::prelude::Seq;

fn result_of(ok: TypeTag, err: TypeTag) -> TypeTag {
    TypeTag::ResultOf(Box::new(ok), Box::new(err))
}

fn some_api() -> Api {
    let mut methods = MethodList::new();
    methods.push(Method::new("get_a".to_string(), TypeTag::Unit, TypeTag::Bool, None));
    methods.push(Method::new(
        "post_a".to_string(),
        TypeTag::Bool,
        result_of(TypeTag::Unit, TypeTag::Str),
        None,
    ));
    Api::new("SomeAPI".to_string(), "0.0.0".to_string(), None, methods)
}

/// The outer API of the composition: `foo` takes a result and yields a
/// boolean.
fn g_api() -> Api {
    let mut methods = MethodList::new();
    methods.push(Method::new(
        "foo".to_string(),
        result_of(TypeTag::Unit, TypeTag::Str),
        TypeTag::Bool,
        None,
    ));
    // a second method accepting booleans, so that get_a responses route too
    methods.push(Method::new("flip".to_string(), TypeTag::Bool, TypeTag::Bool, None));
    Api::new("GApi".to_string(), "0.0.0".to_string(), None, methods)
}

/// The outer backend: `foo` answers whether its argument is a success,
/// `flip` negates.
#[derive(Clone)]
struct SomeG {
    calls: usize,
}

impl ImplsMethod for SomeG {
    // the model items are ghost and never executed
    fn handles(&self, _method: Seq<char>) -> bool {
        true
    }

    fn handler_result(&self, _method: Seq<char>, req: Val) -> Val {
        req
    }

    fn steps_to(&self, _method: Seq<char>, _req: Val, _next: Self) -> bool {
        true
    }

    fn supports(&self, method: &String) -> bool {
        method.as_str() == "foo" || method.as_str() == "flip"
    }

    fn call_api(&mut self, method: &String, req: Value) -> Value {
        self.calls += 1;
        if method.as_str() == "foo" {
            Value::Bool(matches!(req, Value::ROk(_)))
        } else {
            match req {
                Value::Bool(b) => Value::Bool(!b),
                other => other,
            }
        }
    }
}

/// A one-method outer backend that acknowledges unit requests.
#[derive(Clone)]
struct Acker {
    calls: usize,
}

impl ImplsMethod for Acker {
    // the model items are ghost and never executed
    fn handles(&self, _method: Seq<char>) -> bool {
        true
    }

    fn handler_result(&self, _method: Seq<char>, req: Val) -> Val {
        req
    }

    fn steps_to(&self, _method: Seq<char>, _req: Val, _next: Self) -> bool {
        true
    }

    fn supports(&self, method: &String) -> bool {
        method.as_str() == "ack"
    }

    fn call_api(&mut self, _method: &String, _req: Value) -> Value {
        self.calls += 1;
        Value::Str("done".to_string())
    }
}

/// The API pair the result-threading composition tests use: H's `post_a`
/// succeeds with a unit, which G's `ack` accepts.
fn res_pair() -> (Api, Api) {
    let mut g_methods = MethodList::new();
    g_methods.push(Method::new("ack".to_string(), TypeTag::Unit, TypeTag::Str, None));
    let g_api = Api::new("G".to_string(), "0.0.0".to_string(), None, g_methods);
    let mut h_methods = MethodList::new();
    h_methods.push(Method::new(
        "post_a".to_string(),
        TypeTag::Bool,
        result_of(TypeTag::Unit, TypeTag::Str),
        None,
    ));
    let h_api = Api::new("H".to_string(), "0.0.0".to_string(), None, h_methods);
    (g_api, h_api)
}

#[test]
fn test() {
    let backend = Compose::new(SomeG { calls: 0 }, BoolStore::new(), &g_api(), &some_api());
    let mut backend = backend.unwrap_or_else(|_| panic!("composition should build"));
    let first = backend.call_api(&"post_a".to_string(), Value::Bool(true));
    assert_eq!(first, Value::Bool(true));
    let second = backend.call_api(&"post_a".to_string(), Value::Bool(true));
    assert_eq!(second, Value::Bool(false));
}

#[test]
fn compose_api_takes_g_responses() {
    let api = compose_api(&g_api(), &some_api()).unwrap_or_else(|_| panic!("should build"));
    assert_eq!(api.name, "SomeAPI");
    assert_eq!(api.methods.len(), 2);
    // get_a: bool response routes to flip, whose response is bool
    assert_eq!(api.methods.get(0).name, "get_a");
    assert_eq!(api.methods.get(0).res, TypeTag::Bool);
    // post_a: result response routes to foo, whose response is bool
    assert_eq!(api.methods.get(1).name, "post_a");
    assert_eq!(api.methods.get(1).res, TypeTag::Bool);
}

#[test]
fn compose_rejects_unroutable_method() {
    let mut methods = MethodList::new();
    methods.push(Method::new("ping".to_string(), TypeTag::Unit, TypeTag::Int, None));
    let h = Api::new("H".to_string(), "0.0.0".to_string(), None, methods);
    match compose_api(&g_api(), &h) {
        Err(ComposeError::NoMatchingMethod(n)) => assert_eq!(n, "ping"),
        _ => panic!("expected NoMatchingMethod"),
    }
}

#[test]
fn compose_res_short_circuits() {
    // post the flag once so that the next post fails
    let mut store = BoolStore::new();
    let _ = store.call_api(&"post_a".to_string(), Value::Bool(true));
    let (g_api, h_api) = res_pair();
    let composed = ComposeRes::new(Acker { calls: 0 }, store, &g_api, &h_api);
    let mut composed = composed.unwrap_or_else(|_| panic!("should build"));
    // H fails: the composed failure is H's error and G is never invoked
    let r = composed.call_api(&"post_a".to_string(), Value::Bool(false));
    assert_eq!(
        r,
        Value::RErr(Box::new(Value::Str("can't post a anymore".to_string())))
    );
    assert_eq!(composed.g.calls, 0);
}

#[test]
fn compose_res_threads_success() {
    let (g_api, h_api) = res_pair();
    let composed = ComposeRes::new(Acker { calls: 0 }, BoolStore::new(), &g_api, &h_api);
    let mut composed = composed.unwrap_or_else(|_| panic!("should build"));
    let r = composed.call_api(&"post_a".to_string(), Value::Bool(true));
    assert_eq!(r, Value::ROk(Box::new(Value::Str("done".to_string()))));
    assert_eq!(composed.g.calls, 1);

    let api = compose_res_api(&g_api, &h_api).unwrap_or_else(|_| panic!("should build"));
    assert_eq!(api.methods.get(0).res, result_of(TypeTag::Str, TypeTag::Str));
}

#[test]
fn compose_res_needs_result_shape() {
    let mut h_methods = MethodList::new();
    h_methods.push(Method::new("get_a".to_string(), TypeTag::Unit, TypeTag::Bool, None));
    let h_api = Api::new("H".to_string(), "0.0.0".to_string(), None, h_methods);
    match compose_res_api(&g_api(), &h_api) {
        Err(ComposeError::NotResultShaped(n)) => assert_eq!(n, "get_a"),
        _ => panic!("expected NotResultShaped"),
    }
}
