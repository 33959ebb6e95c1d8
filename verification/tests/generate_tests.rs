use aisil::generate::TsApi;
use aisil::generate::gen_ts_api;
use aisil::generate::schema_json;
use aisil::generate::split_docs;
use aisil::generate::ts_type;
use aisil::openapi::gen_openapi;
use aisil::openrpc::ParamStructure;
use aisil::openrpc::gen_openrpc;
use aisil::registry::Api;
use aisil::registry::Method;
use aisil::registry::MethodList;
use aisil::value::TypeTag;

fn result_of(ok: TypeTag, err: TypeTag) -> TypeTag {
    TypeTag::ResultOf(Box::new(ok), Box::new(err))
}

fn some_api() -> Api {
    let mut methods = MethodList::new();
    methods.push(Method::new(
        "get_a".to_string(),
        TypeTag::Unit,
        TypeTag::Bool,
        Some("Get A".to_string()),
    ));
    methods.push(Method::new(
        "post_a".to_string(),
        TypeTag::Bool,
        result_of(TypeTag::Unit, TypeTag::Str),
        None,
    ));
    Api::new(
        "SomeAPI".to_string(),
        "0.0.0".to_string(),
        Some("Some example api".to_string()),
        methods,
    )
}

#[test]
fn split_docs_cases() {
    assert_eq!(split_docs(None), (None, None));
    assert_eq!(
        split_docs(Some("just a summary")),
        (Some("just a summary".to_string()), None)
    );
    assert_eq!(
        split_docs(Some("header\n\nbody text")),
        (Some("header".to_string()), Some("body text".to_string()))
    );
    // the split happens at the first blank line
    assert_eq!(
        split_docs(Some("a\n\nb\n\nc")),
        (Some("a".to_string()), Some("b\n\nc".to_string()))
    );
    // a single newline does not split
    assert_eq!(
        split_docs(Some("line one\nline two")),
        (Some("line one\nline two".to_string()), None)
    );
    assert_eq!(split_docs(Some("")), (Some("".to_string()), None));
}

#[test]
fn ts_types() {
    assert_eq!(ts_type(&TypeTag::Unit), "null");
    assert_eq!(ts_type(&TypeTag::Bool), "boolean");
    assert_eq!(ts_type(&TypeTag::Int), "number");
    assert_eq!(ts_type(&TypeTag::Str), "string");
    assert_eq!(
        ts_type(&result_of(TypeTag::Unit, TypeTag::Str)),
        "{ \"Ok\": null } | { \"Err\": string }"
    );
}

#[test]
fn gen_ts_api_output() {
    let expected = "\n\
        type Request<M> = \n\
        \x20 M extends 'get_a' ? null :\n\
        \x20 M extends 'post_a' ? boolean :\n\
        \x20 void;\n\
        \n\
        type Response<M> = \n\
        \x20 M extends 'get_a' ? boolean :\n\
        \x20 M extends 'post_a' ? { \"Ok\": null } | { \"Err\": string } :\n\
        \x20 void;";
    assert_eq!(gen_ts_api(&some_api()), expected);
}

#[test]
fn ts_api_entries() {
    let ts = TsApi::of_api(&some_api());
    assert_eq!(ts.types.len(), 0);
    assert_eq!(ts.methods.len(), 2);
    assert_eq!(ts.methods[0].method_name, "get_a");
    assert_eq!(ts.methods[0].request_type, "null");
    assert_eq!(ts.methods[0].response_type, "boolean");
    assert_eq!(ts.methods[1].method_name, "post_a");
    assert_eq!(ts.methods[1].request_type, "boolean");
    assert_eq!(
        ts.methods[1].response_type,
        "{ \"Ok\": null } | { \"Err\": string }"
    );
}

#[test]
fn schema_json_output() {
    assert_eq!(schema_json(&TypeTag::Unit), "{\"type\":\"null\"}");
    assert_eq!(schema_json(&TypeTag::Bool), "{\"type\":\"boolean\"}");
    assert_eq!(schema_json(&TypeTag::Int), "{\"type\":\"integer\"}");
    assert_eq!(schema_json(&TypeTag::Str), "{\"type\":\"string\"}");
    assert_eq!(
        schema_json(&result_of(TypeTag::Unit, TypeTag::Str)),
        "{\"oneOf\":[\
         {\"type\":\"object\",\"required\":[\"Ok\"],\"properties\":{\"Ok\":{\"type\":\"null\"}}},\
         {\"type\":\"object\",\"required\":[\"Err\"],\"properties\":{\"Err\":{\"type\":\"string\"}}}\
         ]}"
    );
}

#[test]
fn openrpc() {
    let doc = gen_openrpc(&some_api());
    assert_eq!(doc.openrpc, "1.3.0");
    assert_eq!(doc.info.title, "SomeAPI");
    assert_eq!(doc.info.version, "0.0.0");
    assert_eq!(doc.info.description, Some("Some example api".to_string()));
    assert_eq!(doc.methods.len(), 2);

    let get_a = &doc.methods[0];
    assert_eq!(get_a.name, "get_a");
    assert_eq!(get_a.summary, Some("Get A".to_string()));
    assert_eq!(get_a.description, None);
    assert_eq!(get_a.params.len(), 1);
    assert_eq!(get_a.params[0].name, "payload");
    assert!(get_a.params[0].required);
    assert_eq!(get_a.params[0].schema, TypeTag::Unit);
    let result = get_a.result.as_ref().unwrap();
    assert_eq!(result.name, "result");
    assert!(result.required);
    assert_eq!(result.schema, TypeTag::Bool);
    assert!(matches!(get_a.param_structure, ParamStructure::ByName));

    let post_a = &doc.methods[1];
    assert_eq!(post_a.name, "post_a");
    assert_eq!(post_a.summary, None);
    assert_eq!(post_a.description, None);
    assert_eq!(post_a.params[0].schema, TypeTag::Bool);
    assert_eq!(
        post_a.result.as_ref().unwrap().schema,
        result_of(TypeTag::Unit, TypeTag::Str)
    );
}

#[test]
fn test_openapi() {
    let doc = gen_openapi(&some_api());
    assert_eq!(doc.title, "SomeAPI");
    assert_eq!(doc.version, "0.0.0");
    assert_eq!(doc.summary, Some("Some example api".to_string()));
    assert_eq!(doc.description, None);
    assert_eq!(doc.paths.len(), 2);

    assert_eq!(doc.paths[0].path, "get_a");
    assert_eq!(doc.paths[0].operation.summary, Some("Get A".to_string()));
    assert_eq!(doc.paths[0].operation.request_schema, TypeTag::Unit);
    assert_eq!(doc.paths[0].operation.response_schema, TypeTag::Bool);

    assert_eq!(doc.paths[1].path, "post_a");
    assert_eq!(doc.paths[1].operation.summary, None);
    assert_eq!(doc.paths[1].operation.request_schema, TypeTag::Bool);
    assert_eq!(
        doc.paths[1].operation.response_schema,
        result_of(TypeTag::Unit, TypeTag::Str)
    );
}

#[test]
fn openapi_test_openapi() {
    // an API whose docs carry a body after the summary: the document
    // splits them across the two fields
    let mut methods = MethodList::new();
    methods.push(Method::new("ping".to_string(), TypeTag::Unit, TypeTag::Unit, None));
    let api = Api::new(
        "Docs".to_string(),
        "1.1.0".to_string(),
        Some("Short summary\n\nLonger description".to_string()),
        methods,
    );
    let doc = gen_openapi(&api);
    assert_eq!(doc.title, "Docs");
    assert_eq!(doc.version, "1.1.0");
    assert_eq!(doc.summary, Some("Short summary".to_string()));
    assert_eq!(doc.description, Some("Longer description".to_string()));
    assert_eq!(doc.paths.len(), 1);
    assert_eq!(doc.paths[0].path, "ping");
    assert_eq!(doc.paths[0].operation.summary, None);
}
