use aisil::value::TypeTag;
use aisil::value::Value;
use aisil::value::conforms;

fn result_of(ok: TypeTag, err: TypeTag) -> TypeTag {
    TypeTag::ResultOf(Box::new(ok), Box::new(err))
}

#[test]
fn conformance() {
    assert!(conforms(&Value::Null, &TypeTag::Unit));
    assert!(!conforms(&Value::Bool(true), &TypeTag::Unit));
    assert!(conforms(&Value::Bool(false), &TypeTag::Bool));
    assert!(conforms(&Value::Int(-3), &TypeTag::Int));
    assert!(conforms(&Value::Str("hi".to_string()), &TypeTag::Str));
    assert!(!conforms(&Value::Str("hi".to_string()), &TypeTag::Int));

    let tag = result_of(TypeTag::Unit, TypeTag::Str);
    assert!(conforms(&Value::ROk(Box::new(Value::Null)), &tag));
    assert!(conforms(&Value::RErr(Box::new(Value::Str("e".to_string()))), &tag));
    assert!(!conforms(&Value::ROk(Box::new(Value::Bool(true))), &tag));
    assert!(!conforms(&Value::RErr(Box::new(Value::Null)), &tag));
    assert!(!conforms(&Value::Null, &tag));
}

#[test]
fn equality_and_clone() {
    let v = Value::ROk(Box::new(Value::Str("abc".to_string())));
    assert_eq!(v.clone(), v);
    assert_ne!(v, Value::ROk(Box::new(Value::Str("abd".to_string()))));
    assert_ne!(Value::Bool(true), Value::Bool(false));
    assert_eq!(Value::Int(5), Value::Int(5));

    let t = result_of(TypeTag::Bool, TypeTag::Str);
    assert_eq!(t.clone(), t);
    assert_ne!(t, result_of(TypeTag::Bool, TypeTag::Int));
    assert_ne!(TypeTag::Unit, TypeTag::Bool);
}
