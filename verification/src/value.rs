//! The payload universe: type tags and values.
//!
//! Requests and responses travel through the dispatch layer as [`Value`]
//! trees. A [`TypeTag`] names the shape a method declares for its request or
//! its response; [`conforms`] checks a value against a tag. Decoding a raw
//! payload against a method's request tag and encoding a handler's response
//! against its response tag are both conformance checks over this universe.

use vstd::prelude::*;

verus! {

/// The shape of a request or response type, as registered for a method.
#[derive(Debug)]
pub enum TypeTag {
    /// The unit type; its only value is [`Value::Null`].
    Unit,
    /// A boolean.
    Bool,
    /// A signed integer.
    Int,
    /// A text string.
    Str,
    /// A success-or-error union: `ResultOf(ok, err)` accepts
    /// [`Value::ROk`] around a value of `ok` or [`Value::RErr`] around a
    /// value of `err`.
    ResultOf(Box<TypeTag>, Box<TypeTag>),
}

/// A payload value: the runtime representation of requests and responses.
#[derive(Debug)]
pub enum Value {
    /// The unit value.
    Null,
    /// A boolean.
    Bool(bool),
    /// A signed integer.
    Int(i64),
    /// A text string.
    Str(String),
    /// The success arm of a result.
    ROk(Box<Value>),
    /// The error arm of a result.
    RErr(Box<Value>),
}

/// The mathematical model of a [`Value`]: strings become character
/// sequences, so equality of models is decided by contents alone.
pub ghost enum Val {
    Null,
    Bool(bool),
    Int(i64),
    Str(Seq<char>),
    ROk(Box<Val>),
    RErr(Box<Val>),
}

impl View for Value {
    type V = Val;

    open spec fn view(&self) -> Val
        decreases self,
    {
        match self {
            Value::Null => Val::Null,
            Value::Bool(b) => Val::Bool(*b),
            Value::Int(i) => Val::Int(*i),
            Value::Str(s) => Val::Str(s@),
            Value::ROk(v) => Val::ROk(Box::new((**v)@)),
            Value::RErr(v) => Val::RErr(Box::new((**v)@)),
        }
    }
}

/// Whether a value model has the shape that a tag declares.
pub open spec fn spec_conforms(v: Val, t: TypeTag) -> bool
    decreases t,
{
    match t {
        TypeTag::Unit => v is Null,
        TypeTag::Bool => v is Bool,
        TypeTag::Int => v is Int,
        TypeTag::Str => v is Str,
        TypeTag::ResultOf(ok, err) => match v {
            Val::ROk(x) => spec_conforms(*x, *ok),
            Val::RErr(x) => spec_conforms(*x, *err),
            _ => false,
        },
    }
}

impl Clone for TypeTag {
    /// A clone is the same tag.
    fn clone(&self) -> (res: TypeTag)
        ensures
            res == *self,
        decreases self,
    {
        match self {
            TypeTag::Unit => TypeTag::Unit,
            TypeTag::Bool => TypeTag::Bool,
            TypeTag::Int => TypeTag::Int,
            TypeTag::Str => TypeTag::Str,
            TypeTag::ResultOf(ok, err) => TypeTag::ResultOf(
                Box::new((**ok).clone()),
                Box::new((**err).clone()),
            ),
        }
    }
}

impl PartialEq for TypeTag {
    /// Tags compare by structure.
    fn eq(&self, other: &TypeTag) -> (r: bool)
        decreases self,
    {
        match (self, other) {
            (TypeTag::Unit, TypeTag::Unit) => true,
            (TypeTag::Bool, TypeTag::Bool) => true,
            (TypeTag::Int, TypeTag::Int) => true,
            (TypeTag::Str, TypeTag::Str) => true,
            (TypeTag::ResultOf(a, b), TypeTag::ResultOf(c, d)) => (**a).eq(&**c) && (**b).eq(
                &**d,
            ),
            _ => false,
        }
    }
}

impl vstd::std_specs::cmp::PartialEqSpecImpl for TypeTag {
    open spec fn obeys_eq_spec() -> bool {
        true
    }

    open spec fn eq_spec(&self, other: &TypeTag) -> bool {
        *self == *other
    }
}

impl Eq for TypeTag {

}

impl Clone for Value {
    /// A clone is the same value.
    fn clone(&self) -> (res: Value)
        ensures
            res == *self,
        decreases self,
    {
        match self {
            Value::Null => Value::Null,
            Value::Bool(b) => Value::Bool(*b),
            Value::Int(i) => Value::Int(*i),
            Value::Str(s) => Value::Str(s.clone()),
            Value::ROk(v) => Value::ROk(Box::new((**v).clone())),
            Value::RErr(v) => Value::RErr(Box::new((**v).clone())),
        }
    }
}

impl PartialEq for Value {
    /// Values compare by contents: strings by their characters.
    fn eq(&self, other: &Value) -> (r: bool)
        decreases self,
    {
        match (self, other) {
            (Value::Null, Value::Null) => true,
            (Value::Bool(a), Value::Bool(b)) => *a == *b,
            (Value::Int(a), Value::Int(b)) => *a == *b,
            (Value::Str(a), Value::Str(b)) => *a == *b,
            (Value::ROk(a), Value::ROk(b)) => (**a).eq(&**b),
            (Value::RErr(a), Value::RErr(b)) => (**a).eq(&**b),
            _ => false,
        }
    }
}

impl vstd::std_specs::cmp::PartialEqSpecImpl for Value {
    open spec fn obeys_eq_spec() -> bool {
        true
    }

    open spec fn eq_spec(&self, other: &Value) -> bool {
        self@ == other@
    }
}

impl Eq for Value {

}

/// Checks a value against a tag: the decode and encode steps of dispatch.
pub fn conforms(v: &Value, t: &TypeTag) -> (r: bool)
    ensures
        r == spec_conforms(v@, *t),
    decreases *t,
{
    match t {
        TypeTag::Unit => matches!(v, Value::Null),
        TypeTag::Bool => matches!(v, Value::Bool(_)),
        TypeTag::Int => matches!(v, Value::Int(_)),
        TypeTag::Str => matches!(v, Value::Str(_)),
        TypeTag::ResultOf(ok, err) => match v {
            Value::ROk(x) => conforms(x, ok),
            Value::RErr(x) => conforms(x, err),
            _ => false,
        },
    }
}

} // verus!
