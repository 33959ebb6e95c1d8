//! The runtime dispatch table.
//!
//! A [`DispatchTable`] is built once from an API descriptor and an
//! implementor. Building fails fast on a duplicate method name or on a
//! method the implementor has no handler for. Dispatching looks a method up
//! by exact name, checks the payload against the method's request tag
//! (failure: [`DispatchError::InvalidParams`], the handler is not invoked),
//! invokes the handler, and checks the response against the response tag
//! (failure: [`DispatchError::SerializationError`]). An unknown name yields
//! [`DispatchError::MethodNotFound`]. Dispatch is total: every name yields
//! exactly one handled method or a `MethodNotFound`.

use vstd::prelude::*;

use crate::implementor::ImplsMethod;
use crate::registry::Api;
use crate::registry::MethodList;
use crate::registry::MethodV;
use crate::registry::lemma_lookup_some;
use crate::registry::names_unique;
use crate::registry::spec_has_name;
use crate::registry::spec_lookup;
use crate::value::Val;
use crate::value::Value;
use crate::value::conforms;
use crate::value::spec_conforms;

verus! {

/// Why a dispatch failed. A domain error a handler returns inside its
/// response is not a dispatch failure and passes through untouched.
#[derive(Debug)]
pub enum DispatchError {
    /// The name matches no method of the table.
    MethodNotFound(String),
    /// The payload does not conform to the method's request tag; the
    /// handler was not invoked.
    InvalidParams,
    /// The handler's response does not conform to the method's response
    /// tag.
    SerializationError,
}

/// The model of a [`DispatchError`].
pub ghost enum DispatchErrorV {
    MethodNotFound(Seq<char>),
    InvalidParams,
    SerializationError,
}

impl View for DispatchError {
    type V = DispatchErrorV;

    open spec fn view(&self) -> DispatchErrorV {
        match self {
            DispatchError::MethodNotFound(n) => DispatchErrorV::MethodNotFound(n@),
            DispatchError::InvalidParams => DispatchErrorV::InvalidParams,
            DispatchError::SerializationError => DispatchErrorV::SerializationError,
        }
    }
}

/// Why building a dispatch table failed.
#[derive(Debug)]
pub enum RegistryError {
    /// Two methods of the API share this name.
    DuplicateName(String),
    /// The implementor has no handler for this method name.
    MissingHandler(String),
}

/// What dispatching `name` with `payload` against `methods`, backed by `b`,
/// returns.
pub open spec fn dispatch_model<B: ImplsMethod>(
    methods: Seq<MethodV>,
    b: B,
    name: Seq<char>,
    payload: Val,
) -> Result<Val, DispatchErrorV> {
    match spec_lookup(methods, name) {
        Option::None => Result::Err(DispatchErrorV::MethodNotFound(name)),
        Option::Some(m) => if !spec_conforms(payload, m.req) {
            Result::Err(DispatchErrorV::InvalidParams)
        } else {
            let r = b.handler_result(name, payload);
            if spec_conforms(r, m.res) {
                Result::Ok(r)
            } else {
                Result::Err(DispatchErrorV::SerializationError)
            }
        },
    }
}

/// Whether dispatching `name` with `payload` reaches the handler: the name
/// is known and the payload conforms to the request tag.
pub open spec fn handler_invoked(methods: Seq<MethodV>, name: Seq<char>, payload: Val) -> bool {
    match spec_lookup(methods, name) {
        Option::None => false,
        Option::Some(m) => spec_conforms(payload, m.req),
    }
}

/// Whether an executable dispatch outcome carries the modelled outcome.
pub open spec fn outcome_matches(
    r: Result<Value, DispatchError>,
    m: Result<Val, DispatchErrorV>,
) -> bool {
    match (r, m) {
        (Result::Ok(v), Result::Ok(mv)) => v@ == mv,
        (Result::Err(e), Result::Err(me)) => e@ == me,
        _ => false,
    }
}

/// The runtime routing structure for one (API, implementor) pair: exactly
/// the methods of the API's method list, validated once at build time and
/// immutable afterwards.
pub struct DispatchTable {
    api: Api,
}

/// The model of a [`DispatchTable`].
pub ghost struct DispatchTableV {
    pub api_name: Seq<char>,
    pub api_version: Seq<char>,
    pub methods: Seq<MethodV>,
}

impl View for DispatchTable {
    type V = DispatchTableV;

    closed spec fn view(&self) -> DispatchTableV {
        DispatchTableV {
            api_name: self.api@.name,
            api_version: self.api@.version,
            methods: self.api@.methods,
        }
    }
}

/// Whether `b` supplies a handler for every method of `methods`.
pub open spec fn all_handled<B: ImplsMethod>(methods: Seq<MethodV>, b: B) -> bool {
    forall|i: int| 0 <= i < methods.len() ==> b.handles(#[trigger] methods[i].name)
}

impl DispatchTable {
    /// Builds the table for one (API, implementor) pair by traversing the
    /// method list once. Fails fast on the first duplicate method name, then
    /// on the first method the implementor has no handler for; succeeds
    /// exactly when names are unique and every method has a handler.
    pub fn build<B: ImplsMethod>(api: Api, b: &B) -> (r: Result<DispatchTable, RegistryError>)
        ensures
            r is Ok <==> names_unique(api@.methods) && all_handled(api@.methods, *b),
            match r {
                Result::Ok(t) => t@.methods == api@.methods && t@.api_name == api@.name
                    && t@.api_version == api@.version,
                Result::Err(RegistryError::DuplicateName(n)) => !names_unique(api@.methods)
                    && exists|i: int, j: int|
                        0 <= i < j < api@.methods.len() && api@.methods[i].name == n@
                            && api@.methods[j].name == n@,
                Result::Err(RegistryError::MissingHandler(n)) => names_unique(api@.methods)
                    && spec_has_name(api@.methods, n@) && !b.handles(n@),
            },
    {
        if let Option::Some(dup) = api.methods.first_duplicate() {
            return Result::Err(RegistryError::DuplicateName(dup));
        }
        let n = api.methods.len();
        let mut i: usize = 0;
        while i < n
            invariant
                names_unique(api@.methods),
                n == api@.methods.len(),
                i <= n,
                forall|j: int| 0 <= j < i ==> b.handles(#[trigger] api@.methods[j].name),
            decreases n - i,
        {
            let m = api.methods.get(i);
            if !b.supports(&m.name) {
                let missing = m.name.clone();
                proof {
                    let gi: int = i as int;
                    assert(api@.methods[gi].name == missing@);
                    assert(spec_has_name(api@.methods, missing@));
                    assert(!all_handled(api@.methods, *b));
                }
                return Result::Err(RegistryError::MissingHandler(missing));
            }
            i += 1;
        }
        Result::Ok(DispatchTable { api })
    }

    /// The name of the API this table was built from.
    pub fn api_name(&self) -> (r: &String)
        ensures
            r@ == self@.api_name,
    {
        &self.api.name
    }

    /// The version of the API this table was built from.
    pub fn api_version(&self) -> (r: &String)
        ensures
            r@ == self@.api_version,
    {
        &self.api.version
    }

    /// The methods of the table: exactly the API's method list.
    pub fn methods(&self) -> (r: &MethodList)
        ensures
            r@ == self@.methods,
    {
        &self.api.methods
    }

    /// Routes one call: exact-name lookup, decode, invoke, encode.
    ///
    /// On `MethodNotFound` and `InvalidParams` the handler is not invoked
    /// and the backend is untouched.
    pub fn dispatch<B: ImplsMethod>(&self, b: &mut B, name: &String, payload: Value) -> (r: Result<
        Value,
        DispatchError,
    >)
        requires
            all_handled(self@.methods, *old(b)),
        ensures
            outcome_matches(r, dispatch_model(self@.methods, *old(b), name@, payload@)),
            handler_invoked(self@.methods, name@, payload@) ==> old(b).steps_to(
                name@,
                payload@,
                *final(b),
            ),
            !handler_invoked(self@.methods, name@, payload@) ==> *final(b) == *old(b),
            forall|m: Seq<char>| #[trigger] final(b).handles(m) == old(b).handles(m),
            all_handled(self@.methods, *final(b)),
    {
        match self.api.methods.index_of(name) {
            Option::None => Result::Err(DispatchError::MethodNotFound(name.clone())),
            Option::Some(i) => {
                let m = self.api.methods.get(i);
                if !conforms(&payload, &m.req) {
                    Result::Err(DispatchError::InvalidParams)
                } else {
                    let res = b.call_api(name, payload);
                    if conforms(&res, &m.res) {
                        Result::Ok(res)
                    } else {
                        Result::Err(DispatchError::SerializationError)
                    }
                }
            },
        }
    }
}

/// Dispatching an unknown name reports exactly `MethodNotFound` with that
/// name, whatever the payload holds and whatever state the backend is in.
pub proof fn lemma_dispatch_unknown_name<B: ImplsMethod>(
    methods: Seq<MethodV>,
    b: B,
    name: Seq<char>,
    payload: Val,
)
    requires
        !spec_has_name(methods, name),
    ensures
        dispatch_model(methods, b, name, payload) == Result::<Val, DispatchErrorV>::Err(
            DispatchErrorV::MethodNotFound(name),
        ),
{
    lemma_lookup_some(methods, name);
}

/// Dispatching a known name with a payload that does not conform to the
/// method's request tag reports exactly `InvalidParams`; the executable
/// dispatch additionally leaves the backend untouched, so the handler has
/// no side effects on malformed input.
pub proof fn lemma_dispatch_malformed<B: ImplsMethod>(
    methods: Seq<MethodV>,
    b: B,
    name: Seq<char>,
    payload: Val,
)
    requires
        spec_lookup(methods, name) is Some,
        !spec_conforms(payload, spec_lookup(methods, name).unwrap().req),
    ensures
        dispatch_model(methods, b, name, payload) == Result::<Val, DispatchErrorV>::Err(
            DispatchErrorV::InvalidParams,
        ),
        !handler_invoked(methods, name, payload),
{
}

/// Dispatch is total: every name yields either a routed outcome or
/// `MethodNotFound`, and a known name never reports `MethodNotFound`.
pub proof fn lemma_dispatch_total<B: ImplsMethod>(
    methods: Seq<MethodV>,
    b: B,
    name: Seq<char>,
    payload: Val,
)
    ensures
        spec_has_name(methods, name) <==> !(dispatch_model(methods, b, name, payload)
            matches Result::Err(DispatchErrorV::MethodNotFound(_))),
{
    lemma_lookup_some(methods, name);
}

/// Round trip: for a known method and a payload conforming to its request
/// tag, dispatch returns exactly the handler's response. The hypothesis
/// that the response conforms to the declared response tag is the
/// implementor's side of the bargain: a handler must resolve to its
/// method's declared response type; a response outside it is reported as a
/// serialization failure rather than returned.
pub proof fn lemma_dispatch_round_trip<B: ImplsMethod>(
    methods: Seq<MethodV>,
    b: B,
    name: Seq<char>,
    payload: Val,
)
    requires
        spec_lookup(methods, name) is Some,
        spec_conforms(payload, spec_lookup(methods, name).unwrap().req),
        spec_conforms(b.handler_result(name, payload), spec_lookup(methods, name).unwrap().res),
    ensures
        dispatch_model(methods, b, name, payload) == Result::<Val, DispatchErrorV>::Ok(
            b.handler_result(name, payload),
        ),
{
}

} // verus!
