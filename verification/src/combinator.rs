//! API and implementor combinators.
//!
//! Each combinator has two faces, kept structurally in sync: an API-shape
//! transform that reshapes the declared method list without changing method
//! count or names, and an implementor transform that redefines call
//! behaviour accordingly. All of them are stateless per-call transforms:
//! none synthesizes failure from success or success from failure beyond
//! what its contract states.

use vstd::prelude::*;

use crate::implementor::ImplsMethod;
use crate::registry::Api;
use crate::registry::clone_method_with_res;
use crate::registry::MethodList;
use crate::value::TypeTag;
use crate::value::Val;
use crate::value::Value;

verus! {

/// An error conversion: the value-level counterpart of a `From` conversion
/// between two error types.
pub trait ErrConvert: Sized {
    /// What the conversion yields on each error value.
    spec fn convert_model(&self, e: Val) -> Val;

    /// Converts one error value.
    fn convert(&self, e: Value) -> (r: Value)
        ensures
            r@ == self.convert_model(e@),
    ;
}

/// The composition of two error conversions: `first`, then `second`.
pub struct ErrConvertChain<C1, C2> {
    /// Applied first.
    pub first: C1,
    /// Applied to the result of `first`.
    pub second: C2,
}

impl<C1: ErrConvert, C2: ErrConvert> ErrConvert for ErrConvertChain<C1, C2> {
    open spec fn convert_model(&self, e: Val) -> Val {
        self.second.convert_model(self.first.convert_model(e))
    }

    fn convert(&self, e: Value) -> (r: Value) {
        self.second.convert(self.first.convert(e))
    }
}

/// A response with its error arm mapped through a conversion; the success
/// arm, and any response that is not a result, passes through unchanged.
pub open spec fn map_err_model<C: ErrConvert>(c: C, r: Val) -> Val {
    match r {
        Val::RErr(e) => Val::RErr(Box::new(c.convert_model(*e))),
        other => other,
    }
}

/// Maps the error arm of every response through a conversion.
///
/// Implementor face: calls the wrapped backend and converts the error arm
/// of its response; the success arm passes through unchanged. API face:
/// [`err_into_api`].
pub struct ErrInto<C, B> {
    /// The error conversion.
    pub conv: C,
    /// The wrapped backend.
    pub inner: B,
}

impl<C, B> ErrInto<C, B> {
    /// Wraps a backend with an error conversion.
    pub fn new(conv: C, inner: B) -> (r: ErrInto<C, B>)
        ensures
            r == (ErrInto { conv, inner }),
    {
        ErrInto { conv, inner }
    }
}

impl<C: ErrConvert, B: ImplsMethod> ImplsMethod for ErrInto<C, B> {
    open spec fn handles(&self, method: Seq<char>) -> bool {
        self.inner.handles(method)
    }

    open spec fn handler_result(&self, method: Seq<char>, req: Val) -> Val {
        map_err_model(self.conv, self.inner.handler_result(method, req))
    }

    open spec fn steps_to(&self, method: Seq<char>, req: Val, next: Self) -> bool {
        next.conv == self.conv && self.inner.steps_to(method, req, next.inner)
    }

    fn supports(&self, method: &String) -> (r: bool) {
        self.inner.supports(method)
    }

    fn call_api(&mut self, method: &String, req: Value) -> (res: Value) {
        let r = self.inner.call_api(method, req);
        match r {
            Value::RErr(e) => Value::RErr(Box::new(self.conv.convert(*e))),
            other => other,
        }
    }
}

/// A result response with its success payload discarded; the error arm, and
/// any response that is not a result, passes through unchanged.
pub open spec fn ignore_ok_model(r: Val) -> Val {
    match r {
        Val::ROk(_) => Val::ROk(Box::new(Val::Null)),
        other => other,
    }
}

/// Discards the success payload of every result response, keeping the
/// error arm untouched.
///
/// Implementor face: `Ok(r)` becomes `Ok(())`, `Err(e)` stays `Err(e)`.
/// API face: [`ignore_ok_api`].
#[derive(Clone)]
pub struct IgnoreOk<B>(pub B);

impl<B: ImplsMethod> ImplsMethod for IgnoreOk<B> {
    open spec fn handles(&self, method: Seq<char>) -> bool {
        self.0.handles(method)
    }

    open spec fn handler_result(&self, method: Seq<char>, req: Val) -> Val {
        ignore_ok_model(self.0.handler_result(method, req))
    }

    open spec fn steps_to(&self, method: Seq<char>, req: Val, next: Self) -> bool {
        self.0.steps_to(method, req, next.0)
    }

    fn supports(&self, method: &String) -> (r: bool) {
        self.0.supports(method)
    }

    fn call_api(&mut self, method: &String, req: Value) -> (res: Value) {
        let r = self.0.call_api(method, req);
        match r {
            Value::ROk(_) => {
                proof {
                    assert(Value::Null@ == Val::Null);
                }
                Value::ROk(Box::new(Value::Null))
            },
            other => other,
        }
    }
}

/// Discards every response entirely, errors included: the information loss
/// is intentional.
///
/// Implementor face: every call returns the unit value. API face:
/// [`ignore_res_api`].
#[derive(Clone)]
pub struct IgnoreRes<B>(pub B);

impl<B: ImplsMethod> ImplsMethod for IgnoreRes<B> {
    open spec fn handles(&self, method: Seq<char>) -> bool {
        self.0.handles(method)
    }

    open spec fn handler_result(&self, method: Seq<char>, req: Val) -> Val {
        Val::Null
    }

    open spec fn steps_to(&self, method: Seq<char>, req: Val, next: Self) -> bool {
        self.0.steps_to(method, req, next.0)
    }

    fn supports(&self, method: &String) -> (r: bool) {
        self.0.supports(method)
    }

    fn call_api(&mut self, method: &String, req: Value) -> (res: Value) {
        let _ = self.0.call_api(method, req);
        Value::Null
    }
}

/// Presents an infallible API in a fallible shape, for uniform composition.
///
/// Pure API combinator: [`WithErr::apply`] wraps every declared response
/// tag in a result whose error arm is `err`; no implementor face exists,
/// call behaviour is unchanged.
pub struct WithErr {
    /// The tag of the added error arm.
    pub err: TypeTag,
}

impl WithErr {
    /// Wraps an error tag.
    pub fn new(err: TypeTag) -> (r: WithErr)
        ensures
            r == (WithErr { err }),
    {
        WithErr { err }
    }

    /// The API face: every response tag `t` becomes `ResultOf(t, err)`;
    /// names, request tags, docs, order and method count are unchanged.
    pub fn apply(&self, api: &Api) -> (r: Api)
        ensures
            r@.name == api@.name,
            r@.version == api@.version,
            r@.docs == api@.docs,
            r@.methods.len() == api@.methods.len(),
            forall|i: int|
                0 <= i < api@.methods.len() ==> {
                    &&& (#[trigger] r@.methods[i]).name == api@.methods[i].name
                    &&& r@.methods[i].req == api@.methods[i].req
                    &&& r@.methods[i].docs == api@.methods[i].docs
                    &&& r@.methods[i].res == TypeTag::ResultOf(
                        Box::new(api@.methods[i].res),
                        Box::new(self.err),
                    )
                },
    {
        let n = api.methods.len();
        let mut methods = MethodList::new();
        let mut i: usize = 0;
        while i < n
            invariant
                n == api@.methods.len(),
                i <= n,
                methods@.len() == i,
                forall|j: int|
                    0 <= j < i ==> {
                        &&& (#[trigger] methods@[j]).name == api@.methods[j].name
                        &&& methods@[j].req == api@.methods[j].req
                        &&& methods@[j].docs == api@.methods[j].docs
                        &&& methods@[j].res == TypeTag::ResultOf(
                            Box::new(api@.methods[j].res),
                            Box::new(self.err),
                        )
                    },
            decreases n - i,
        {
            let m = api.methods.get(i);
            let res = TypeTag::ResultOf(Box::new(m.res.clone()), Box::new(self.err.clone()));
            methods.push(clone_method_with_res(m, res));
            i += 1;
        }
        Api {
            name: api.name.clone(),
            version: api.version.clone(),
            docs: match &api.docs {
                Option::Some(d) => Option::Some(d.clone()),
                Option::None => Option::None,
            },
            methods,
        }
    }
}

/// The API face of [`ErrInto`]: every result-shaped response tag keeps its
/// success arm and takes `err` as its error arm; a response tag that is not
/// result-shaped is unchanged, as are names, request tags, docs, order and
/// method count.
pub fn err_into_api(api: &Api, err: &TypeTag) -> (r: Api)
    ensures
        r@.name == api@.name,
        r@.version == api@.version,
        r@.docs == api@.docs,
        r@.methods.len() == api@.methods.len(),
        forall|i: int|
            0 <= i < api@.methods.len() ==> {
                &&& (#[trigger] r@.methods[i]).name == api@.methods[i].name
                &&& r@.methods[i].req == api@.methods[i].req
                &&& r@.methods[i].docs == api@.methods[i].docs
                &&& r@.methods[i].res == (match api@.methods[i].res {
                    TypeTag::ResultOf(ok, _) => TypeTag::ResultOf(ok, Box::new(*err)),
                    other => other,
                })
            },
{
    let n = api.methods.len();
    let mut methods = MethodList::new();
    let mut i: usize = 0;
    while i < n
        invariant
            n == api@.methods.len(),
            i <= n,
            methods@.len() == i,
            forall|j: int|
                0 <= j < i ==> {
                    &&& (#[trigger] methods@[j]).name == api@.methods[j].name
                    &&& methods@[j].req == api@.methods[j].req
                    &&& methods@[j].docs == api@.methods[j].docs
                    &&& methods@[j].res == (match api@.methods[j].res {
                        TypeTag::ResultOf(ok, _) => TypeTag::ResultOf(ok, Box::new(*err)),
                        other => other,
                    })
                },
        decreases n - i,
    {
        let m = api.methods.get(i);
        let res = match &m.res {
            TypeTag::ResultOf(ok, _) => TypeTag::ResultOf(
                Box::new((**ok).clone()),
                Box::new(err.clone()),
            ),
            other => other.clone(),
        };
        methods.push(clone_method_with_res(m, res));
        i += 1;
    }
    Api {
        name: api.name.clone(),
        version: api.version.clone(),
        docs: match &api.docs {
            Option::Some(d) => Option::Some(d.clone()),
            Option::None => Option::None,
        },
        methods,
    }
}

/// The API face of [`IgnoreOk`]: every result-shaped response tag keeps its
/// error arm and takes the unit tag as its success arm; a response tag that
/// is not result-shaped is unchanged, as are names, request tags, docs,
/// order and method count.
pub fn ignore_ok_api(api: &Api) -> (r: Api)
    ensures
        r@.name == api@.name,
        r@.version == api@.version,
        r@.docs == api@.docs,
        r@.methods.len() == api@.methods.len(),
        forall|i: int|
            0 <= i < api@.methods.len() ==> {
                &&& (#[trigger] r@.methods[i]).name == api@.methods[i].name
                &&& r@.methods[i].req == api@.methods[i].req
                &&& r@.methods[i].docs == api@.methods[i].docs
                &&& r@.methods[i].res == (match api@.methods[i].res {
                    TypeTag::ResultOf(_, err) => TypeTag::ResultOf(Box::new(TypeTag::Unit), err),
                    other => other,
                })
            },
{
    let n = api.methods.len();
    let mut methods = MethodList::new();
    let mut i: usize = 0;
    while i < n
        invariant
            n == api@.methods.len(),
            i <= n,
            methods@.len() == i,
            forall|j: int|
                0 <= j < i ==> {
                    &&& (#[trigger] methods@[j]).name == api@.methods[j].name
                    &&& methods@[j].req == api@.methods[j].req
                    &&& methods@[j].docs == api@.methods[j].docs
                    &&& methods@[j].res == (match api@.methods[j].res {
                        TypeTag::ResultOf(_, err) => TypeTag::ResultOf(
                            Box::new(TypeTag::Unit),
                            err,
                        ),
                        other => other,
                    })
                },
        decreases n - i,
    {
        let m = api.methods.get(i);
        let res = match &m.res {
            TypeTag::ResultOf(_, err) => TypeTag::ResultOf(
                Box::new(TypeTag::Unit),
                Box::new((**err).clone()),
            ),
            other => other.clone(),
        };
        methods.push(clone_method_with_res(m, res));
        i += 1;
    }
    Api {
        name: api.name.clone(),
        version: api.version.clone(),
        docs: match &api.docs {
            Option::Some(d) => Option::Some(d.clone()),
            Option::None => Option::None,
        },
        methods,
    }
}

/// The API face of [`IgnoreRes`]: every response tag becomes the unit tag;
/// names, request tags, docs, order and method count are unchanged.
pub fn ignore_res_api(api: &Api) -> (r: Api)
    ensures
        r@.name == api@.name,
        r@.version == api@.version,
        r@.docs == api@.docs,
        r@.methods.len() == api@.methods.len(),
        forall|i: int|
            0 <= i < api@.methods.len() ==> {
                &&& (#[trigger] r@.methods[i]).name == api@.methods[i].name
                &&& r@.methods[i].req == api@.methods[i].req
                &&& r@.methods[i].docs == api@.methods[i].docs
                &&& r@.methods[i].res == TypeTag::Unit
            },
{
    let n = api.methods.len();
    let mut methods = MethodList::new();
    let mut i: usize = 0;
    while i < n
        invariant
            n == api@.methods.len(),
            i <= n,
            methods@.len() == i,
            forall|j: int|
                0 <= j < i ==> {
                    &&& (#[trigger] methods@[j]).name == api@.methods[j].name
                    &&& methods@[j].req == api@.methods[j].req
                    &&& methods@[j].docs == api@.methods[j].docs
                    &&& methods@[j].res == TypeTag::Unit
                },
        decreases n - i,
    {
        let m = api.methods.get(i);
        methods.push(clone_method_with_res(m, TypeTag::Unit));
        i += 1;
    }
    Api {
        name: api.name.clone(),
        version: api.version.clone(),
        docs: match &api.docs {
            Option::Some(d) => Option::Some(d.clone()),
            Option::None => Option::None,
        },
        methods,
    }
}

/// Error-mapping composition is associative: layering a second conversion
/// over an [`ErrInto`] behaves, on every method and every request,
/// identically to a single [`ErrInto`] with the chained conversion.
pub proof fn lemma_err_into_chain<C1: ErrConvert, C2: ErrConvert, B: ImplsMethod>(
    c1: C1,
    c2: C2,
    b: B,
    method: Seq<char>,
    req: Val,
)
    ensures
        (ErrInto { conv: c2, inner: ErrInto { conv: c1, inner: b } }).handler_result(method, req)
            == (ErrInto {
            conv: ErrConvertChain { first: c1, second: c2 },
            inner: b,
        }).handler_result(method, req),
{
}

/// An [`IgnoreRes`] wrapper returns the unit value on every method and
/// every request, and never surfaces an error, whatever the wrapped
/// backend's response would have been; in particular its response always
/// conforms to the unit tag its API face declares.
pub proof fn lemma_ignore_res_unit<B: ImplsMethod>(b: B, method: Seq<char>, req: Val)
    ensures
        (IgnoreRes(b)).handler_result(method, req) == Val::Null,
        !((IgnoreRes(b)).handler_result(method, req) is RErr),
        crate::value::spec_conforms((IgnoreRes(b)).handler_result(method, req), TypeTag::Unit),
{
}

/// The two faces of [`IgnoreOk`] stay in sync: a response conforming to a
/// declared result tag is mapped to one conforming to the tag the API face
/// declares for the same method.
pub proof fn lemma_ignore_ok_shape(r: Val, t: TypeTag, e: TypeTag)
    requires
        crate::value::spec_conforms(r, TypeTag::ResultOf(Box::new(t), Box::new(e))),
    ensures
        crate::value::spec_conforms(
            ignore_ok_model(r),
            TypeTag::ResultOf(Box::new(TypeTag::Unit), Box::new(e)),
        ),
{
    if r is ROk {
        assert(crate::value::spec_conforms(Val::Null, TypeTag::Unit));
    }
}

/// The two faces of [`ErrInto`] stay in sync: when the conversion carries
/// values of the old error tag to the new one, a response conforming to
/// the declared result tag is mapped to one conforming to the tag the API
/// face declares for the same method.
pub proof fn lemma_err_into_shape<C: ErrConvert>(c: C, r: Val, t: TypeTag, e1: TypeTag, e2: TypeTag)
    requires
        crate::value::spec_conforms(r, TypeTag::ResultOf(Box::new(t), Box::new(e1))),
        forall|ev: Val|
            crate::value::spec_conforms(ev, e1) ==> crate::value::spec_conforms(
                #[trigger] c.convert_model(ev),
                e2,
            ),
    ensures
        crate::value::spec_conforms(
            map_err_model(c, r),
            TypeTag::ResultOf(Box::new(t), Box::new(e2)),
        ),
{
}

/// An [`IgnoreOk`] wrapper keeps the error arm of the wrapped response
/// untouched and turns every success arm into the unit success.
pub proof fn lemma_ignore_ok_err_preserved<B: ImplsMethod>(b: B, method: Seq<char>, req: Val)
    ensures
        b.handler_result(method, req) is RErr ==> (IgnoreOk(b)).handler_result(method, req)
            == b.handler_result(method, req),
        b.handler_result(method, req) is ROk ==> (IgnoreOk(b)).handler_result(method, req)
            == Val::ROk(Box::new(Val::Null)),
{
}

} // verus!
