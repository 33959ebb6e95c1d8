//! Functional composition of two APIs and of two backends.
//!
//! `Compose(G, H)` exposes H's method list; each H method's response feeds
//! the G method whose request tag matches that response tag, and the
//! composed call behaves as `g.call(h.call(req))`. The type correspondence
//! the layering demands is checked once, when the composition is built:
//! building fails fast on an H method whose response no G method accepts. `ComposeRes(G, H)` is the result-threading variant: H methods
//! return results, a success feeds G, and an H failure short-circuits — G
//! is never invoked and H's error is surfaced unchanged.

use vstd::prelude::*;

use crate::implementor::ImplsMethod;
use crate::registry::Api;
use crate::registry::MethodV;
use crate::value::TypeTag;
use crate::value::Val;
use crate::value::Value;

verus! {

/// One routing entry of a composition: calls of the H method named `from`
/// continue into the G method named `to`.
pub struct Route {
    /// The H-side method name.
    pub from: String,
    /// The G-side method name.
    pub to: String,
}

/// The model of a [`Route`].
pub ghost struct RouteV {
    pub from: Seq<char>,
    pub to: Seq<char>,
}

impl View for Route {
    type V = RouteV;

    open spec fn view(&self) -> RouteV {
        RouteV { from: self.from@, to: self.to@ }
    }
}

/// The model of a route table.
pub open spec fn routes_view(routes: Vec<Route>) -> Seq<RouteV> {
    routes@.map_values(|r: Route| r@)
}

/// The first route leaving `from`, if any.
pub open spec fn spec_route(routes: Seq<RouteV>, from: Seq<char>) -> Option<RouteV>
    decreases routes.len(),
{
    if routes.len() == 0 {
        Option::None
    } else if routes[0].from == from {
        Option::Some(routes[0])
    } else {
        spec_route(routes.subrange(1, routes.len() as int), from)
    }
}

/// Routing the `from` name of the entry at `i`, when no earlier entry
/// shares it, finds exactly that entry.
pub proof fn lemma_route_at(routes: Seq<RouteV>, i: int)
    requires
        0 <= i < routes.len(),
        forall|j: int| 0 <= j < i ==> routes[j].from != routes[i].from,
    ensures
        spec_route(routes, routes[i].from) == Option::Some(routes[i]),
    decreases routes.len(),
{
    if i > 0 {
        lemma_route_at(routes.subrange(1, routes.len() as int), i - 1);
    }
}

/// A name no entry leaves from is not routed.
pub proof fn lemma_route_none(routes: Seq<RouteV>, from: Seq<char>)
    requires
        forall|i: int| 0 <= i < routes.len() ==> routes[i].from != from,
    ensures
        spec_route(routes, from) is None,
    decreases routes.len(),
{
    if routes.len() > 0 {
        let rest = routes.subrange(1, routes.len() as int);
        assert(forall|i: int| 0 <= i < rest.len() ==> rest[i].from != from);
        lemma_route_none(rest, from);
    }
}

/// The first method of `gms` whose request tag equals `req`, if any: the
/// G method that a response of that tag feeds.
pub open spec fn spec_accepting(gms: Seq<MethodV>, req: TypeTag) -> Option<MethodV>
    decreases gms.len(),
{
    if gms.len() == 0 {
        Option::None
    } else if gms[0].req == req {
        Option::Some(gms[0])
    } else {
        spec_accepting(gms.subrange(1, gms.len() as int), req)
    }
}

/// Finding the accepting method at `i`, when no earlier method accepts the
/// same tag, finds exactly that method.
pub proof fn lemma_accepting_at(gms: Seq<MethodV>, i: int)
    requires
        0 <= i < gms.len(),
        forall|j: int| 0 <= j < i ==> gms[j].req != gms[i].req,
    ensures
        spec_accepting(gms, gms[i].req) == Option::Some(gms[i]),
    decreases gms.len(),
{
    if i > 0 {
        lemma_accepting_at(gms.subrange(1, gms.len() as int), i - 1);
    }
}

/// A tag no method accepts finds nothing.
pub proof fn lemma_accepting_none(gms: Seq<MethodV>, req: TypeTag)
    requires
        forall|i: int| 0 <= i < gms.len() ==> gms[i].req != req,
    ensures
        spec_accepting(gms, req) is None,
    decreases gms.len(),
{
    if gms.len() > 0 {
        let rest = gms.subrange(1, gms.len() as int);
        assert(forall|i: int| 0 <= i < rest.len() ==> rest[i].req != req);
        lemma_accepting_none(rest, req);
    }
}

/// Why building a composition failed.
pub enum ComposeError {
    /// No G method accepts the response tag of the named H method.
    NoMatchingMethod(String),
    /// The named H method's response tag is not result-shaped, which the
    /// result-threading variant requires.
    NotResultShaped(String),
}

/// Finds the first method of `gms` accepting `req`.
fn find_accepting(gms: &crate::registry::MethodList, req: &TypeTag) -> (r: Option<usize>)
    ensures
        match r {
            Option::Some(i) => i < gms@.len() && spec_accepting(gms@, *req) == Option::Some(
                gms@[i as int],
            ),
            Option::None => spec_accepting(gms@, *req) is None,
        },
{
    let n = gms.len();
    let mut i: usize = 0;
    while i < n
        invariant
            n == gms@.len(),
            i <= n,
            forall|j: int| 0 <= j < i ==> gms@[j].req != *req,
        decreases n - i,
    {
        if gms.get(i).req == *req {
            proof {
                lemma_accepting_at(gms@, i as int);
            }
            return Option::Some(i);
        }
        i += 1;
    }
    proof {
        lemma_accepting_none(gms@, *req);
    }
    Option::None
}

/// Whether, for every H method, some G method accepts its response tag.
pub open spec fn all_routable(gms: Seq<MethodV>, hms: Seq<MethodV>) -> bool {
    forall|i: int|
        0 <= i < hms.len() ==> spec_accepting(gms, (#[trigger] hms[i]).res) is Some
}

/// The route table a composition is built with: entry `i` leads from the
/// `i`-th H method to the first G method accepting its response tag.
pub open spec fn routes_model(gms: Seq<MethodV>, hms: Seq<MethodV>, routes: Seq<RouteV>) -> bool {
    &&& routes.len() == hms.len()
    &&& forall|i: int|
        0 <= i < hms.len() ==> (#[trigger] routes[i]).from == hms[i].name && routes[i].to
            == spec_accepting(gms, hms[i].res).unwrap().name
}

/// Builds the route table from H's methods into G's methods, pairing each
/// H method with the first G method whose request tag equals its response
/// tag. Fails fast on the first H method no G method accepts.
fn build_routes(api_g: &Api, api_h: &Api) -> (r: Result<Vec<Route>, ComposeError>)
    ensures
        r is Ok <==> all_routable(api_g@.methods, api_h@.methods),
        match r {
            Result::Ok(routes) => routes_model(api_g@.methods, api_h@.methods, routes_view(routes)),
            Result::Err(ComposeError::NoMatchingMethod(n)) => exists|i: int|
                0 <= i < api_h@.methods.len() && (#[trigger] api_h@.methods[i]).name == n@
                    && spec_accepting(api_g@.methods, api_h@.methods[i].res) is None,
            Result::Err(ComposeError::NotResultShaped(_)) => false,
        },
{
    let n = api_h.methods.len();
    let mut routes: Vec<Route> = Vec::new();
    let mut i: usize = 0;
    while i < n
        invariant
            n == api_h@.methods.len(),
            i <= n,
            routes_view(routes).len() == i,
            forall|j: int|
                0 <= j < i ==> spec_accepting(
                    api_g@.methods,
                    (#[trigger] api_h@.methods[j]).res,
                ) is Some,
            forall|j: int|
                0 <= j < i ==> (#[trigger] routes_view(routes)[j]).from == api_h@.methods[j].name
                    && routes_view(routes)[j].to == spec_accepting(
                    api_g@.methods,
                    api_h@.methods[j].res,
                ).unwrap().name,
        decreases n - i,
    {
        let hm = api_h.methods.get(i);
        match find_accepting(&api_g.methods, &hm.res) {
            Option::Some(k) => {
                let gm = api_g.methods.get(k);
                let ghost prev = routes_view(routes);
                routes.push(Route { from: hm.name.clone(), to: gm.name.clone() });
                proof {
                    assert(routes_view(routes) =~= prev.push(
                        RouteV { from: hm.name@, to: gm.name@ },
                    ));
                }
                i += 1;
            },
            Option::None => {
                let missing = hm.name.clone();
                proof {
                    let gi: int = i as int;
                    assert(api_h@.methods[gi].name == missing@);
                }
                return Result::Err(ComposeError::NoMatchingMethod(missing));
            },
        }
    }
    Result::Ok(routes)
}

/// Finds the first route leaving `from`.
fn route_for(routes: &Vec<Route>, from: &String) -> (r: Option<usize>)
    ensures
        match r {
            Option::Some(i) => i < routes@.len() && spec_route(routes_view(*routes), from@)
                == Option::Some(routes_view(*routes)[i as int]),
            Option::None => spec_route(routes_view(*routes), from@) is None,
        },
{
    let n = routes.len();
    let mut i: usize = 0;
    while i < n
        invariant
            n == routes@.len(),
            i <= n,
            forall|j: int| 0 <= j < i ==> routes_view(*routes)[j].from != from@,
        decreases n - i,
    {
        if routes[i].from == *from {
            proof {
                lemma_route_at(routes_view(*routes), i as int);
            }
            return Option::Some(i);
        }
        i += 1;
    }
    proof {
        lemma_route_none(routes_view(*routes), from@);
    }
    Option::None
}

/// Composes two backends: H's response feeds the G method routed by
/// response tag, and the composed call behaves as `g.call(h.call(req))`.
pub struct Compose<G, H> {
    /// The outer backend.
    pub g: G,
    /// The inner backend, called first.
    pub h: H,
    /// The route table built from the two API descriptors.
    pub routes: Vec<Route>,
}

impl<G: ImplsMethod, H: ImplsMethod> Compose<G, H> {
    /// Builds a composition of `g` over `h` for the given API pair,
    /// checking once that every H method's response tag is accepted by some
    /// G method. Fails fast on the first H method that is not.
    pub fn new(g: G, h: H, api_g: &Api, api_h: &Api) -> (r: Result<Compose<G, H>, ComposeError>)
        ensures
            r is Ok <==> all_routable(api_g@.methods, api_h@.methods),
            match r {
                Result::Ok(c) => c.g == g && c.h == h && routes_model(
                    api_g@.methods,
                    api_h@.methods,
                    routes_view(c.routes),
                ),
                Result::Err(ComposeError::NoMatchingMethod(n)) => exists|i: int|
                    0 <= i < api_h@.methods.len() && (#[trigger] api_h@.methods[i]).name == n@
                        && spec_accepting(api_g@.methods, api_h@.methods[i].res) is None,
                Result::Err(ComposeError::NotResultShaped(_)) => false,
            },
    {
        match build_routes(api_g, api_h) {
            Result::Ok(routes) => Result::Ok(Compose { g, h, routes }),
            Result::Err(e) => Result::Err(e),
        }
    }
}

impl<G: ImplsMethod, H: ImplsMethod> ImplsMethod for Compose<G, H> {
    open spec fn handles(&self, method: Seq<char>) -> bool {
        &&& self.h.handles(method)
        &&& match spec_route(routes_view(self.routes), method) {
            Option::Some(r) => self.g.handles(r.to),
            Option::None => false,
        }
    }

    open spec fn handler_result(&self, method: Seq<char>, req: Val) -> Val {
        let to = spec_route(routes_view(self.routes), method).unwrap().to;
        self.g.handler_result(to, self.h.handler_result(method, req))
    }

    open spec fn steps_to(&self, method: Seq<char>, req: Val, next: Self) -> bool {
        let to = spec_route(routes_view(self.routes), method).unwrap().to;
        &&& routes_view(next.routes) == routes_view(self.routes)
        &&& self.h.steps_to(method, req, next.h)
        &&& self.g.steps_to(to, self.h.handler_result(method, req), next.g)
    }

    fn supports(&self, method: &String) -> (r: bool) {
        if !self.h.supports(method) {
            return false;
        }
        match route_for(&self.routes, method) {
            Option::Some(i) => self.g.supports(&self.routes[i].to),
            Option::None => false,
        }
    }

    fn call_api(&mut self, method: &String, req: Value) -> (res: Value) {
        let i = route_for(&self.routes, method).unwrap();
        let to = self.routes[i].to.clone();
        let mid = self.h.call_api(method, req);
        self.g.call_api(&to, mid)
    }
}

/// The API face of [`Compose`]: the composed API carries H's name, version,
/// docs and method list, with each method's response tag replaced by the
/// response tag of the G method accepting it. Fails exactly when some H
/// method's response tag no G method accepts.
pub fn compose_api(api_g: &Api, api_h: &Api) -> (r: Result<Api, ComposeError>)
    ensures
        r is Ok <==> all_routable(api_g@.methods, api_h@.methods),
        match r {
            Result::Ok(api) => {
                &&& api@.name == api_h@.name
                &&& api@.version == api_h@.version
                &&& api@.docs == api_h@.docs
                &&& api@.methods.len() == api_h@.methods.len()
                &&& forall|i: int|
                    0 <= i < api_h@.methods.len() ==> {
                        &&& (#[trigger] api@.methods[i]).name == api_h@.methods[i].name
                        &&& api@.methods[i].req == api_h@.methods[i].req
                        &&& api@.methods[i].docs == api_h@.methods[i].docs
                        &&& api@.methods[i].res == spec_accepting(
                            api_g@.methods,
                            api_h@.methods[i].res,
                        ).unwrap().res
                    }
            },
            Result::Err(ComposeError::NoMatchingMethod(n)) => exists|i: int|
                0 <= i < api_h@.methods.len() && (#[trigger] api_h@.methods[i]).name == n@
                    && spec_accepting(api_g@.methods, api_h@.methods[i].res) is None,
            Result::Err(ComposeError::NotResultShaped(_)) => false,
        },
{
    let n = api_h.methods.len();
    let mut methods = crate::registry::MethodList::new();
    let mut i: usize = 0;
    while i < n
        invariant
            n == api_h@.methods.len(),
            i <= n,
            methods@.len() == i,
            forall|j: int|
                0 <= j < i ==> spec_accepting(
                    api_g@.methods,
                    (#[trigger] api_h@.methods[j]).res,
                ) is Some,
            forall|j: int|
                0 <= j < i ==> {
                    &&& (#[trigger] methods@[j]).name == api_h@.methods[j].name
                    &&& methods@[j].req == api_h@.methods[j].req
                    &&& methods@[j].docs == api_h@.methods[j].docs
                    &&& methods@[j].res == spec_accepting(
                        api_g@.methods,
                        api_h@.methods[j].res,
                    ).unwrap().res
                },
        decreases n - i,
    {
        let hm = api_h.methods.get(i);
        match find_accepting(&api_g.methods, &hm.res) {
            Option::Some(k) => {
                let gm = api_g.methods.get(k);
                methods.push(crate::registry::clone_method_with_res(hm, gm.res.clone()));
                i += 1;
            },
            Option::None => {
                let missing = hm.name.clone();
                proof {
                    let gi: int = i as int;
                    assert(api_h@.methods[gi].name == missing@);
                }
                return Result::Err(ComposeError::NoMatchingMethod(missing));
            },
        }
    }
    Result::Ok(Api {
        name: api_h.name.clone(),
        version: api_h.version.clone(),
        docs: match &api_h.docs {
            Option::Some(d) => Option::Some(d.clone()),
            Option::None => Option::None,
        },
        methods,
    })
}

/// Whether a tag is result-shaped.
pub open spec fn result_shaped(t: TypeTag) -> bool {
    t is ResultOf
}

/// The success arm of a result-shaped tag; any other tag is its own arm.
pub open spec fn ok_arm(t: TypeTag) -> TypeTag {
    match t {
        TypeTag::ResultOf(ok, _) => *ok,
        other => other,
    }
}

/// The error arm of a result-shaped tag; any other tag is its own arm.
pub open spec fn err_arm(t: TypeTag) -> TypeTag {
    match t {
        TypeTag::ResultOf(_, err) => *err,
        other => other,
    }
}

/// Whether every H method returns a result whose success arm some G method
/// accepts: the condition the result-threading composition is built under.
pub open spec fn all_routable_res(gms: Seq<MethodV>, hms: Seq<MethodV>) -> bool {
    forall|i: int|
        0 <= i < hms.len() ==> result_shaped((#[trigger] hms[i]).res) && spec_accepting(
            gms,
            ok_arm(hms[i].res),
        ) is Some
}

/// The route table of a result-threading composition: entry `i` leads from
/// the `i`-th H method to the first G method accepting the success arm of
/// its response tag.
pub open spec fn routes_model_res(gms: Seq<MethodV>, hms: Seq<MethodV>, routes: Seq<RouteV>) -> bool {
    &&& routes.len() == hms.len()
    &&& forall|i: int|
        0 <= i < hms.len() ==> (#[trigger] routes[i]).from == hms[i].name && routes[i].to
            == spec_accepting(gms, ok_arm(hms[i].res)).unwrap().name
}

/// Builds the route table of a result-threading composition. Fails fast on
/// the first H method whose response tag is not result-shaped, or whose
/// success arm no G method accepts.
fn build_routes_res(api_g: &Api, api_h: &Api) -> (r: Result<Vec<Route>, ComposeError>)
    ensures
        r is Ok <==> all_routable_res(api_g@.methods, api_h@.methods),
        match r {
            Result::Ok(routes) => routes_model_res(
                api_g@.methods,
                api_h@.methods,
                routes_view(routes),
            ),
            Result::Err(ComposeError::NoMatchingMethod(n)) => exists|i: int|
                0 <= i < api_h@.methods.len() && (#[trigger] api_h@.methods[i]).name == n@
                    && result_shaped(api_h@.methods[i].res) && spec_accepting(
                    api_g@.methods,
                    ok_arm(api_h@.methods[i].res),
                ) is None,
            Result::Err(ComposeError::NotResultShaped(n)) => exists|i: int|
                0 <= i < api_h@.methods.len() && (#[trigger] api_h@.methods[i]).name == n@
                    && !result_shaped(api_h@.methods[i].res),
        },
{
    let n = api_h.methods.len();
    let mut routes: Vec<Route> = Vec::new();
    let mut i: usize = 0;
    while i < n
        invariant
            n == api_h@.methods.len(),
            i <= n,
            routes_view(routes).len() == i,
            forall|j: int|
                0 <= j < i ==> result_shaped((#[trigger] api_h@.methods[j]).res) && spec_accepting(
                    api_g@.methods,
                    ok_arm(api_h@.methods[j].res),
                ) is Some,
            forall|j: int|
                0 <= j < i ==> (#[trigger] routes_view(routes)[j]).from == api_h@.methods[j].name
                    && routes_view(routes)[j].to == spec_accepting(
                    api_g@.methods,
                    ok_arm(api_h@.methods[j].res),
                ).unwrap().name,
        decreases n - i,
    {
        let hm = api_h.methods.get(i);
        match &hm.res {
            TypeTag::ResultOf(ok, _) => {
                match find_accepting(&api_g.methods, ok) {
                    Option::Some(k) => {
                        let gm = api_g.methods.get(k);
                        let ghost prev = routes_view(routes);
                        routes.push(Route { from: hm.name.clone(), to: gm.name.clone() });
                        proof {
                            assert(routes_view(routes) =~= prev.push(
                                RouteV { from: hm.name@, to: gm.name@ },
                            ));
                        }
                        i += 1;
                    },
                    Option::None => {
                        let missing = hm.name.clone();
                        proof {
                            let gi: int = i as int;
                            assert(api_h@.methods[gi].name == missing@);
                        }
                        return Result::Err(ComposeError::NoMatchingMethod(missing));
                    },
                }
            },
            _ => {
                let missing = hm.name.clone();
                proof {
                    let gi: int = i as int;
                    assert(api_h@.methods[gi].name == missing@);
                }
                return Result::Err(ComposeError::NotResultShaped(missing));
            },
        }
    }
    Result::Ok(routes)
}

/// The result-threading composition: H's methods return results, a success
/// feeds G, and an H failure short-circuits with G never invoked.
pub struct ComposeRes<G, H> {
    /// The outer backend, reached only on H's success.
    pub g: G,
    /// The inner backend, called first.
    pub h: H,
    /// The route table built from the two API descriptors.
    pub routes: Vec<Route>,
}

impl<G: ImplsMethod, H: ImplsMethod> ComposeRes<G, H> {
    /// Builds a result-threading composition of `g` over `h` for the given
    /// API pair, checking once that every H method returns a result whose
    /// success arm some G method accepts.
    pub fn new(g: G, h: H, api_g: &Api, api_h: &Api) -> (r: Result<ComposeRes<G, H>, ComposeError>)
        ensures
            r is Ok <==> all_routable_res(api_g@.methods, api_h@.methods),
            r matches Result::Ok(c) ==> c.g == g && c.h == h && routes_model_res(
                api_g@.methods,
                api_h@.methods,
                routes_view(c.routes),
            ),
    {
        match build_routes_res(api_g, api_h) {
            Result::Ok(routes) => Result::Ok(ComposeRes { g, h, routes }),
            Result::Err(e) => Result::Err(e),
        }
    }
}

impl<G: ImplsMethod, H: ImplsMethod> ImplsMethod for ComposeRes<G, H> {
    open spec fn handles(&self, method: Seq<char>) -> bool {
        &&& self.h.handles(method)
        &&& match spec_route(routes_view(self.routes), method) {
            Option::Some(r) => self.g.handles(r.to),
            Option::None => false,
        }
    }

    open spec fn handler_result(&self, method: Seq<char>, req: Val) -> Val {
        let to = spec_route(routes_view(self.routes), method).unwrap().to;
        match self.h.handler_result(method, req) {
            Val::ROk(v) => Val::ROk(Box::new(self.g.handler_result(to, *v))),
            other => other,
        }
    }

    open spec fn steps_to(&self, method: Seq<char>, req: Val, next: Self) -> bool {
        let to = spec_route(routes_view(self.routes), method).unwrap().to;
        &&& routes_view(next.routes) == routes_view(self.routes)
        &&& self.h.steps_to(method, req, next.h)
        &&& match self.h.handler_result(method, req) {
            Val::ROk(v) => self.g.steps_to(to, *v, next.g),
            _ => next.g == self.g,
        }
    }

    fn supports(&self, method: &String) -> (r: bool) {
        if !self.h.supports(method) {
            return false;
        }
        match route_for(&self.routes, method) {
            Option::Some(i) => self.g.supports(&self.routes[i].to),
            Option::None => false,
        }
    }

    fn call_api(&mut self, method: &String, req: Value) -> (res: Value) {
        let i = route_for(&self.routes, method).unwrap();
        let to = self.routes[i].to.clone();
        let mid = self.h.call_api(method, req);
        match mid {
            Value::ROk(v) => {
                let gres = self.g.call_api(&to, *v);
                Value::ROk(Box::new(gres))
            },
            other => other,
        }
    }
}

/// The API face of [`ComposeRes`]: the composed API carries H's name,
/// version, docs and method list; each H method's `ResultOf(ok, err)`
/// response becomes `ResultOf(g_res, err)`, where `g_res` is the response
/// tag of the G method accepting `ok`.
pub fn compose_res_api(api_g: &Api, api_h: &Api) -> (r: Result<Api, ComposeError>)
    ensures
        r is Ok <==> all_routable_res(api_g@.methods, api_h@.methods),
        r matches Result::Ok(api) ==> {
            &&& api@.name == api_h@.name
            &&& api@.version == api_h@.version
            &&& api@.docs == api_h@.docs
            &&& api@.methods.len() == api_h@.methods.len()
            &&& forall|i: int|
                0 <= i < api_h@.methods.len() ==> {
                    &&& (#[trigger] api@.methods[i]).name == api_h@.methods[i].name
                    &&& api@.methods[i].req == api_h@.methods[i].req
                    &&& api@.methods[i].docs == api_h@.methods[i].docs
                    &&& api@.methods[i].res == TypeTag::ResultOf(
                        Box::new(
                            spec_accepting(
                                api_g@.methods,
                                ok_arm(api_h@.methods[i].res),
                            ).unwrap().res,
                        ),
                        Box::new(err_arm(api_h@.methods[i].res)),
                    )
                }
        },
{
    let n = api_h.methods.len();
    let mut methods = crate::registry::MethodList::new();
    let mut i: usize = 0;
    while i < n
        invariant
            n == api_h@.methods.len(),
            i <= n,
            methods@.len() == i,
            forall|j: int|
                0 <= j < i ==> result_shaped((#[trigger] api_h@.methods[j]).res) && spec_accepting(
                    api_g@.methods,
                    ok_arm(api_h@.methods[j].res),
                ) is Some,
            forall|j: int|
                0 <= j < i ==> {
                    &&& (#[trigger] methods@[j]).name == api_h@.methods[j].name
                    &&& methods@[j].req == api_h@.methods[j].req
                    &&& methods@[j].docs == api_h@.methods[j].docs
                    &&& methods@[j].res == TypeTag::ResultOf(
                        Box::new(
                            spec_accepting(
                                api_g@.methods,
                                ok_arm(api_h@.methods[j].res),
                            ).unwrap().res,
                        ),
                        Box::new(err_arm(api_h@.methods[j].res)),
                    )
                },
        decreases n - i,
    {
        let hm = api_h.methods.get(i);
        match &hm.res {
            TypeTag::ResultOf(ok, err) => {
                match find_accepting(&api_g.methods, ok) {
                    Option::Some(k) => {
                        let gm = api_g.methods.get(k);
                        let res = TypeTag::ResultOf(
                            Box::new(gm.res.clone()),
                            Box::new((**err).clone()),
                        );
                        methods.push(crate::registry::clone_method_with_res(hm, res));
                        i += 1;
                    },
                    Option::None => {
                        let missing = hm.name.clone();
                        proof {
                            let gi: int = i as int;
                            assert(api_h@.methods[gi].name == missing@);
                        }
                        return Result::Err(ComposeError::NoMatchingMethod(missing));
                    },
                }
            },
            _ => {
                let missing = hm.name.clone();
                proof {
                    let gi: int = i as int;
                    assert(api_h@.methods[gi].name == missing@);
                }
                return Result::Err(ComposeError::NotResultShaped(missing));
            },
        }
    }
    Result::Ok(Api {
        name: api_h.name.clone(),
        version: api_h.version.clone(),
        docs: match &api_h.docs {
            Option::Some(d) => Option::Some(d.clone()),
            Option::None => Option::None,
        },
        methods,
    })
}

/// Short circuit: when H's response is an error, the composed response is
/// exactly that error, and no step the composition takes touches G.
pub proof fn lemma_compose_res_short_circuit<G: ImplsMethod, H: ImplsMethod>(
    c: ComposeRes<G, H>,
    method: Seq<char>,
    req: Val,
    next: ComposeRes<G, H>,
)
    requires
        c.h.handler_result(method, req) is RErr,
    ensures
        c.handler_result(method, req) == c.h.handler_result(method, req),
        c.steps_to(method, req, next) ==> next.g == c.g,
{
}

/// Threading: when H's response is a success, the composed response wraps
/// G's response to the success payload, routed by the success arm's tag.
pub proof fn lemma_compose_res_success<G: ImplsMethod, H: ImplsMethod>(
    c: ComposeRes<G, H>,
    method: Seq<char>,
    req: Val,
)
    requires
        c.h.handler_result(method, req) is ROk,
    ensures
        c.handler_result(method, req) == Val::ROk(
            Box::new(
                c.g.handler_result(
                    spec_route(routes_view(c.routes), method).unwrap().to,
                    *c.h.handler_result(method, req)->ROk_0,
                ),
            ),
        ),
{
}

/// Composition law: on every method and every request, the composed
/// backend's response is G's response to H's response, routed by response
/// tag.
pub proof fn lemma_compose_call<G: ImplsMethod, H: ImplsMethod>(
    c: Compose<G, H>,
    method: Seq<char>,
    req: Val,
)
    requires
        spec_route(routes_view(c.routes), method) is Some,
    ensures
        c.handler_result(method, req) == c.g.handler_result(
            spec_route(routes_view(c.routes), method).unwrap().to,
            c.h.handler_result(method, req),
        ),
{
}

} // verus!
