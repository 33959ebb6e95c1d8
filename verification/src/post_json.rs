//! The one-route-per-method binding: `POST /<method_name>` with JSON
//! bodies.
//!
//! The route table is derived from a method list in one traversal; binding
//! the routes to an HTTP server, and carrying requests over HTTP, are
//! transport concerns and happen outside the library.

use vstd::prelude::*;
use vstd::string::StrSliceExecFns;
use vstd::string::StringExecFns;

use crate::registry::Api;

verus! {

/// One route of the POST-JSON binding: the path serving one method.
#[derive(Debug)]
pub struct PostRoute {
    /// The route's path: a slash followed by the method's name.
    pub path: String,
    /// The method served under the path.
    pub method_name: String,
}

/// The model of a [`PostRoute`].
pub ghost struct PostRouteV {
    pub path: Seq<char>,
    pub method_name: Seq<char>,
}

impl View for PostRoute {
    type V = PostRouteV;

    open spec fn view(&self) -> PostRouteV {
        PostRouteV { path: self.path@, method_name: self.method_name@ }
    }
}

/// Builds the route table of an API: one route per method, in declaration
/// order, each serving `POST /<method_name>`.
pub fn mk_post_json_router(api: &Api) -> (r: Vec<PostRoute>)
    ensures
        r@.len() == api@.methods.len(),
        forall|i: int|
            0 <= i < api@.methods.len() ==> (#[trigger] r@[i])@.path == "/"@
                + api@.methods[i].name && r@[i]@.method_name == api@.methods[i].name,
{
    let n = api.methods.len();
    let mut routes: Vec<PostRoute> = Vec::new();
    let mut i: usize = 0;
    while i < n
        invariant
            n == api@.methods.len(),
            i <= n,
            routes@.len() == i,
            forall|j: int|
                0 <= j < i ==> (#[trigger] routes@[j])@.path == "/"@ + api@.methods[j].name
                    && routes@[j]@.method_name == api@.methods[j].name,
        decreases n - i,
    {
        let m = api.methods.get(i);
        let mut path = String::from_str("/");
        path.append(m.name.as_str());
        routes.push(PostRoute { path, method_name: m.name.clone() });
        i += 1;
    }
    routes
}

/// The same route table, under the name the axum-based binding uses.
pub fn mk_axum_router(api: &Api) -> (r: Vec<PostRoute>)
    ensures
        r@.len() == api@.methods.len(),
        forall|i: int|
            0 <= i < api@.methods.len() ==> (#[trigger] r@[i])@.path == "/"@
                + api@.methods[i].name && r@[i]@.method_name == api@.methods[i].name,
{
    mk_post_json_router(api)
}

/// Whether the text contains a scheme separator, which makes it usable as
/// a base URL that method paths can be joined onto.
pub open spec fn spec_has_scheme(s: Seq<char>) -> bool {
    exists|i: int| 0 <= i && i + 3 <= s.len() && (#[trigger] s.subrange(i, i + 3)) == "://"@
}

/// Looks for a scheme separator in the text.
fn has_scheme(s: &String) -> (r: bool)
    ensures
        r == spec_has_scheme(s@),
{
    let st = s.as_str();
    let n = st.unicode_len();
    if n < 3 {
        proof {
            reveal_strlit("://");
            assert("://"@.len() == 3);
        }
        return false;
    }
    let mut i: usize = 0;
    while i <= n - 3
        invariant
            n == s@.len(),
            3 <= n,
            i <= n,
            st@ == s@,
            forall|j: int|
                0 <= j < i ==> !((#[trigger] s@[j]) == ':' && s@[j + 1] == '/' && s@[j + 2] == '/'),
        decreases n - i,
    {
        if st.get_char(i) == ':' && st.get_char(i + 1) == '/' && st.get_char(i + 2) == '/' {
            proof {
                reveal_strlit("://");
                assert("://"@.len() == 3);
                let gi: int = i as int;
                assert(s@.subrange(gi, gi + 3) =~= "://"@);
            }
            return true;
        }
        i += 1;
    }
    proof {
        reveal_strlit("://");
        assert("://"@.len() == 3);
        assert forall|k: int| 0 <= k && k + 3 <= s@.len() implies (#[trigger] s@.subrange(k, k + 3))
            != "://"@ by {
            assert(!(s@[k] == ':' && s@[k + 1] == '/' && s@[k + 2] == '/'));
            if s@.subrange(k, k + 3) == "://"@ {
                assert(s@.subrange(k, k + 3)[0] == ':');
                assert(s@.subrange(k, k + 3)[1] == '/');
                assert(s@.subrange(k, k + 3)[2] == '/');
                assert(s@[k] == ':' && s@[k + 1] == '/' && s@[k + 2] == '/');
            }
        }
    }
    false
}

/// The client side of the POST-JSON binding: holds a fixed base URL and
/// derives the URL each typed call posts to. Carrying the request over
/// HTTP happens outside the library.
#[derive(Debug)]
pub struct PostJsonClient {
    /// The base URL method paths are joined onto.
    pub base_url: String,
}

impl PostJsonClient {
    /// A client for the given base URL; refused when the text has no
    /// scheme separator and so cannot serve as a base.
    pub fn new(base_url: String) -> (r: Option<PostJsonClient>)
        ensures
            r is Some <==> spec_has_scheme(base_url@),
            r matches Option::Some(c) ==> c.base_url@ == base_url@,
    {
        if has_scheme(&base_url) {
            Option::Some(PostJsonClient { base_url })
        } else {
            Option::None
        }
    }

    /// The URL one typed call posts to: the base URL, a slash, the
    /// method's name.
    pub fn route_url(&self, method_name: &String) -> (r: String)
        ensures
            r@ == self.base_url@ + "/"@ + method_name@,
    {
        let mut s = self.base_url.clone();
        s.append("/");
        s.append(method_name.as_str());
        proof {
            assert(s@ =~= self.base_url@ + "/"@ + method_name@);
        }
        s
    }
}

} // verus!
