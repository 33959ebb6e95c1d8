//! An OpenAPI description of an API.
//!
//! [`gen_openapi`] describes each method as `POST /<method_name>` with a
//! JSON request body and a JSON response: one traversal of the method list,
//! in declaration order, never invoking a handler. Serialising the
//! document is a transport concern and happens outside the library.

use vstd::prelude::*;

use crate::generate::spec_split_docs;
use crate::generate::split_docs;
use crate::registry::Api;
use crate::registry::MethodV;
use crate::value::TypeTag;

verus! {

/// The one POST operation a method maps to.
pub struct OpenApiOperation {
    /// The summary: the method's docs up to the first blank line.
    pub summary: Option<String>,
    /// The description: the method's docs after the first blank line.
    pub description: Option<String>,
    /// The schema of the required JSON request body, as a type tag.
    pub request_schema: TypeTag,
    /// The schema of the JSON response, as a type tag.
    pub response_schema: TypeTag,
}

/// The model of an [`OpenApiOperation`].
pub ghost struct OpenApiOperationV {
    pub summary: Option<Seq<char>>,
    pub description: Option<Seq<char>>,
    pub request_schema: TypeTag,
    pub response_schema: TypeTag,
}

impl View for OpenApiOperation {
    type V = OpenApiOperationV;

    open spec fn view(&self) -> OpenApiOperationV {
        OpenApiOperationV {
            summary: match self.summary {
                Option::Some(s) => Option::Some(s@),
                Option::None => Option::None,
            },
            description: match self.description {
                Option::Some(s) => Option::Some(s@),
                Option::None => Option::None,
            },
            request_schema: self.request_schema,
            response_schema: self.response_schema,
        }
    }
}

/// One path of the document: the method's name and its POST operation.
pub struct OpenApiPath {
    /// The path key: the method's name.
    pub path: String,
    /// The POST operation served under the path.
    pub operation: OpenApiOperation,
}

/// The model of an [`OpenApiPath`].
pub ghost struct OpenApiPathV {
    pub path: Seq<char>,
    pub operation: OpenApiOperationV,
}

impl View for OpenApiPath {
    type V = OpenApiPathV;

    open spec fn view(&self) -> OpenApiPathV {
        OpenApiPathV { path: self.path@, operation: self.operation@ }
    }
}

/// An OpenAPI document.
pub struct OpenApiDoc {
    /// The API's name.
    pub title: String,
    /// The API's version.
    pub version: String,
    /// The summary: the API's docs up to the first blank line.
    pub summary: Option<String>,
    /// The description: the API's docs after the first blank line.
    pub description: Option<String>,
    /// One path per method, in declaration order.
    pub paths: Vec<OpenApiPath>,
}

/// The model of an [`OpenApiDoc`].
pub ghost struct OpenApiDocV {
    pub title: Seq<char>,
    pub version: Seq<char>,
    pub summary: Option<Seq<char>>,
    pub description: Option<Seq<char>>,
    pub paths: Seq<OpenApiPathV>,
}

impl View for OpenApiDoc {
    type V = OpenApiDocV;

    open spec fn view(&self) -> OpenApiDocV {
        OpenApiDocV {
            title: self.title@,
            version: self.version@,
            summary: match self.summary {
                Option::Some(s) => Option::Some(s@),
                Option::None => Option::None,
            },
            description: match self.description {
                Option::Some(s) => Option::Some(s@),
                Option::None => Option::None,
            },
            paths: self.paths@.map_values(|p: OpenApiPath| p@),
        }
    }
}

/// The path entry one method descriptor yields: keyed by the method's
/// name, with its docs split into summary and description and its request
/// and response schemas.
pub open spec fn spec_openapi_path(m: MethodV) -> OpenApiPathV {
    let split = spec_split_docs(m.docs);
    OpenApiPathV {
        path: m.name,
        operation: OpenApiOperationV {
            summary: split.0,
            description: split.1,
            request_schema: m.req,
            response_schema: m.res,
        },
    }
}

/// Generates the OpenAPI document of an API: one traversal of the method
/// list, in declaration order.
pub fn gen_openapi(api: &Api) -> (r: OpenApiDoc)
    ensures
        r@.title == api@.name,
        r@.version == api@.version,
        (r@.summary, r@.description) == spec_split_docs(api@.docs),
        r@.paths.len() == api@.methods.len(),
        forall|i: int|
            0 <= i < api@.methods.len() ==> r@.paths[i] == spec_openapi_path(
                #[trigger] api@.methods[i],
            ),
{
    let n = api.methods.len();
    let mut paths: Vec<OpenApiPath> = Vec::new();
    let mut i: usize = 0;
    while i < n
        invariant
            n == api@.methods.len(),
            i <= n,
            paths@.len() == i,
            forall|j: int|
                0 <= j < i ==> paths@.map_values(|p: OpenApiPath| p@)[j] == spec_openapi_path(
                    #[trigger] api@.methods[j],
                ),
        decreases n - i,
    {
        let m = api.methods.get(i);
        let (summary, description) = split_docs(
            match &m.docs {
                Option::Some(d) => Option::Some(d.as_str()),
                Option::None => Option::None,
            },
        );
        let ghost prev = paths@.map_values(|p: OpenApiPath| p@);
        let entry = OpenApiPath {
            path: m.name.clone(),
            operation: OpenApiOperation {
                summary,
                description,
                request_schema: m.req.clone(),
                response_schema: m.res.clone(),
            },
        };
        paths.push(entry);
        proof {
            assert(paths@.map_values(|p: OpenApiPath| p@) =~= prev.push(
                spec_openapi_path(api@.methods[i as int]),
            ));
        }
        i += 1;
    }
    let (summary, description) = split_docs(
        match &api.docs {
            Option::Some(d) => Option::Some(d.as_str()),
            Option::None => Option::None,
        },
    );
    OpenApiDoc { title: api.name.clone(), version: api.version.clone(), summary, description, paths }
}

} // verus!
