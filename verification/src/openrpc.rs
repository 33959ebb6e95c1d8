//! An OpenRPC description of an API.
//!
//! [`gen_openrpc`] traverses a method list once and produces a document
//! describing each method's name, documentation and request/response
//! schemas; it never invokes handlers. Serialising the document is a
//! transport concern and happens outside the library.

use vstd::prelude::*;
use vstd::string::StringExecFns;

use crate::generate::spec_split_docs;
use crate::generate::split_docs;
use crate::registry::Api;
use crate::registry::MethodV;
use crate::value::TypeTag;

verus! {

/// How a method's parameters are passed.
#[derive(Clone, Copy, PartialEq, Eq, Structural)]
pub enum ParamStructure {
    /// By parameter name.
    ByName,
    /// By position.
    ByPosition,
    /// Either way.
    Either,
}

/// Describes one piece of content: a parameter or a result.
pub struct ContentDescriptor {
    /// The content's name.
    pub name: String,
    /// A one-line summary.
    pub summary: Option<String>,
    /// A longer description.
    pub description: Option<String>,
    /// Whether the content is required.
    pub required: bool,
    /// The schema of the content, as a type tag.
    pub schema: TypeTag,
}

/// The model of a [`ContentDescriptor`].
pub ghost struct ContentDescriptorV {
    pub name: Seq<char>,
    pub summary: Option<Seq<char>>,
    pub description: Option<Seq<char>>,
    pub required: bool,
    pub schema: TypeTag,
}

impl View for ContentDescriptor {
    type V = ContentDescriptorV;

    open spec fn view(&self) -> ContentDescriptorV {
        ContentDescriptorV {
            name: self.name@,
            summary: match self.summary {
                Option::Some(s) => Option::Some(s@),
                Option::None => Option::None,
            },
            description: match self.description {
                Option::Some(s) => Option::Some(s@),
                Option::None => Option::None,
            },
            required: self.required,
            schema: self.schema,
        }
    }
}

/// Describes one method of the API.
pub struct OpenRpcMethodDoc {
    /// The method's name.
    pub name: String,
    /// The summary: the method's docs up to the first blank line.
    pub summary: Option<String>,
    /// The description: the method's docs after the first blank line.
    pub description: Option<String>,
    /// The single payload parameter.
    pub params: Vec<ContentDescriptor>,
    /// The result.
    pub result: Option<ContentDescriptor>,
    /// How parameters are passed: always by name.
    pub param_structure: ParamStructure,
}

/// The model of an [`OpenRpcMethodDoc`].
pub ghost struct OpenRpcMethodDocV {
    pub name: Seq<char>,
    pub summary: Option<Seq<char>>,
    pub description: Option<Seq<char>>,
    pub params: Seq<ContentDescriptorV>,
    pub result: Option<ContentDescriptorV>,
    pub param_structure: ParamStructure,
}

impl View for OpenRpcMethodDoc {
    type V = OpenRpcMethodDocV;

    open spec fn view(&self) -> OpenRpcMethodDocV {
        OpenRpcMethodDocV {
            name: self.name@,
            summary: match self.summary {
                Option::Some(s) => Option::Some(s@),
                Option::None => Option::None,
            },
            description: match self.description {
                Option::Some(s) => Option::Some(s@),
                Option::None => Option::None,
            },
            params: self.params@.map_values(|c: ContentDescriptor| c@),
            result: match &self.result {
                Option::Some(c) => Option::Some(c@),
                Option::None => Option::None,
            },
            param_structure: self.param_structure,
        }
    }
}

/// The document's self-description: API title, version, docs.
pub struct OpenRpcInfo {
    /// The API's name.
    pub title: String,
    /// The API's version.
    pub version: String,
    /// The API's documentation, whole.
    pub description: Option<String>,
}

/// The model of an [`OpenRpcInfo`].
pub ghost struct OpenRpcInfoV {
    pub title: Seq<char>,
    pub version: Seq<char>,
    pub description: Option<Seq<char>>,
}

impl View for OpenRpcInfo {
    type V = OpenRpcInfoV;

    open spec fn view(&self) -> OpenRpcInfoV {
        OpenRpcInfoV {
            title: self.title@,
            version: self.version@,
            description: match self.description {
                Option::Some(s) => Option::Some(s@),
                Option::None => Option::None,
            },
        }
    }
}

/// An OpenRPC document.
pub struct OpenRpc {
    /// The OpenRPC specification version this document follows.
    pub openrpc: String,
    /// The API's title, version and docs.
    pub info: OpenRpcInfo,
    /// One entry per method, in declaration order.
    pub methods: Vec<OpenRpcMethodDoc>,
}

/// The model of an [`OpenRpc`] document.
pub ghost struct OpenRpcV {
    pub openrpc: Seq<char>,
    pub info: OpenRpcInfoV,
    pub methods: Seq<OpenRpcMethodDocV>,
}

impl View for OpenRpc {
    type V = OpenRpcV;

    open spec fn view(&self) -> OpenRpcV {
        OpenRpcV {
            openrpc: self.openrpc@,
            info: self.info@,
            methods: self.methods@.map_values(|m: OpenRpcMethodDoc| m@),
        }
    }
}

/// The document entry one method descriptor yields: its name, its docs
/// split into summary and description, one required `payload` parameter
/// carrying the request schema, and a required `result` carrying the
/// response schema, passed by name.
pub open spec fn spec_openrpc_method(m: MethodV) -> OpenRpcMethodDocV {
    let split = spec_split_docs(m.docs);
    OpenRpcMethodDocV {
        name: m.name,
        summary: split.0,
        description: split.1,
        params: seq![
            ContentDescriptorV {
                name: "payload"@,
                summary: Option::None,
                description: Option::None,
                required: true,
                schema: m.req,
            },
        ],
        result: Option::Some(
            ContentDescriptorV {
                name: "result"@,
                summary: Option::None,
                description: Option::None,
                required: true,
                schema: m.res,
            },
        ),
        param_structure: ParamStructure::ByName,
    }
}

/// Generates the OpenRPC document of an API: one traversal of the method
/// list, in declaration order.
pub fn gen_openrpc(api: &Api) -> (r: OpenRpc)
    ensures
        r@.openrpc == "1.3.0"@,
        r@.info.title == api@.name,
        r@.info.version == api@.version,
        r@.info.description == api@.docs,
        r@.methods.len() == api@.methods.len(),
        forall|i: int|
            0 <= i < api@.methods.len() ==> r@.methods[i] == spec_openrpc_method(
                #[trigger] api@.methods[i],
            ),
{
    let n = api.methods.len();
    let mut methods: Vec<OpenRpcMethodDoc> = Vec::new();
    let mut i: usize = 0;
    while i < n
        invariant
            n == api@.methods.len(),
            i <= n,
            methods@.len() == i,
            forall|j: int|
                0 <= j < i ==> methods@.map_values(|m: OpenRpcMethodDoc| m@)[j]
                    == spec_openrpc_method(#[trigger] api@.methods[j]),
        decreases n - i,
    {
        let m = api.methods.get(i);
        let (summary, description) = split_docs(
            match &m.docs {
                Option::Some(d) => Option::Some(d.as_str()),
                Option::None => Option::None,
            },
        );
        let mut params: Vec<ContentDescriptor> = Vec::new();
        params.push(ContentDescriptor {
            name: String::from_str("payload"),
            summary: Option::None,
            description: Option::None,
            required: true,
            schema: m.req.clone(),
        });
        let result = ContentDescriptor {
            name: String::from_str("result"),
            summary: Option::None,
            description: Option::None,
            required: true,
            schema: m.res.clone(),
        };
        let ghost prev = methods@.map_values(|d: OpenRpcMethodDoc| d@);
        let doc = OpenRpcMethodDoc {
            name: m.name.clone(),
            summary,
            description,
            params,
            result: Option::Some(result),
            param_structure: ParamStructure::ByName,
        };
        proof {
            assert(doc@.params =~= spec_openrpc_method(api@.methods[i as int]).params);
            assert(doc@ == spec_openrpc_method(api@.methods[i as int]));
        }
        methods.push(doc);
        proof {
            assert(methods@.map_values(|d: OpenRpcMethodDoc| d@) =~= prev.push(
                spec_openrpc_method(api@.methods[i as int]),
            ));
        }
        i += 1;
    }
    OpenRpc {
        openrpc: String::from_str("1.3.0"),
        info: OpenRpcInfo {
            title: api.name.clone(),
            version: api.version.clone(),
            description: match &api.docs {
                Option::Some(d) => Option::Some(d.clone()),
                Option::None => Option::None,
            },
        },
        methods,
    }
}

} // verus!
