//! Spec and SDK generation helpers: documentation splitting and a
//! TypeScript definition generator.
//!
//! Generators are pure, read-only consumers of a method list: they traverse
//! it once, in declaration order, and never invoke handlers.

use vstd::prelude::*;
use vstd::string::StrSliceExecFns;
use vstd::string::StringExecFns;

use crate::registry::Api;
use crate::registry::MethodList;
use crate::registry::MethodV;
use crate::value::TypeTag;

verus! {

/// The position of the first blank line (two newlines in a row), if any.
pub open spec fn spec_find_break(d: Seq<char>) -> Option<int>
    decreases d.len(),
{
    if d.len() < 2 {
        Option::None
    } else if d[0] == '\n' && d[1] == '\n' {
        Option::Some(0)
    } else {
        match spec_find_break(d.subrange(1, d.len() as int)) {
            Option::Some(i) => Option::Some(i + 1),
            Option::None => Option::None,
        }
    }
}

/// A blank line at `i`, with none earlier, is the first one.
proof fn lemma_find_break_at(d: Seq<char>, i: int)
    requires
        0 <= i,
        i + 1 < d.len(),
        d[i] == '\n',
        d[i + 1] == '\n',
        forall|j: int| 0 <= j < i ==> !((#[trigger] d[j]) == '\n' && d[j + 1] == '\n'),
    ensures
        spec_find_break(d) == Option::Some(i),
    decreases d.len(),
{
    if i > 0 {
        let rest = d.subrange(1, d.len() as int);
        assert(forall|j: int| 0 <= j < i - 1 ==> !((#[trigger] rest[j]) == '\n' && rest[j + 1] == '\n'));
        lemma_find_break_at(rest, i - 1);
    }
}

/// With no blank line anywhere, there is no break.
proof fn lemma_find_break_none(d: Seq<char>)
    requires
        forall|j: int| 0 <= j && j + 1 < d.len() ==> !((#[trigger] d[j]) == '\n' && d[j + 1] == '\n'),
    ensures
        spec_find_break(d) is None,
    decreases d.len(),
{
    if d.len() >= 2 {
        let rest = d.subrange(1, d.len() as int);
        assert(forall|j: int| 0 <= j && j + 1 < rest.len() ==> !((#[trigger] rest[j]) == '\n'
            && rest[j + 1] == '\n'));
        lemma_find_break_none(rest);
    }
}

/// What splitting documentation yields: nothing for absent docs; otherwise
/// the part before the first blank line as the summary and the part after
/// it as the description, or the whole text as the summary when no blank
/// line occurs.
pub open spec fn spec_split_docs(docs: Option<Seq<char>>) -> (Option<Seq<char>>, Option<
    Seq<char>,
>) {
    match docs {
        Option::None => (Option::None, Option::None),
        Option::Some(d) => match spec_find_break(d) {
            Option::None => (Option::Some(d), Option::None),
            Option::Some(i) => (
                Option::Some(d.subrange(0, i)),
                Option::Some(d.subrange(i + 2, d.len() as int)),
            ),
        },
    }
}

/// Splits documentation into a summary and the rest, at the first blank
/// line.
pub fn split_docs(docs: Option<&str>) -> (r: (Option<String>, Option<String>))
    ensures
        (match r.0 {
            Option::Some(s) => Option::Some(s@),
            Option::None => Option::<Seq<char>>::None,
        }, match r.1 {
            Option::Some(s) => Option::Some(s@),
            Option::None => Option::<Seq<char>>::None,
        }) == spec_split_docs(
            match docs {
                Option::Some(d) => Option::Some(d@),
                Option::None => Option::<Seq<char>>::None,
            },
        ),
{
    let d = match docs {
        Option::Some(d) => d,
        Option::None => {
            return (Option::None, Option::None);
        },
    };
    let n = d.unicode_len();
    if n < 2 {
        proof {
            lemma_find_break_none(d@);
        }
        return (Option::Some(d.to_owned()), Option::None);
    }
    let mut i: usize = 0;
    while i < n - 1
        invariant
            docs == Option::Some(d),
            n == d@.len(),
            2 <= n,
            i <= n,
            forall|j: int| 0 <= j < i ==> !((#[trigger] d@[j]) == '\n' && d@[j + 1] == '\n'),
        decreases n - i,
    {
        if d.get_char(i) == '\n' && d.get_char(i + 1) == '\n' {
            proof {
                lemma_find_break_at(d@, i as int);
            }
            let head = d.substring_char(0, i).to_owned();
            let tail = d.substring_char(i + 2, n).to_owned();
            return (Option::Some(head), Option::Some(tail));
        }
        i += 1;
    }
    proof {
        lemma_find_break_none(d@);
    }
    (Option::Some(d.to_owned()), Option::None)
}

/// The TypeScript rendering of a type tag.
pub open spec fn spec_ts_type(t: TypeTag) -> Seq<char>
    decreases t,
{
    match t {
        TypeTag::Unit => "null"@,
        TypeTag::Bool => "boolean"@,
        TypeTag::Int => "number"@,
        TypeTag::Str => "string"@,
        TypeTag::ResultOf(ok, err) => "{ \"Ok\": "@ + spec_ts_type(*ok) + " } | { \"Err\": "@
            + spec_ts_type(*err) + " }"@,
    }
}

/// Renders a type tag as a TypeScript type.
pub fn ts_type(t: &TypeTag) -> (r: String)
    ensures
        r@ == spec_ts_type(*t),
    decreases *t,
{
    match t {
        TypeTag::Unit => String::from_str("null"),
        TypeTag::Bool => String::from_str("boolean"),
        TypeTag::Int => String::from_str("number"),
        TypeTag::Str => String::from_str("string"),
        TypeTag::ResultOf(ok, err) => {
            let mut s = String::from_str("{ \"Ok\": ");
            let ok_s = ts_type(ok);
            s.append(ok_s.as_str());
            s.append(" } | { \"Err\": ");
            let err_s = ts_type(err);
            s.append(err_s.as_str());
            s.append(" }");
            proof {
                assert(s@ =~= spec_ts_type(*t));
            }
            s
        },
    }
}

/// The JSON schema text of a type tag: the schema a spec generator embeds
/// for a request or response of that shape.
pub open spec fn spec_schema_json(t: TypeTag) -> Seq<char>
    decreases t,
{
    match t {
        TypeTag::Unit => "{\"type\":\"null\"}"@,
        TypeTag::Bool => "{\"type\":\"boolean\"}"@,
        TypeTag::Int => "{\"type\":\"integer\"}"@,
        TypeTag::Str => "{\"type\":\"string\"}"@,
        TypeTag::ResultOf(ok, err) => {
            "{\"oneOf\":[{\"type\":\"object\",\"required\":[\"Ok\"],\"properties\":{\"Ok\":"@
                + spec_schema_json(*ok)
                + "}},{\"type\":\"object\",\"required\":[\"Err\"],\"properties\":{\"Err\":"@
                + spec_schema_json(*err) + "}}]}"@
        },
    }
}

/// Renders a type tag as JSON schema text.
pub fn schema_json(t: &TypeTag) -> (r: String)
    ensures
        r@ == spec_schema_json(*t),
    decreases *t,
{
    match t {
        TypeTag::Unit => String::from_str("{\"type\":\"null\"}"),
        TypeTag::Bool => String::from_str("{\"type\":\"boolean\"}"),
        TypeTag::Int => String::from_str("{\"type\":\"integer\"}"),
        TypeTag::Str => String::from_str("{\"type\":\"string\"}"),
        TypeTag::ResultOf(ok, err) => {
            let mut s = String::from_str(
                "{\"oneOf\":[{\"type\":\"object\",\"required\":[\"Ok\"],\"properties\":{\"Ok\":",
            );
            let ok_s = schema_json(ok);
            s.append(ok_s.as_str());
            s.append("}},{\"type\":\"object\",\"required\":[\"Err\"],\"properties\":{\"Err\":");
            let err_s = schema_json(err);
            s.append(err_s.as_str());
            s.append("}}]}");
            proof {
                assert(s@ =~= spec_schema_json(*t));
            }
            s
        },
    }
}

/// One method of a TypeScript API rendering.
pub struct TsMethod {
    /// The method's name.
    pub method_name: String,
    /// The request type, rendered as TypeScript.
    pub request_type: String,
    /// The response type, rendered as TypeScript.
    pub response_type: String,
}

/// The model of a [`TsMethod`].
pub ghost struct TsMethodV {
    pub method_name: Seq<char>,
    pub request_type: Seq<char>,
    pub response_type: Seq<char>,
}

impl View for TsMethod {
    type V = TsMethodV;

    open spec fn view(&self) -> TsMethodV {
        TsMethodV {
            method_name: self.method_name@,
            request_type: self.request_type@,
            response_type: self.response_type@,
        }
    }
}

/// A TypeScript API rendering in the making: auxiliary type definitions
/// and one entry per method.
pub struct TsApi {
    /// Auxiliary type definitions.
    pub types: Vec<String>,
    /// One entry per method, in declaration order.
    pub methods: Vec<TsMethod>,
}

/// The [`TsMethod`] entry a method descriptor renders to.
pub open spec fn spec_ts_method(m: MethodV) -> TsMethodV {
    TsMethodV {
        method_name: m.name,
        request_type: spec_ts_type(m.req),
        response_type: spec_ts_type(m.res),
    }
}

/// The model of the entries of a [`TsApi`].
pub open spec fn ts_methods_view(methods: Vec<TsMethod>) -> Seq<TsMethodV> {
    methods@.map_values(|m: TsMethod| m@)
}

impl TsApi {
    /// Renders each method of an API, in declaration order; no auxiliary
    /// type definitions are collected.
    pub fn of_api(api: &Api) -> (r: TsApi)
        ensures
            r.types@.len() == 0,
            ts_methods_view(r.methods).len() == api@.methods.len(),
            forall|i: int|
                0 <= i < api@.methods.len() ==> ts_methods_view(r.methods)[i] == spec_ts_method(
                    #[trigger] api@.methods[i],
                ),
    {
        let n = api.methods.len();
        let mut methods: Vec<TsMethod> = Vec::new();
        let mut i: usize = 0;
        while i < n
            invariant
                n == api@.methods.len(),
                i <= n,
                ts_methods_view(methods).len() == i,
                forall|j: int|
                    0 <= j < i ==> ts_methods_view(methods)[j] == spec_ts_method(
                        #[trigger] api@.methods[j],
                    ),
            decreases n - i,
        {
            let m = api.methods.get(i);
            let ghost prev = ts_methods_view(methods);
            let entry = TsMethod {
                method_name: m.name.clone(),
                request_type: ts_type(&m.req),
                response_type: ts_type(&m.res),
            };
            methods.push(entry);
            proof {
                assert(ts_methods_view(methods) =~= prev.push(
                    spec_ts_method(api@.methods[i as int]),
                ));
            }
            i += 1;
        }
        TsApi { types: Vec::new(), methods }
    }
}

/// One conditional line of the generated union: picks the request or the
/// response type of one entry.
pub open spec fn spec_extends_line(m: TsMethodV, use_response: bool) -> Seq<char> {
    "  M extends '"@ + m.method_name + "' ? "@ + (if use_response {
        m.response_type
    } else {
        m.request_type
    }) + " :"@
}

/// The conditional lines of all entries, joined by newlines.
pub open spec fn spec_extends_lines(ms: Seq<TsMethodV>, use_response: bool) -> Seq<char>
    decreases ms.len(),
{
    if ms.len() == 0 {
        Seq::<char>::empty()
    } else if ms.len() == 1 {
        spec_extends_line(ms[0], use_response)
    } else {
        spec_extends_lines(ms.drop_last(), use_response) + "\n"@ + spec_extends_line(
            ms.last(),
            use_response,
        )
    }
}

/// Renders the conditional lines of all entries, joined by newlines.
fn extends_lines(methods: &Vec<TsMethod>, use_response: bool) -> (r: String)
    ensures
        r@ == spec_extends_lines(ts_methods_view(*methods), use_response),
{
    let n = methods.len();
    let mut acc = String::new();
    let mut i: usize = 0;
    while i < n
        invariant
            n == methods@.len(),
            i <= n,
            acc@ == spec_extends_lines(ts_methods_view(*methods).subrange(0, i as int), use_response),
        decreases n - i,
    {
        if i > 0 {
            acc.append("\n");
        }
        let m = &methods[i];
        acc.append("  M extends '");
        acc.append(m.method_name.as_str());
        acc.append("' ? ");
        if use_response {
            acc.append(m.response_type.as_str());
        } else {
            acc.append(m.request_type.as_str());
        }
        acc.append(" :");
        proof {
            let ms = ts_methods_view(*methods);
            let gi: int = i as int;
            assert(ms.subrange(0, gi + 1).drop_last() =~= ms.subrange(0, gi));
            assert(ms.subrange(0, gi + 1).last() == ms[gi]);
            assert(acc@ =~= spec_extends_lines(ms.subrange(0, gi + 1), use_response));
        }
        i += 1;
    }
    proof {
        assert(ts_methods_view(*methods).subrange(0, n as int) =~= ts_methods_view(*methods));
    }
    acc
}

/// The full generated TypeScript definition for a method list.
pub open spec fn spec_gen_ts_api(ms: Seq<TsMethodV>) -> Seq<char> {
    "\n"@ + "type Request<M> = "@ + "\n"@ + spec_extends_lines(ms, false) + "\n"@ + "  void;\n"@
        + "\n"@ + "type Response<M> = "@ + "\n"@ + spec_extends_lines(ms, true) + "\n"@
        + "  void;"@
}

/// Generates the API definition in the TypeScript language: a `Request<M>`
/// and a `Response<M>` conditional type, one arm per method in declaration
/// order.
pub fn gen_ts_api(api: &Api) -> (r: String)
    ensures
        r@ == spec_gen_ts_api(
            Seq::new(api@.methods.len(), |i: int| spec_ts_method(api@.methods[i])),
        ),
{
    let ts = TsApi::of_api(api);
    let mut out = String::new();
    out.append("\n");
    out.append("type Request<M> = ");
    out.append("\n");
    let req_lines = extends_lines(&ts.methods, false);
    out.append(req_lines.as_str());
    out.append("\n");
    out.append("  void;\n");
    out.append("\n");
    out.append("type Response<M> = ");
    out.append("\n");
    let res_lines = extends_lines(&ts.methods, true);
    out.append(res_lines.as_str());
    out.append("\n");
    out.append("  void;");
    proof {
        let ms = Seq::new(api@.methods.len(), |i: int| spec_ts_method(api@.methods[i]));
        assert(ts_methods_view(ts.methods) =~= ms);
        assert(out@ =~= spec_gen_ts_api(ms));
    }
    out
}

} // verus!
