//! Method descriptors, method lists and API descriptors.
//!
//! A [`Method`] records a name, the tag of its request type, the tag of its
//! response type and optional documentation. A [`MethodList`] is the ordered,
//! append-only collection of the methods of one API; traversal order is
//! declaration order. An [`Api`] is a named, versioned method list.

use vstd::prelude::*;

use crate::value::TypeTag;

verus! {

/// A method descriptor: a named request/response pair inside an API.
pub struct Method {
    /// The method's name, unique within its API.
    pub name: String,
    /// The tag of the request type.
    pub req: TypeTag,
    /// The tag of the response type.
    pub res: TypeTag,
    /// Optional documentation attached to the method.
    pub docs: Option<String>,
}

/// The model of a [`Method`]: the name and the docs as character sequences.
pub ghost struct MethodV {
    pub name: Seq<char>,
    pub req: TypeTag,
    pub res: TypeTag,
    pub docs: Option<Seq<char>>,
}

impl View for Method {
    type V = MethodV;

    open spec fn view(&self) -> MethodV {
        MethodV {
            name: self.name@,
            req: self.req,
            res: self.res,
            docs: match self.docs {
                Option::Some(d) => Option::Some(d@),
                Option::None => Option::None,
            },
        }
    }
}

impl Method {
    /// Describes one method: name, request tag, response tag, docs.
    pub fn new(name: String, req: TypeTag, res: TypeTag, docs: Option<String>) -> (r: Method)
        ensures
            r@ == (MethodV {
                name: name@,
                req,
                res,
                docs: match docs {
                    Option::Some(d) => Option::Some(d@),
                    Option::None => Option::None,
                },
            }),
    {
        Method { name, req, res, docs }
    }
}

/// Clones a method descriptor, replacing its response tag: the step every
/// API-shape combinator applies per method.
pub(crate) fn clone_method_with_res(m: &Method, res: TypeTag) -> (r: Method)
    ensures
        r@.name == m@.name,
        r@.req == m@.req,
        r@.docs == m@.docs,
        r@.res == res,
{
    Method {
        name: m.name.clone(),
        req: m.req.clone(),
        res,
        docs: match &m.docs {
            Option::Some(d) => Option::Some(d.clone()),
            Option::None => Option::None,
        },
    }
}

/// The ordered method list of one API. Methods are appended in declaration
/// order and the list is fixed after definition; traversal always follows
/// that order.
pub struct MethodList {
    methods: Vec<Method>,
}

impl View for MethodList {
    type V = Seq<MethodV>;

    closed spec fn view(&self) -> Seq<MethodV> {
        self.methods@.map_values(|m: Method| m@)
    }
}

/// The first method of the list carrying the given name, if any.
pub open spec fn spec_lookup(methods: Seq<MethodV>, name: Seq<char>) -> Option<MethodV>
    decreases methods.len(),
{
    if methods.len() == 0 {
        Option::None
    } else if methods[0].name == name {
        Option::Some(methods[0])
    } else {
        spec_lookup(methods.subrange(1, methods.len() as int), name)
    }
}

/// Whether some method of the list carries the given name.
pub open spec fn spec_has_name(methods: Seq<MethodV>, name: Seq<char>) -> bool {
    exists|i: int| 0 <= i < methods.len() && methods[i].name == name
}

/// Whether every method name occurs only once in the list.
pub open spec fn names_unique(methods: Seq<MethodV>) -> bool {
    forall|i: int, j: int|
        0 <= i < j < methods.len() ==> methods[i].name != methods[j].name
}

/// A name is found exactly when some method carries it.
pub proof fn lemma_lookup_some(methods: Seq<MethodV>, name: Seq<char>)
    ensures
        spec_lookup(methods, name) is Some <==> spec_has_name(methods, name),
    decreases methods.len(),
{
    if methods.len() > 0 {
        let rest = methods.subrange(1, methods.len() as int);
        lemma_lookup_some(rest, name);
        if methods[0].name != name {
            assert(spec_has_name(rest, name) ==> spec_has_name(methods, name)) by {
                if spec_has_name(rest, name) {
                    let i = choose|i: int| 0 <= i < rest.len() && rest[i].name == name;
                    assert(methods[i + 1].name == name);
                }
            }
            assert(spec_has_name(methods, name) ==> spec_has_name(rest, name)) by {
                if spec_has_name(methods, name) {
                    let i = choose|i: int| 0 <= i < methods.len() && methods[i].name == name;
                    assert(rest[i - 1].name == name);
                }
            }
        }
    }
}

/// Looking up the name of the entry at `i`, when no earlier entry shares it,
/// finds exactly that entry.
pub proof fn lemma_lookup_at(methods: Seq<MethodV>, i: int)
    requires
        0 <= i < methods.len(),
        forall|j: int| 0 <= j < i ==> methods[j].name != methods[i].name,
    ensures
        spec_lookup(methods, methods[i].name) == Option::Some(methods[i]),
    decreases methods.len(),
{
    if i == 0 {
    } else {
        let rest = methods.subrange(1, methods.len() as int);
        lemma_lookup_at(rest, i - 1);
    }
}

impl MethodList {
    /// The empty method list.
    pub fn new() -> (r: MethodList)
        ensures
            r@ == Seq::<MethodV>::empty(),
    {
        MethodList { methods: Vec::new() }
    }

    /// Appends one method descriptor, keeping declaration order.
    pub fn push(&mut self, m: Method)
        ensures
            final(self)@ == old(self)@.push(m@),
    {
        self.methods.push(m);
        assert(self@ =~= old(self)@.push(m@));
    }

    /// The number of methods.
    pub fn len(&self) -> (r: usize)
        ensures
            r == self@.len(),
    {
        self.methods.len()
    }

    /// The method at position `i`, in declaration order.
    pub fn get(&self, i: usize) -> (r: &Method)
        requires
            i < self@.len(),
        ensures
            r@ == self@[i as int],
    {
        &self.methods[i]
    }

    /// Appends every method of `other`, in order, after the methods of
    /// `self`: the concatenation used when one API's list derives from
    /// another's.
    pub fn concat(&mut self, other: MethodList)
        ensures
            final(self)@ == old(self)@ + other@,
    {
        let ghost tail = other@;
        let mut other = other;
        self.methods.append(&mut other.methods);
        assert(self@ =~= old(self)@ + tail);
    }

    /// The position of the first method with the given name, if any.
    pub fn index_of(&self, name: &String) -> (r: Option<usize>)
        ensures
            match r {
                Option::Some(i) => {
                    &&& i < self@.len()
                    &&& self@[i as int].name == name@
                    &&& forall|j: int| 0 <= j < i ==> self@[j].name != name@
                    &&& spec_lookup(self@, name@) == Option::Some(self@[i as int])
                },
                Option::None => {
                    &&& spec_lookup(self@, name@) is None
                    &&& !spec_has_name(self@, name@)
                },
            },
    {
        let n = self.methods.len();
        let mut i: usize = 0;
        while i < n
            invariant
                n == self@.len(),
                i <= n,
                forall|j: int| 0 <= j < i ==> self@[j].name != name@,
            decreases n - i,
        {
            if self.methods[i].name == *name {
                proof {
                    lemma_lookup_at(self@, i as int);
                }
                return Option::Some(i);
            }
            i += 1;
        }
        proof {
            lemma_lookup_some(self@, name@);
        }
        Option::None
    }

    /// The first name that occurs twice in declaration order, if any:
    /// duplicate names are a definition error caught when a registry is
    /// built.
    pub fn first_duplicate(&self) -> (r: Option<String>)
        ensures
            match r {
                Option::Some(n) => {
                    &&& !names_unique(self@)
                    &&& exists|i: int, j: int|
                        0 <= i < j < self@.len() && self@[i].name == n@ && self@[j].name == n@
                },
                Option::None => names_unique(self@),
            },
    {
        let n = self.methods.len();
        let mut j: usize = 1;
        while j < n
            invariant
                n == self@.len(),
                1 <= j,
                forall|p: int, q: int|
                    0 <= p < q < j && q < self@.len() ==> self@[p].name != self@[q].name,
            decreases n - j,
        {
            let mut i: usize = 0;
            while i < j
                invariant
                    j < n,
                    n == self@.len(),
                    i <= j,
                    forall|p: int| 0 <= p < i ==> self@[p].name != self@[j as int].name,
                decreases j - i,
            {
                if self.methods[i].name == self.methods[j].name {
                    let dup = self.methods[j].name.clone();
                    proof {
                        let gi: int = i as int;
                        let gj: int = j as int;
                        assert(0 <= gi < gj < self@.len() && self@[gi].name == dup@
                            && self@[gj].name == dup@);
                    }
                    return Option::Some(dup);
                }
                i += 1;
            }
            j += 1;
        }
        Option::None
    }
}

/// An API descriptor: a name, a version, and the method list.
pub struct Api {
    /// The API's name.
    pub name: String,
    /// The API's version.
    pub version: String,
    /// Optional documentation attached to the API.
    pub docs: Option<String>,
    /// The API's methods, in declaration order.
    pub methods: MethodList,
}

/// The model of an [`Api`].
pub ghost struct ApiV {
    pub name: Seq<char>,
    pub version: Seq<char>,
    pub docs: Option<Seq<char>>,
    pub methods: Seq<MethodV>,
}

impl View for Api {
    type V = ApiV;

    open spec fn view(&self) -> ApiV {
        ApiV {
            name: self.name@,
            version: self.version@,
            docs: match self.docs {
                Option::Some(d) => Option::Some(d@),
                Option::None => Option::None,
            },
            methods: self.methods@,
        }
    }
}

impl Api {
    /// Defines an API: a name, a version, docs and its method list.
    pub fn new(name: String, version: String, docs: Option<String>, methods: MethodList) -> (r: Api)
        ensures
            r@.name == name@,
            r@.version == version@,
            r@.methods == methods@,
            r@.docs == (match docs {
                Option::Some(d) => Option::Some(d@),
                Option::None => Option::<Seq<char>>::None,
            }),
    {
        Api { name, version, docs, methods }
    }
}

} // verus!
