//! A small reference backend: a boolean register behind a one-shot write
//! guard.
//!
//! It serves two purposes: it shows what implementing
//! [`ImplsMethod`] takes, and it gives the dispatch layer and the
//! combinators something concrete to be exercised against. It offers two
//! methods: reading the flag, and posting a new flag value, which succeeds
//! only while the flag is still unset — once the flag is `true`, every
//! further post fails.

use vstd::prelude::*;
use vstd::string::StringExecFns;

use crate::implementor::ImplsMethod;
use crate::value::Val;
use crate::value::Value;

verus! {

/// A boolean register with a one-shot write guard, handling the methods
/// `get_a` (unit to boolean) and `post_a` (boolean to a unit-or-string
/// result).
pub struct BoolStore {
    /// The flag; starts `false`.
    pub a: bool,
}

impl BoolStore {
    /// A store with the flag unset.
    pub fn new() -> (r: BoolStore)
        ensures
            r.a == false,
    {
        BoolStore { a: false }
    }

    /// What the next state of the flag is when a method runs.
    pub open spec fn step_model(self, method: Seq<char>, req: Val) -> bool {
        if method == "post_a"@ && !self.a {
            match req {
                Val::Bool(v) => v,
                _ => self.a,
            }
        } else {
            self.a
        }
    }
}

impl ImplsMethod for BoolStore {
    open spec fn handles(&self, method: Seq<char>) -> bool {
        method == "get_a"@ || method == "post_a"@
    }

    open spec fn handler_result(&self, method: Seq<char>, req: Val) -> Val {
        if method == "get_a"@ {
            Val::Bool(self.a)
        } else {
            if self.a {
                Val::RErr(Box::new(Val::Str("can't post a anymore"@)))
            } else {
                Val::ROk(Box::new(Val::Null))
            }
        }
    }

    open spec fn steps_to(&self, method: Seq<char>, req: Val, next: Self) -> bool {
        next == (BoolStore { a: self.step_model(method, req) })
    }

    fn supports(&self, method: &String) -> (r: bool) {
        *method == String::from_str("get_a") || *method == String::from_str("post_a")
    }

    fn call_api(&mut self, method: &String, req: Value) -> (res: Value) {
        proof {
            reveal_strlit("get_a");
            reveal_strlit("post_a");
            assert("get_a"@.len() == 5);
            assert("post_a"@.len() == 6);
            assert("get_a"@ != "post_a"@);
        }
        if *method == String::from_str("get_a") {
            Value::Bool(self.a)
        } else {
            if self.a {
                let message = Value::Str(String::from_str("can't post a anymore"));
                proof {
                    assert(message@ == Val::Str("can't post a anymore"@));
                }
                Value::RErr(Box::new(message))
            } else {
                if let Value::Bool(v) = &req {
                    self.a = *v;
                }
                proof {
                    assert(Value::Null@ == Val::Null);
                }
                Value::ROk(Box::new(Value::Null))
            }
        }
    }
}

} // verus!
