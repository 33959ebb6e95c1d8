//! The implementor contract: one handler per method.
//!
//! A backend implements an API by offering [`ImplsMethod`]: a handler for
//! every method name it claims to support. The trait carries the backend's
//! mathematical model — which names it handles, what result a handler
//! returns, and how the backend's state may step — so that everything built
//! on top (the dispatch table, the combinators) is verified against the
//! model rather than against any particular backend.

use vstd::prelude::*;

use crate::value::Val;
use crate::value::Value;

verus! {

/// A backend bound to an API: one handler per supported method name.
///
/// Invoking a handler yields a single response value; recoverable failure is
/// encoded inside the response (a [`Val::RErr`] arm), never thrown. The
/// handler set is fixed: no call changes which names are supported.
pub trait ImplsMethod: Sized {
    /// Which method names this backend supplies a handler for.
    spec fn handles(&self, method: Seq<char>) -> bool;

    /// The response the handler for `method` returns on `req`, in the
    /// backend's current state.
    spec fn handler_result(&self, method: Seq<char>, req: Val) -> Val;

    /// How the backend's state may step when the handler for `method` runs
    /// on `req`.
    spec fn steps_to(&self, method: Seq<char>, req: Val, next: Self) -> bool;

    /// Whether this backend supplies a handler for `method`.
    fn supports(&self, method: &String) -> (r: bool)
        ensures
            r == self.handles(method@),
    ;

    /// Runs the handler bound to `method` on `req`.
    fn call_api(&mut self, method: &String, req: Value) -> (res: Value)
        requires
            old(self).handles(method@),
        ensures
            res@ == old(self).handler_result(method@, req@),
            old(self).steps_to(method@, req@, *final(self)),
            forall|m: Seq<char>| #[trigger] final(self).handles(m) == old(self).handles(m),
    ;
}

} // verus!
