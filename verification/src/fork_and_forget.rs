//! Fire-and-forget execution of a wrapped backend.

use vstd::prelude::*;

use crate::implementor::ImplsMethod;
use crate::value::Val;
use crate::value::Value;

verus! {

/// Relies on `tokio::runtime::Handle::try_current` (which never panics) and
/// `Handle::spawn_blocking`: when a runtime is running, a clone of the
/// backend runs the handler as a detached task on the runtime's blocking
/// pool and the call returns at once. Returns whether a runtime was found;
/// nothing is promised of the detached work or its timing.
#[verifier::external_body]
fn spawn_detached<B: ImplsMethod + Clone + Send + Sync + 'static>(
    b: &B,
    method: &String,
    req: Value,
) -> (r: bool) {
    match tokio::runtime::Handle::try_current() {
        Ok(handle) => {
            let mut inner = b.clone();
            let name = method.clone();
            handle.spawn_blocking(move || {
                let _ = inner.call_api(&name, req);
            });
            true
        },
        Err(_) => false,
    }
}

/// Starts the wrapped handler as a detached concurrent task and returns at
/// once, without waiting for or observing its outcome.
///
/// Meant for methods whose declared response is the unit tag: every call
/// returns the unit value. Pair it with [`crate::combinator::IgnoreRes`] or
/// [`crate::combinator::IgnoreOk`] so that whatever the detached handler
/// itself returns is absorbed. The detached task runs on a clone of the
/// wrapped backend, outlives the call, and exposes no join handle or
/// cancellation; if the process ends mid-flight its outcome is undefined.
#[derive(Clone)]
pub struct ForkAndForget<B>(pub B);

impl<B: ImplsMethod + Clone + Send + Sync + 'static> ImplsMethod for ForkAndForget<B> {
    open spec fn handles(&self, method: Seq<char>) -> bool {
        self.0.handles(method)
    }

    open spec fn handler_result(&self, method: Seq<char>, req: Val) -> Val {
        Val::Null
    }

    open spec fn steps_to(&self, method: Seq<char>, req: Val, next: Self) -> bool {
        next == *self
    }

    fn supports(&self, method: &String) -> (r: bool) {
        self.0.supports(method)
    }

    fn call_api(&mut self, method: &String, req: Value) -> (res: Value) {
        let _ = spawn_detached(&self.0, method, req);
        Value::Null
    }
}

/// A fork-and-forget call returns the unit value on every method and every
/// request, before the detached handler necessarily runs, and leaves the
/// wrapping backend's visible state untouched.
pub proof fn lemma_fork_and_forget_unit<B: ImplsMethod + Clone + Send + Sync + 'static>(
    b: ForkAndForget<B>,
    method: Seq<char>,
    req: Val,
    next: ForkAndForget<B>,
)
    ensures
        b.handler_result(method, req) == Val::Null,
        b.steps_to(method, req, next) ==> next == b,
{
}

} // verus!
