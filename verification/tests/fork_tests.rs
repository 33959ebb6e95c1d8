use std::sync::Arc;
use std::sync::Mutex;
use std::sync::mpsc;
use std::time::Duration;

use aisil::combinator::IgnoreRes;
use aisil::fork_and_forget::ForkAndForget;
use aisil::implementor::ImplsMethod;
use aisil::value::Val;
use aisil::value::Value;
use vstd::prelude::Seq;

/// A backend whose handler blocks until released, then mutates shared
/// state and signals completion.
#[derive(Clone)]
struct SlowPoster {
    a: Arc<Mutex<bool>>,
    release: Arc<Mutex<mpsc::Receiver<()>>>,
    done: mpsc::Sender<()>,
}

impl ImplsMethod for SlowPoster {
    // the model items are ghost and never executed
    fn handles(&self, _method: Seq<char>) -> bool {
        true
    }

    fn handler_result(&self, _method: Seq<char>, req: Val) -> Val {
        req
    }

    fn steps_to(&self, _method: Seq<char>, _req: Val, _next: Self) -> bool {
        true
    }

    fn supports(&self, method: &String) -> bool {
        method.as_str() == "post_a"
    }

    fn call_api(&mut self, _method: &String, req: Value) -> Value {
        self.release.lock().unwrap().recv().unwrap();
        if let Value::Bool(v) = req {
            *self.a.lock().unwrap() = v;
        }
        self.done.send(()).unwrap();
        Value::Null
    }
}

#[test]
fn fork_and_forget() {
    let rt = tokio::runtime::Runtime::new().unwrap();
    let _guard = rt.enter();
    let (release_tx, release_rx) = mpsc::channel();
    let (done_tx, done_rx) = mpsc::channel();
    let a = Arc::new(Mutex::new(false));
    let backend = SlowPoster {
        a: a.clone(),
        release: Arc::new(Mutex::new(release_rx)),
        done: done_tx,
    };
    let mut fork = ForkAndForget(IgnoreRes(backend));
    // the call returns before the wrapped handler necessarily finishes:
    // the handler is still blocked when the call comes back
    let r = fork.call_api(&"post_a".to_string(), Value::Bool(true));
    assert_eq!(r, Value::Null);
    assert_eq!(*a.lock().unwrap(), false);
    // release the detached handler; the mutation becomes observable only
    // after it has run
    release_tx.send(()).unwrap();
    done_rx.recv_timeout(Duration::from_secs(10)).unwrap();
    let new_a = *a.lock().unwrap();
    assert!(new_a);
}
