//! A tracing combinator that records calls without altering them.

use vstd::prelude::*;

use crate::implementor::ImplsMethod;
use crate::value::Val;
use crate::value::Value;

verus! {

/// What an [`ApiTracer`] records. By default only errors are recorded.
#[derive(Clone, Copy, PartialEq, Eq, Structural)]
pub struct ApiTracerConfig {
    /// Record each request before the handler runs; default `false`.
    pub request: bool,
    /// Record each non-error response; default `false`.
    pub response: bool,
    /// Record each error response; default `true`.
    pub error: bool,
}

impl Default for ApiTracerConfig {
    /// By default only errors are recorded.
    fn default() -> (r: ApiTracerConfig)
        ensures
            r == (ApiTracerConfig { request: false, response: false, error: true }),
    {
        ApiTracerConfig { request: false, response: false, error: true }
    }
}

/// One recorded observation.
pub enum TraceEvent {
    /// A request about to be handled.
    Request {
        /// The method called.
        method: String,
        /// The request payload.
        payload: Value,
    },
    /// A non-error response.
    Response {
        /// The method called.
        method: String,
        /// The response returned.
        payload: Value,
    },
    /// An error response.
    Failure {
        /// The method called.
        method: String,
        /// The error response returned.
        payload: Value,
    },
}

/// The model of a [`TraceEvent`].
pub ghost enum TraceEventV {
    Request { method: Seq<char>, payload: Val },
    Response { method: Seq<char>, payload: Val },
    Failure { method: Seq<char>, payload: Val },
}

impl View for TraceEvent {
    type V = TraceEventV;

    open spec fn view(&self) -> TraceEventV {
        match self {
            TraceEvent::Request { method, payload } => TraceEventV::Request {
                method: method@,
                payload: payload@,
            },
            TraceEvent::Response { method, payload } => TraceEventV::Response {
                method: method@,
                payload: payload@,
            },
            TraceEvent::Failure { method, payload } => TraceEventV::Failure {
                method: method@,
                payload: payload@,
            },
        }
    }
}

/// The model of a recorded log.
pub open spec fn events_view(log: Vec<TraceEvent>) -> Seq<TraceEventV> {
    log@.map_values(|e: TraceEvent| e@)
}

/// The observations one call appends: the request if configured, then the
/// response or the error, as configured.
pub open spec fn trace_entries(
    config: ApiTracerConfig,
    method: Seq<char>,
    req: Val,
    res: Val,
) -> Seq<TraceEventV> {
    let pre = if config.request {
        seq![TraceEventV::Request { method, payload: req }]
    } else {
        Seq::<TraceEventV>::empty()
    };
    let post = if res is RErr {
        if config.error {
            seq![TraceEventV::Failure { method, payload: res }]
        } else {
            Seq::<TraceEventV>::empty()
        }
    } else {
        if config.response {
            seq![TraceEventV::Response { method, payload: res }]
        } else {
            Seq::<TraceEventV>::empty()
        }
    };
    pre + post
}

/// Wraps a backend in a labelled observation scope: each call is recorded
/// into an in-memory log according to the configuration, and the returned
/// value is never altered.
pub struct ApiTracer<B> {
    /// What to record.
    pub config: ApiTracerConfig,
    /// The recorded observations, oldest first.
    pub log: Vec<TraceEvent>,
    /// The wrapped backend.
    pub inner: B,
}

impl<B> ApiTracer<B> {
    /// Wraps a backend; the log starts empty.
    pub fn new(config: ApiTracerConfig, inner: B) -> (r: ApiTracer<B>)
        ensures
            r.config == config,
            r.inner == inner,
            events_view(r.log) == Seq::<TraceEventV>::empty(),
    {
        let log: Vec<TraceEvent> = Vec::new();
        let r = ApiTracer { config, log, inner };
        proof {
            assert(events_view(r.log) =~= Seq::<TraceEventV>::empty());
        }
        r
    }
}

impl<B: ImplsMethod> ImplsMethod for ApiTracer<B> {
    open spec fn handles(&self, method: Seq<char>) -> bool {
        self.inner.handles(method)
    }

    open spec fn handler_result(&self, method: Seq<char>, req: Val) -> Val {
        self.inner.handler_result(method, req)
    }

    open spec fn steps_to(&self, method: Seq<char>, req: Val, next: Self) -> bool {
        &&& next.config == self.config
        &&& self.inner.steps_to(method, req, next.inner)
        &&& events_view(next.log) == events_view(self.log) + trace_entries(
            self.config,
            method,
            req,
            self.inner.handler_result(method, req),
        )
    }

    fn supports(&self, method: &String) -> (r: bool) {
        self.inner.supports(method)
    }

    fn call_api(&mut self, method: &String, req: Value) -> (res: Value) {
        let ghost pre_log = events_view(self.log);
        let ghost req_v = req@;
        if self.config.request {
            let event = TraceEvent::Request { method: method.clone(), payload: req.clone() };
            self.log.push(event);
            proof {
                assert(events_view(self.log) =~= pre_log.push(
                    TraceEventV::Request { method: method@, payload: req_v },
                ));
            }
        }
        let ghost mid_log = events_view(self.log);
        let res = self.inner.call_api(method, req);
        if matches!(res, Value::RErr(_)) {
            if self.config.error {
                let event = TraceEvent::Failure { method: method.clone(), payload: res.clone() };
                self.log.push(event);
                proof {
                    assert(events_view(self.log) =~= mid_log.push(
                        TraceEventV::Failure { method: method@, payload: res@ },
                    ));
                }
            }
        } else {
            if self.config.response {
                let event = TraceEvent::Response { method: method.clone(), payload: res.clone() };
                self.log.push(event);
                proof {
                    assert(events_view(self.log) =~= mid_log.push(
                        TraceEventV::Response { method: method@, payload: res@ },
                    ));
                }
            }
        }
        proof {
            assert(events_view(self.log) =~= pre_log + trace_entries(
                self.config,
                method@,
                req_v,
                res@,
            ));
        }
        res
    }
}

/// Tracing never alters the returned value: a traced backend responds, on
/// every method and every request, exactly as the wrapped backend does.
pub proof fn lemma_tracer_transparent<B: ImplsMethod>(t: ApiTracer<B>, method: Seq<char>, req: Val)
    ensures
        t.handler_result(method, req) == t.inner.handler_result(method, req),
{
}

} // verus!
