//! A lightweight framework to define APIs as data.
//!
//! The core of this crate is a registry of named request/response methods
//! grouped under an API descriptor, a dispatch table that routes a method
//! name and a payload to the handler bound to that name, and a family of
//! combinators that reshape an API's declared methods and an implementor's
//! call behaviour without touching either one's definition.
//!
//! - A **method** is a named `request -> response` pair, described by a
//!   [`registry::Method`] descriptor.
//! - An **API** is a named, versioned, ordered list of methods
//!   ([`registry::Api`]).
//! - An **implementor** is a backend that supplies one handler per method
//!   ([`implementor::ImplsMethod`]).
//! - A **dispatch table** ([`dispatch::DispatchTable`]) is built once from an
//!   API and an implementor, and routes raw calls by exact method name.

pub mod backend;
pub mod combinator;
pub mod compose;
pub mod dispatch;
pub mod fork_and_forget;
pub mod generate;
pub mod implementor;
pub mod json_rpc;
pub mod openapi;
pub mod openrpc;
pub mod post_json;
pub mod registry;
pub mod trace;
pub mod value;

pub use combinator::ErrInto;
pub use combinator::IgnoreOk;
pub use combinator::IgnoreRes;
pub use combinator::WithErr;
pub use compose::Compose;
pub use compose::ComposeRes;
pub use dispatch::DispatchError;
pub use dispatch::DispatchTable;
pub use dispatch::RegistryError;
pub use fork_and_forget::ForkAndForget;
pub use generate::TsApi;
pub use generate::TsMethod;
pub use generate::gen_ts_api;
pub use generate::split_docs;
pub use implementor::ImplsMethod;
pub use json_rpc::JsonRpcClient;
pub use post_json::PostJsonClient;
pub use post_json::PostJsonClient as ApiClient;
pub use post_json::mk_axum_router;
pub use post_json::mk_post_json_router;
pub use registry::Api;
pub use registry::Method;
pub use registry::MethodList;
pub use trace::ApiTracer;
pub use trace::ApiTracerConfig;
pub use value::TypeTag;
pub use value::Val;
pub use value::Value;
