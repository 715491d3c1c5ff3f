//! Methods that are called by name over JSON-RPC, and the OpenRPC document that
//! describes them.
//!
//! An application makes a registry over the context that its handlers share,
//! registers its methods, and hands the registry to the transport. What a
//! method is, is either written down as a [`MethodDescriptor`] or read from the
//! declaration of the function that implements it.
//!
//! - [`rpc`]: the registry ([`SpecModule`]), what can be registered
//!   ([`RpcMethod`], [`MethodDescriptor`], [`ServerHandler`]), how the context
//!   reaches a handler ([`ContextBinding`]), and what a call ends in
//!   ([`ResultEnvelope`]).
//! - [`params`]: the parameters of a call, from what a caller supplies to the
//!   arguments of the method and back.
//! - [`spec`]: the model of the OpenRPC document.
//! - [`syntax`], [`helpers`], [`rpc_method`]: the declaration of a function as
//!   plain values, and what follows from it: the description of the method, the
//!   plan of its handler, and the plans of the requests that call it.
//! - [`text`]: the rules on text that a description rests on.
//! - [`outside`]: what is taken from other crates.
pub mod error;
pub mod helpers;
pub mod outside;
pub mod params;
pub mod rpc;
pub mod rpc_method;
pub mod spec;
pub mod syntax;
pub mod text;

pub use crate::error::UnsupportedShapeError;
pub use crate::params::{ParamError, RawParams, TypedArgs};
pub use crate::rpc::envelope::{CallError, ResultEnvelope};
pub use crate::rpc::method::{ContextBinding, HandlerKind, MethodDescriptor, RpcMethod, ServerHandler};
pub use crate::rpc::module::{
    ContextSupply, EasyModule, Invocation, MethodRecord, RegistrationError, SpecModule,
};
pub use crate::rpc_method::request::RequestImpl;
pub use crate::spec::{
    Components, Contact, ContentDescriptor, Error, Example, ExamplePairing, ExternalDocumentation,
    Info, License, Link, Method, OpenRpcSpec, Server, ServerVariable, Tag,
};
