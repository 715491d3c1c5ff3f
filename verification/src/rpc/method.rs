//! The handler of a method, the two shapes it can have, and the ways in which the
//! shared context reaches it.
use crate::spec::Method;
use std::marker::PhantomData;
use vstd::prelude::*;

verus! {

/// The shape of a handler.
#[derive(Debug, Clone, Copy, PartialEq, Eq, Structural)]
pub enum HandlerKind {
    /// The handler runs on the calling thread and returns its result.
    Sync,
    /// The handler returns a future, which runs as a task of its own.
    Async,
}

/// How the shared context is supplied to a handler.
#[derive(Debug, Clone, Copy, PartialEq, Eq, Structural)]
pub enum ContextBinding {
    /// The handler declares no context: the unit value stands in for it.
    Absent,
    /// The handler is handed a full clone of the context.
    Owned,
    /// The handler is handed a reference that lasts for the call.
    Borrowed,
    /// The handler is handed a reference-counted handle to the context.
    SharedHandle,
}

impl ContextBinding {
    /// Whether a handler of the shape `kind` can be given the context in this
    /// way: a reference that lasts for the call only serves a synchronous
    /// handler, and a shared handle is what an asynchronous one is called with.
    pub open spec fn fits(self, kind: HandlerKind) -> bool {
        match self {
            ContextBinding::Absent => true,
            ContextBinding::Owned => true,
            ContextBinding::Borrowed => kind == HandlerKind::Sync,
            ContextBinding::SharedHandle => kind == HandlerKind::Async,
        }
    }

    /// The binding of a handler of the shape `kind` that declares a context
    /// (`needed`), by reference (`referenced`) or by value.
    pub open spec fn of(kind: HandlerKind, needed: bool, referenced: bool) -> ContextBinding {
        if !needed {
            ContextBinding::Absent
        } else if !referenced {
            ContextBinding::Owned
        } else if kind == HandlerKind::Sync {
            ContextBinding::Borrowed
        } else {
            ContextBinding::SharedHandle
        }
    }

    /// Whether a handler of the shape `kind` can be given the context in this
    /// way.
    pub fn valid_for(&self, kind: HandlerKind) -> (valid: bool)
        ensures
            valid == self.fits(kind),
    {
        match self {
            ContextBinding::Absent => true,
            ContextBinding::Owned => true,
            ContextBinding::Borrowed => kind == HandlerKind::Sync,
            ContextBinding::SharedHandle => kind == HandlerKind::Async,
        }
    }

    /// The binding of a handler by what it declares. A handler without a context
    /// argument gets none. One that takes the context by value gets a clone of
    /// it. One that takes it by reference gets the reference of the call where it
    /// is synchronous, and the shared handle, to borrow from, where it is
    /// asynchronous.
    pub fn infer(kind: HandlerKind, needed: bool, referenced: bool) -> (binding: ContextBinding)
        ensures
            binding == ContextBinding::of(kind, needed, referenced),
            binding.fits(kind),
    {
        if !needed {
            ContextBinding::Absent
        } else if !referenced {
            ContextBinding::Owned
        } else if kind == HandlerKind::Sync {
            ContextBinding::Borrowed
        } else {
            ContextBinding::SharedHandle
        }
    }
}

/// The handler of a method on the server: a synchronous callback, or an
/// asynchronous one. Which of the two it is does not change once it is made.
pub enum ServerHandler<S, A> {
    Sync(S),
    Async(A),
}

impl<S, A> ServerHandler<S, A> {
    /// The shape of this handler.
    pub open spec fn shape(self) -> HandlerKind {
        match self {
            ServerHandler::Sync(_) => HandlerKind::Sync,
            ServerHandler::Async(_) => HandlerKind::Async,
        }
    }

    /// The shape of this handler.
    pub fn kind(&self) -> (kind: HandlerKind)
        ensures
            kind == self.shape(),
    {
        match self {
            ServerHandler::Sync(_) => HandlerKind::Sync,
            ServerHandler::Async(_) => HandlerKind::Async,
        }
    }
}

/// A method that can be registered: its name, its description and its handler.
///
/// `Context` is the type of the context that the handler is called with, and
/// `Response` the type of what it answers.
pub trait RpcMethod<Context, Response> {
    /// The type of the callback of a synchronous handler.
    type Sync;

    /// The type of the callback of an asynchronous handler.
    type Async;

    /// Returns the name of the method, by which calls find it.
    fn name(&self) -> &'static str;

    /// Returns the description of the method.
    fn spec(&self) -> Method;

    /// Returns the callback that handles a call of the method.
    fn handler(&self) -> ServerHandler<Self::Sync, Self::Async>;

    /// Whether the method leaves the way in which the context reaches its
    /// handler to the shape of the handler. A method does so unless it says
    /// otherwise, here and in what it answers to `binding`.
    open spec fn binds_by_shape(&self) -> bool {
        true
    }

    /// Returns the way in which the context is supplied to the handler of the
    /// method, which is of the shape `kind`. Unless a method says otherwise,
    /// its handler is handed what the transport calls a callback of its shape
    /// with: a reference for the call where it is synchronous, a shared handle
    /// where it is asynchronous.
    fn binding(&self, kind: HandlerKind) -> (binding: ContextBinding)
        ensures
            self.binds_by_shape() ==> binding == ContextBinding::of(kind, true, true),
    {
        ContextBinding::infer(kind, true, true)
    }
}

/// A method as plain values: its name, its description, its callback and the way
/// in which the context reaches the callback. Nothing of it changes once it is
/// made.
///
/// `Context` and `Response` are the types of the context and of the response of
/// the method, and `S` and `A` the types of a synchronous and of an
/// asynchronous callback over them.
pub struct MethodDescriptor<Context, Response, S, A> {
    name: &'static str,
    spec: Method,
    handler: ServerHandler<S, A>,
    binding: ContextBinding,
    /// Stands for the context and the response, of which the descriptor holds
    /// no value.
    marker: PhantomData<(Context, Response)>,
}

impl<Context, Response, S, A> MethodDescriptor<Context, Response, S, A> {
    /// The name of the method.
    pub closed spec fn method_name(&self) -> Seq<char> {
        self.name@
    }

    /// The description of the method.
    pub closed spec fn description(&self) -> Method {
        self.spec
    }

    /// The callback of the method.
    pub closed spec fn callback(&self) -> ServerHandler<S, A> {
        self.handler
    }

    /// The way in which the context reaches the callback.
    pub closed spec fn context_binding(&self) -> ContextBinding {
        self.binding
    }

    /// The method `name` with the description `spec` and the callback
    /// `handler`, to which the context is supplied as the transport calls a
    /// callback of its shape.
    pub fn new(name: &'static str, spec: Method, handler: ServerHandler<S, A>) -> (descriptor: Self)
        ensures
            descriptor.method_name() == name@,
            descriptor.description() == spec,
            descriptor.callback() == handler,
            descriptor.context_binding() == ContextBinding::of(
                match handler {
                    ServerHandler::Sync(_) => HandlerKind::Sync,
                    ServerHandler::Async(_) => HandlerKind::Async,
                },
                true,
                true,
            ),
    {
        let binding = ContextBinding::infer(handler.kind(), true, true);
        MethodDescriptor { name, spec, handler, binding, marker: PhantomData }
    }

    /// The same method with the context supplied in the way `binding`. Whether
    /// the binding fits the shape of the handler is judged when the method is
    /// registered.
    pub fn with_binding(self, binding: ContextBinding) -> (descriptor: Self)
        ensures
            descriptor.method_name() == self.method_name(),
            descriptor.description() == self.description(),
            descriptor.callback() == self.callback(),
            descriptor.context_binding() == binding,
    {
        MethodDescriptor { name: self.name, spec: self.spec, handler: self.handler, binding, marker: PhantomData }
    }

    /// Takes the method apart: its name, its description, its callback and its
    /// binding.
    pub fn into_parts(self) -> (parts: (&'static str, Method, ServerHandler<S, A>, ContextBinding))
        ensures
            parts.0@ == self.method_name(),
            parts.1 == self.description(),
            parts.2 == self.callback(),
            parts.3 == self.context_binding(),
    {
        (self.name, self.spec, self.handler, self.binding)
    }

    /// The shape of the handler.
    pub fn kind(&self) -> (kind: HandlerKind)
        ensures
            kind == (match self.callback() {
                ServerHandler::Sync(_) => HandlerKind::Sync,
                ServerHandler::Async(_) => HandlerKind::Async,
            }),
    {
        self.handler.kind()
    }
}

impl<Context, Response, S: Clone, A: Clone> RpcMethod<Context, Response> for MethodDescriptor<
    Context,
    Response,
    S,
    A,
> {
    type Sync = S;

    type Async = A;

    /// A descriptor names the way in which the context reaches its handler
    /// itself.
    open spec fn binds_by_shape(&self) -> bool {
        false
    }

    fn name(&self) -> (name: &'static str)
        ensures
            name@ == self.method_name(),
    {
        self.name
    }

    fn spec(&self) -> (spec: Method)
        ensures
            spec.deep_view() == self.description().deep_view(),
    {
        self.spec.clone()
    }

    fn handler(&self) -> (handler: ServerHandler<S, A>)
        ensures
            match (self.callback(), handler) {
                (ServerHandler::Sync(own), ServerHandler::Sync(copy)) => cloned::<S>(own, copy),
                (ServerHandler::Async(own), ServerHandler::Async(copy)) => cloned::<A>(own, copy),
                _ => false,
            },
    {
        match &self.handler {
            ServerHandler::Sync(callback) => ServerHandler::Sync(callback.clone()),
            ServerHandler::Async(callback) => ServerHandler::Async(callback.clone()),
        }
    }

    fn binding(&self, kind: HandlerKind) -> (binding: ContextBinding)
        ensures
            binding == self.context_binding(),
    {
        self.binding
    }
}

} // verus!
