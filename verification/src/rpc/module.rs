//! The registry of methods: the shared context, the table of what is registered
//! and the document that describes it.
use crate::outside::{share, Transport};
use crate::params::{decode, decoded, ParamErrorView, RawParams, TypedArgs, TypedArgsView};
use crate::rpc::envelope::CallError;
use crate::rpc::method::{ContextBinding, HandlerKind, MethodDescriptor, RpcMethod, ServerHandler};
use crate::spec::{ContentDescriptor, ExternalDocumentation, Info, Method, OpenRpcSpec, Server};
use std::sync::Arc;
use vstd::prelude::*;

verus! {

/// What the registry keeps of a registered method.
#[derive(Debug, Clone)]
pub struct MethodRecord {
    /// The name by which calls find the method.
    pub name: String,
    /// The shape of its handler.
    pub kind: HandlerKind,
    /// How the context is supplied to its handler.
    pub binding: ContextBinding,
    /// The names of its arguments, in the order of the declaration.
    pub params: Vec<String>,
}

pub struct MethodRecordView {
    pub name: Seq<char>,
    pub kind: HandlerKind,
    pub binding: ContextBinding,
    pub params: Seq<Seq<char>>,
}

impl DeepView for MethodRecord {
    type V = MethodRecordView;

    open spec fn deep_view(&self) -> MethodRecordView {
        MethodRecordView {
            name: self.name@,
            kind: self.kind,
            binding: self.binding,
            params: self.params.deep_view(),
        }
    }
}

/// Why a method was not registered.
#[derive(Debug)]
pub enum RegistrationError {
    /// A method is registered under the name already.
    AlreadyRegistered(String),
    /// The context cannot reach a handler of the shape `kind` in the way
    /// `binding`.
    Binding { binding: ContextBinding, kind: HandlerKind },
    /// The transport module has refused the method. It refuses a name only
    /// where it holds it, and a well-formed registry refuses such a name
    /// itself: no registration ends in this error.
    Refused(jsonrpsee::core::RegisterMethodError),
}

/// The position in `table` of the first record, from `from` on, that is named
/// `name`.
pub open spec fn position_of(table: Seq<MethodRecordView>, name: Seq<char>, from: int) -> Option<int>
    decreases table.len() - from,
{
    if from < 0 || from >= table.len() {
        None
    } else if table[from].name == name {
        Some(from)
    } else {
        position_of(table, name, from + 1)
    }
}

/// Whether a method is registered in `table` under `name`.
pub open spec fn has_method(table: Seq<MethodRecordView>, name: Seq<char>) -> bool {
    position_of(table, name, 0) is Some
}

/// Whether no two records of `table` have the same name.
pub open spec fn distinct_names(table: Seq<MethodRecordView>) -> bool {
    forall|i: int, j: int| 0 <= i < j < table.len() ==> (#[trigger] table[i]).name != (#[trigger] table[j]).name
}

/// The names of the arguments that `params` describe.
pub open spec fn param_names(params: Seq<ContentDescriptor>) -> Seq<Seq<char>> {
    Seq::new(params.len(), |k: int| params[k].name@)
}

/// The record of a method named `name` with a handler of the shape `kind`, the
/// context supplied in the way `binding`, and the description `spec`.
pub open spec fn record_of(name: Seq<char>, kind: HandlerKind, binding: ContextBinding, spec: Method) -> MethodRecordView {
    MethodRecordView { name, kind, binding, params: param_names(spec.params@) }
}

/// Whether `after` is the document `before` with the description `spec` added
/// at the end of its methods, and nothing else changed.
pub open spec fn describes_one_more(before: OpenRpcSpec, after: OpenRpcSpec, spec: Method) -> bool {
    &&& after.methods@ == before.methods@.push(spec)
    &&& after.openrpc == before.openrpc
    &&& after.info == before.info
    &&& after.servers == before.servers
    &&& after.components == before.components
    &&& after.external_docs == before.external_docs
}

/// What becomes of a call of the method `name` with the parameters `raw`, in a
/// registry with the table `table`: a call of a name that is not registered is
/// rejected as such; a call whose parameters do not make the arguments of the
/// method is rejected with the reason; every other call is for the handler of
/// the record, with the arguments read.
pub open spec fn dispatched(
    table: Seq<MethodRecordView>,
    strict: bool,
    name: Seq<char>,
    raw: crate::params::RawParamsView,
) -> DispatchView {
    match position_of(table, name, 0) {
        None => DispatchView::MethodNotFound(name),
        Some(position) => match decoded(raw, table[position].params, strict) {
            Err(e) => DispatchView::InvalidParams(e),
            Ok(args) => DispatchView::Invoke {
                position,
                kind: table[position].kind,
                binding: table[position].binding,
                args,
            },
        },
    }
}

/// A call that the registry has found a handler for.
#[derive(Debug, Clone)]
pub struct Invocation<Ext> {
    /// The position of the method in the order of registration.
    pub position: usize,
    /// The shape of the handler.
    pub kind: HandlerKind,
    /// How the context is supplied to the handler.
    pub binding: ContextBinding,
    /// The arguments that the handler is called with.
    pub args: TypedArgs,
    /// What came with the call for the handler, as it came.
    pub extensions: Ext,
}

pub enum DispatchView {
    MethodNotFound(Seq<char>),
    InvalidParams(ParamErrorView),
    Invoke { position: int, kind: HandlerKind, binding: ContextBinding, args: TypedArgsView },
}

/// Whether `decision` is what `view` says: the call of a found handler, or the
/// error of a call that reaches none. The error of a handler is never the
/// decision of the registry.
pub open spec fn decides<Ext>(decision: Result<Invocation<Ext>, CallError>, view: DispatchView) -> bool {
    match decision {
        Ok(call) => view == (DispatchView::Invoke {
            position: call.position as int,
            kind: call.kind,
            binding: call.binding,
            args: call.args@,
        }),
        Err(CallError::MethodNotFound(name)) => view == DispatchView::MethodNotFound(name@),
        Err(CallError::InvalidParams(e)) => view == DispatchView::InvalidParams(e@),
        Err(CallError::Handler(_)) => false,
    }
}

/// What a handler is handed for the context.
pub enum ContextSupply<'a, Context> {
    /// Nothing: the handler declares no context.
    Unit,
    /// A reference to the context that lasts for the call.
    Reference(&'a Context),
    /// A handle to the context that the handler may keep.
    Handle(Arc<Context>),
}

/// A registry of methods over a shared context, with the OpenRPC document that
/// describes what is registered.
#[verifier::reject_recursive_types(Context)]
pub struct SpecModule<Context> {
    /// The context that every handler is called with.
    context: Arc<Context>,
    /// The transport module, which holds the callbacks, with the names that it
    /// holds them under.
    transport: Transport<Context>,
    /// The document that describes the registered methods.
    spec: OpenRpcSpec,
    /// One record for each registered method, in the order of registration.
    table: Vec<MethodRecord>,
    /// Whether a call with a value that no argument takes is rejected.
    strict: bool,
}

/// The title of the document of a registry that was given none.
pub open spec fn default_title() -> Seq<char> {
    "openspec-jsonrpsee"@
}

/// The version of the document of a registry that was given none.
pub open spec fn default_version() -> Seq<char> {
    "0.1.0"@
}

impl<Context: Send + Sync + 'static> SpecModule<Context> {
    /// The context that the registry was made with.
    pub closed spec fn context(&self) -> Context {
        *self.context
    }

    /// The document that describes the registered methods.
    pub closed spec fn document(&self) -> OpenRpcSpec {
        self.spec
    }

    /// The records of the registered methods, in the order of registration.
    pub closed spec fn table(&self) -> Seq<MethodRecordView> {
        self.table.deep_view()
    }

    /// Whether a call with a value that no argument takes is rejected.
    pub closed spec fn strict(&self) -> bool {
        self.strict
    }

    /// The transport module, which holds the callbacks of the registered
    /// methods.
    pub closed spec fn transport(&self) -> jsonrpsee::RpcModule<Context> {
        self.transport.module()
    }

    /// The names under which the transport module holds a callback.
    pub closed spec fn held(&self) -> Set<Seq<char>> {
        self.transport.names()
    }

    /// The registry is well formed: no two records have the same name; the
    /// transport module holds a callback under a name exactly where the table
    /// has a record of that name; the document describes one method for each
    /// record, in the same order, and each record holds the names of the
    /// arguments that its description names; and the context reaches each
    /// handler in a way that fits its shape.
    pub open spec fn wf(&self) -> bool {
        &&& distinct_names(self.table())
        &&& forall|name: Seq<char>| #[trigger] self.held().contains(name) <==> has_method(self.table(), name)
        &&& self.document().methods@.len() == self.table().len()
        &&& forall|i: int|
            0 <= i < self.table().len() ==> (#[trigger] self.table()[i]).params == param_names(
                self.document().methods@[i].params@,
            )
        &&& forall|i: int| 0 <= i < self.table().len() ==> (#[trigger] self.table()[i]).binding.fits(self.table()[i].kind)
    }

    /// A registry without methods over `context`, strict about parameters, with
    /// an empty document about `info`.
    pub fn with_info(context: Context, info: Info) -> (registry: Self)
        ensures
            registry.wf(),
            registry.context() == context,
            registry.table().len() == 0,
            registry.strict(),
            registry.document().info == info,
            registry.document().openrpc@ == crate::spec::openrpc_version(),
            registry.document().methods@.len() == 0,
            registry.document().servers is None,
            registry.document().components is None,
            registry.document().external_docs is None,
    {
        let context = Arc::new(context);
        let transport = Transport::over(share(&context));
        SpecModule { context, transport, spec: OpenRpcSpec::new(info), table: Vec::new(), strict: true }
    }

    /// A registry without methods over `context`, strict about parameters. Its
    /// document is empty, under the title and the version of this library until
    /// [`SpecModule::set_spec_info`] gives it those of the application.
    pub fn new(context: Context) -> (registry: Self)
        ensures
            registry.wf(),
            registry.context() == context,
            registry.table().len() == 0,
            registry.strict(),
            registry.document().info.title@ == default_title(),
            registry.document().info.version@ == default_version(),
            registry.document().info.description is None,
            registry.document().info.terms_of_service is None,
            registry.document().info.contact is None,
            registry.document().info.license is None,
            registry.document().openrpc@ == crate::spec::openrpc_version(),
            registry.document().methods@.len() == 0,
            registry.document().servers is None,
            registry.document().components is None,
            registry.document().external_docs is None,
    {
        let info = Info::new("openspec-jsonrpsee".to_owned(), "0.1.0".to_owned());
        Self::with_info(context, info)
    }

    /// Sets the metadata of the document.
    pub fn set_spec_info(&mut self, info: Info)
        ensures
            final(self).document() == (OpenRpcSpec { info, ..old(self).document() }),
            final(self).table() == old(self).table(),
            final(self).context() == old(self).context(),
            final(self).strict() == old(self).strict(),
            final(self).transport() == old(self).transport(),
            final(self).held() == old(self).held(),
    {
        self.spec.info = info;
    }

    /// Sets the servers of the document.
    pub fn set_spec_servers(&mut self, servers: Vec<Server>)
        ensures
            final(self).document() == (OpenRpcSpec { servers: Some(servers), ..old(self).document() }),
            final(self).table() == old(self).table(),
            final(self).context() == old(self).context(),
            final(self).strict() == old(self).strict(),
            final(self).transport() == old(self).transport(),
            final(self).held() == old(self).held(),
    {
        self.spec.servers = Some(servers);
    }

    /// Sets the external documentation of the document.
    pub fn set_spec_external_docs(&mut self, external_docs: ExternalDocumentation)
        ensures
            final(self).document() == (OpenRpcSpec {
                external_docs: Some(external_docs),
                ..old(self).document()
            }),
            final(self).table() == old(self).table(),
            final(self).context() == old(self).context(),
            final(self).strict() == old(self).strict(),
            final(self).transport() == old(self).transport(),
            final(self).held() == old(self).held(),
    {
        self.spec.external_docs = Some(external_docs);
    }

    /// Sets whether a call with a value that no argument takes is rejected
    /// (strict) or read without that value.
    pub fn set_strict(&mut self, strict: bool)
        ensures
            final(self).strict() == strict,
            final(self).document() == old(self).document(),
            final(self).table() == old(self).table(),
            final(self).context() == old(self).context(),
            final(self).transport() == old(self).transport(),
            final(self).held() == old(self).held(),
    {
        self.strict = strict;
    }

    /// Returns the document that describes what is registered.
    pub fn spec(&self) -> (document: &OpenRpcSpec)
        ensures
            *document == self.document(),
    {
        &self.spec
    }

    /// Returns the context.
    pub fn context_ref(&self) -> (context: &Context)
        ensures
            *context == self.context(),
    {
        &*self.context
    }

    /// Returns one more handle to the context.
    pub fn context_handle(&self) -> (handle: Arc<Context>)
        ensures
            *handle == self.context(),
    {
        share(&self.context)
    }

    /// The number of registered methods.
    pub fn len(&self) -> (count: usize)
        ensures
            count == self.table().len(),
    {
        self.table.len()
    }

    /// The record of the method at `position` in the order of registration.
    pub fn record(&self, position: usize) -> (record: Option<&MethodRecord>)
        ensures
            match record {
                Some(r) => position < self.table().len() && r.deep_view() == self.table()[position as int],
                None => position >= self.table().len(),
            },
    {
        if position < self.table.len() {
            Some(&self.table[position])
        } else {
            None
        }
    }

    /// The position of the method `name` in the order of registration.
    pub fn find(&self, name: &str) -> (position: Option<usize>)
        ensures
            match position {
                Some(p) => position_of(self.table(), name@, 0) == Some(p as int) && p < self.table().len()
                    && self.table()[p as int].name == name@,
                None => position_of(self.table(), name@, 0) is None,
            },
    {
        let wanted = name.to_owned();
        let mut i: usize = 0;
        while i < self.table.len()
            invariant
                i <= self.table.len(),
                wanted@ == name@,
                position_of(self.table.deep_view(), name@, 0) == position_of(
                    self.table.deep_view(),
                    name@,
                    i as int,
                ),
            decreases self.table.len() - i,
        {
            assert(self.table.deep_view()[i as int] == self.table[i as int].deep_view());
            if self.table[i].name == wanted {
                return Some(i);
            }
            i = i + 1;
        }
        None
    }

    /// Why the registry takes no method named `name` with a handler of the shape
    /// `kind` and the context supplied in the way `binding`; nothing where it
    /// takes one.
    pub fn refusal(&self, name: &str, kind: HandlerKind, binding: ContextBinding) -> (refusal: Option<
        RegistrationError,
    >)
        ensures
            refused(self.table(), name@, kind, binding, refusal),
    {
        if self.find(name).is_some() {
            Some(RegistrationError::AlreadyRegistered(name.to_owned()))
        } else if !binding.valid_for(kind) {
            Some(RegistrationError::Binding { binding, kind })
        } else {
            None
        }
    }

    /// Registers the callback `handler` under `name` and enters the method. What
    /// the registry refuses itself is refused before anything is handed to the
    /// transport module; what it does not refuse, the transport module takes.
    fn enter<T, S, A, Fut>(
        &mut self,
        name: &'static str,
        spec: Method,
        handler: ServerHandler<S, A>,
        binding: ContextBinding,
    ) -> (res: Result<(), RegistrationError>) where
        T: serde::Serialize + Clone + 'static,
        S: Fn(jsonrpsee::types::Params, &Context, &jsonrpsee::Extensions) -> Result<
            T,
            jsonrpsee::types::ErrorObject<'static>,
        > + Send + Sync + 'static,
        Fut: std::future::Future<Output = Result<T, jsonrpsee::types::ErrorObject<'static>>> + Send,
        A: (Fn(jsonrpsee::types::Params<'static>, Arc<Context>, jsonrpsee::Extensions) -> Fut) + Clone
            + Send + Sync + 'static,

        requires
            old(self).wf(),
        ensures
            final(self).wf(),
            final(self).context() == old(self).context(),
            final(self).strict() == old(self).strict(),
            registers(*old(self), *final(self), name@, kind_of(handler), binding, spec, res),
    {
        let kind = handler.kind();
        match self.refusal(name, kind, binding) {
            Some(e) => {
                return Err(e);
            },
            None => {},
        }
        assert(!self.held().contains(name@));
        let outcome = match handler {
            ServerHandler::Sync(callback) => self.transport.register_method(name, callback),
            ServerHandler::Async(callback) => self.transport.register_async_method(name, callback),
        };
        assert(outcome is Ok);
        assert(self.held() == old(self).held().insert(name@));
        match outcome {
            // The transport module refuses a name only where it holds it, and it
            // holds none that the table has not: this name is free.
            Err(e) => Err(RegistrationError::Refused(e)),
            Ok(()) => {
                let mut params: Vec<String> = Vec::new();
                let mut k: usize = 0;
                while k < spec.params.len()
                    invariant
                        k <= spec.params.len(),
                        params.len() == k,
                        forall|j: int| 0 <= j < k ==> (#[trigger] params[j])@ == spec.params[j].name@,
                    decreases spec.params.len() - k,
                {
                    params.push(spec.params[k].name.clone());
                    k = k + 1;
                }
                assert(params.deep_view() =~= param_names(spec.params@));
                let record = MethodRecord { name: name.to_owned(), kind, binding, params };
                let ghost before = self.table.deep_view();
                proof {
                    let after = before.push(record.deep_view());
                    assert forall|i: int, j: int| 0 <= i < j < after.len() implies (#[trigger] after[i]).name != (
                    #[trigger] after[j]).name by {
                        if j == before.len() {
                            lemma_absent(before, name@, 0, i);
                        }
                    }
                    assert forall|other: Seq<char>| #[trigger]
                        self.held().contains(other) <==> has_method(after, other) by {
                        lemma_names_after_push(before, record.deep_view(), other);
                        assert(old(self).held().contains(other) <==> has_method(before, other));
                    }
                }
                self.table.push(record);
                assert(self.table.deep_view() =~= before.push(record.deep_view()));
                self.spec.methods.push(spec);
                Ok(())
            },
        }
    }

    /// Registers the method that `descriptor` stands for.
    ///
    /// A name that is taken, and a binding that does not fit the shape of the
    /// handler, are refused before anything is handed to the transport module,
    /// and leave the registry as it was. The callback is then registered with
    /// the transport module; if that refuses, the registry stays as it was too.
    /// Otherwise the method is entered last in the table and its description
    /// last in the document.
    pub fn register<T, S, A, Fut>(&mut self, descriptor: MethodDescriptor<Context, T, S, A>) -> (res: Result<
        (),
        RegistrationError,
    >) where
        T: serde::Serialize + Clone + 'static,
        S: Fn(jsonrpsee::types::Params, &Context, &jsonrpsee::Extensions) -> Result<
            T,
            jsonrpsee::types::ErrorObject<'static>,
        > + Send + Sync + 'static,
        Fut: std::future::Future<Output = Result<T, jsonrpsee::types::ErrorObject<'static>>> + Send,
        A: (Fn(jsonrpsee::types::Params<'static>, Arc<Context>, jsonrpsee::Extensions) -> Fut) + Clone
            + Send + Sync + 'static,

        requires
            old(self).wf(),
        ensures
            final(self).wf(),
            final(self).context() == old(self).context(),
            final(self).strict() == old(self).strict(),
            registers(
                *old(self),
                *final(self),
                descriptor.method_name(),
                kind_of(descriptor.callback()),
                descriptor.context_binding(),
                descriptor.description(),
                res,
            ),
    {
        let (name, spec, handler, binding) = descriptor.into_parts();
        self.enter(name, spec, handler, binding)
    }

    /// Adds `method` to the registry: what it answers as its name, its
    /// description, its callback and the way in which the context reaches the
    /// callback is registered as [`SpecModule::register`] registers a
    /// descriptor of the same four. The registry is returned for the next
    /// registration.
    ///
    /// A name that is taken, and a binding that does not fit the shape of the
    /// callback, are refused before anything is handed to the transport module.
    /// Where the method is registered, it is entered last in the table and
    /// described last in the document; where it is not, table and document are
    /// as they were.
    pub fn add_method<T, M, Fut>(&mut self, method: M) -> (res: Result<&mut Self, RegistrationError>) where
        T: serde::Serialize + Clone + 'static,
        M: RpcMethod<Context, T>,
        M::Sync: Fn(jsonrpsee::types::Params, &Context, &jsonrpsee::Extensions) -> Result<
            T,
            jsonrpsee::types::ErrorObject<'static>,
        > + Send + Sync + 'static,
        Fut: std::future::Future<Output = Result<T, jsonrpsee::types::ErrorObject<'static>>> + Send,
        M::Async: (Fn(jsonrpsee::types::Params<'static>, Arc<Context>, jsonrpsee::Extensions) -> Fut)
            + Clone + Send + Sync + 'static,

        requires
            old(self).wf(),
        ensures
            match res {
                Ok(registry) => {
                    &&& *final(self) == *final(registry)
                    &&& registry.wf()
                    &&& registry.context() == old(self).context()
                    &&& registry.strict() == old(self).strict()
                    &&& adds(*old(self), *registry, method, Ok(()))
                },
                Err(e) => {
                    &&& final(self).wf()
                    &&& final(self).context() == old(self).context()
                    &&& final(self).strict() == old(self).strict()
                    &&& adds(*old(self), *final(self), method, Err(e))
                },
            },
    {
        let name = method.name();
        let spec = method.spec();
        let handler = method.handler();
        let binding = method.binding(handler.kind());
        let ghost answered_spec = spec;
        let ghost answered_handler = handler;
        assert(call_ensures(M::name, (&method,), name));
        assert(call_ensures(M::spec, (&method,), answered_spec));
        assert(call_ensures(M::handler, (&method,), answered_handler));
        assert(call_ensures(M::binding, (&method, kind_of(answered_handler)), binding));
        match self.enter(name, spec, handler, binding) {
            Ok(()) => {
                assert(registers(
                    *old(self),
                    *self,
                    name@,
                    kind_of(answered_handler),
                    binding,
                    answered_spec,
                    Ok(()),
                ));
                Ok(self)
            },
            Err(e) => {
                assert(registers(
                    *old(self),
                    *self,
                    name@,
                    kind_of(answered_handler),
                    binding,
                    answered_spec,
                    Err(e),
                ));
                Err(e)
            },
        }
    }

    /// Decides what becomes of a call of the method `name` with the parameters
    /// `raw`. A call of a name that is not registered is rejected as such,
    /// whatever its parameters: no handler is named for it. A call whose
    /// parameters do not make the arguments of the method is rejected with the
    /// reason. Every other call is for the handler of the method, with the
    /// arguments read and with `extensions` as they came.
    pub fn dispatch<Ext>(&self, name: &str, raw: RawParams, extensions: Ext) -> (decision: Result<
        Invocation<Ext>,
        CallError,
    >)
        ensures
            decides(decision, dispatched(self.table(), self.strict(), name@, raw@)),
            !has_method(self.table(), name@) ==> (decision matches Err(CallError::MethodNotFound(n)) && n@
                == name@),
            decision matches Ok(call) ==> call.extensions == extensions && call.args@.well_formed()
                && call.position < self.table().len(),
            decision matches Ok(call) ==> (self.wf() ==> call.binding.fits(call.kind)),
    {
        match self.find(name) {
            None => Err(CallError::MethodNotFound(name.to_owned())),
            Some(position) => {
                let record = &self.table[position];
                assert(self.table.deep_view()[position as int] == record.deep_view());
                match decode(raw, &record.params, self.strict) {
                    Err(e) => Err(CallError::InvalidParams(e)),
                    Ok(args) => Ok(
                        Invocation { position, kind: record.kind, binding: record.binding, args, extensions },
                    ),
                }
            },
        }
    }

    /// What a handler of the shape `kind` is handed for the context in the way
    /// `binding`: nothing where it declares none, a reference for the call, or a
    /// handle. A handler that is to own a clone makes it from what its shape is
    /// handed: the reference where it is synchronous, the handle where it is
    /// asynchronous. What is handed out always stands for the context that the
    /// registry was made with.
    pub fn supply(&self, binding: ContextBinding, kind: HandlerKind) -> (supply: ContextSupply<'_, Context>)
        ensures
            match supply {
                ContextSupply::Unit => binding == ContextBinding::Absent,
                ContextSupply::Reference(context) => {
                    &&& *context == self.context()
                    &&& binding == ContextBinding::Borrowed || (binding == ContextBinding::Owned && kind
                        == HandlerKind::Sync)
                },
                ContextSupply::Handle(handle) => {
                    &&& *handle == self.context()
                    &&& binding == ContextBinding::SharedHandle || (binding == ContextBinding::Owned
                        && kind == HandlerKind::Async)
                },
            },
    {
        match binding {
            ContextBinding::Absent => ContextSupply::Unit,
            ContextBinding::Borrowed => ContextSupply::Reference(&*self.context),
            ContextBinding::SharedHandle => ContextSupply::Handle(share(&self.context)),
            ContextBinding::Owned => match kind {
                HandlerKind::Sync => ContextSupply::Reference(&*self.context),
                HandlerKind::Async => ContextSupply::Handle(share(&self.context)),
            },
        }
    }

    /// Hands out the transport module, with the callbacks of every registered
    /// method.
    pub fn into_jsonrpsee_module(self) -> (module: jsonrpsee::RpcModule<Context>)
        ensures
            module == self.transport(),
    {
        self.transport.into_module()
    }
}

/// Whether `res` and the registry `after` are what the registration of a method
/// makes of the registry `before`: the method is named `name`, its handler is
/// of the shape `kind`, the context is supplied in the way `binding`, and its
/// description is `spec`.
///
/// - A name that is taken is refused as already registered.
/// - Else a binding that does not fit the shape of the handler is refused.
/// - Every other method is registered.
///
/// A registered method is entered last in the table and described last in the
/// document, and the transport module holds its callback under its name. A
/// refusal leaves the table, the document and the transport module as they
/// were.
pub open spec fn registers<Context: Send + Sync + 'static>(
    before: SpecModule<Context>,
    after: SpecModule<Context>,
    name: Seq<char>,
    kind: HandlerKind,
    binding: ContextBinding,
    spec: Method,
    res: Result<(), RegistrationError>,
) -> bool {
    match res {
        Ok(()) => {
            &&& refused(before.table(), name, kind, binding, None)
            &&& after.table() == before.table().push(record_of(name, kind, binding, spec))
            &&& describes_one_more(before.document(), after.document(), spec)
            &&& after.held() == before.held().insert(name)
        },
        Err(e) => {
            &&& !refused(before.table(), name, kind, binding, None)
            &&& refused(before.table(), name, kind, binding, Some(e))
            &&& after.table() == before.table()
            &&& after.document() == before.document()
            &&& after.transport() == before.transport()
            &&& after.held() == before.held()
        },
    }
}

/// Whether `res` and the registry `after` are what adding `method` makes of the
/// registry `before`: the method has answered a name, a description, a
/// callback, and a binding for the shape of that callback, and what it has
/// answered is registered as [`registers`] says.
pub open spec fn adds<Context: Send + Sync + 'static, T, M: RpcMethod<Context, T>>(
    before: SpecModule<Context>,
    after: SpecModule<Context>,
    method: M,
    res: Result<(), RegistrationError>,
) -> bool {
    exists|name: &'static str, spec: Method, handler: ServerHandler<M::Sync, M::Async>, binding: ContextBinding|
        {
            &&& #[trigger] call_ensures(M::name, (&method,), name)
            &&& #[trigger] call_ensures(M::spec, (&method,), spec)
            &&& #[trigger] call_ensures(M::handler, (&method,), handler)
            &&& #[trigger] call_ensures(M::binding, (&method, kind_of(handler)), binding)
            &&& registers(before, after, name@, kind_of(handler), binding, spec, res)
        }
}

/// The shape of `handler`.
pub open spec fn kind_of<S, A>(handler: ServerHandler<S, A>) -> HandlerKind {
    match handler {
        ServerHandler::Sync(_) => HandlerKind::Sync,
        ServerHandler::Async(_) => HandlerKind::Async,
    }
}

/// Whether `refusal` is what a registry with the table `table` answers, before
/// it turns to the transport module, to the registration of a method named
/// `name` with a handler of the shape `kind` and the context supplied in the way
/// `binding`: the name is taken, or else the binding does not fit the shape, or
/// else nothing.
pub open spec fn refused(
    table: Seq<MethodRecordView>,
    name: Seq<char>,
    kind: HandlerKind,
    binding: ContextBinding,
    refusal: Option<RegistrationError>,
) -> bool {
    if has_method(table, name) {
        refusal matches Some(RegistrationError::AlreadyRegistered(taken)) && taken@ == name
    } else if !binding.fits(kind) {
        refusal == Some(RegistrationError::Binding { binding, kind })
    } else {
        refusal is None
    }
}

/// A name that is not found from `from` on is the name of no record from there
/// on.
proof fn lemma_absent(table: Seq<MethodRecordView>, name: Seq<char>, from: int, at: int)
    requires
        0 <= from <= at < table.len(),
        position_of(table, name, from) is None,
    ensures
        table[at].name != name,
    decreases at - from,
{
    if from < at {
        lemma_absent(table, name, from + 1, at);
    }
}

/// A record that is added to a table is found under its name.
proof fn lemma_registered(table: Seq<MethodRecordView>, record: MethodRecordView, from: int)
    requires
        0 <= from <= table.len(),
    ensures
        position_of(table.push(record), record.name, from) is Some,
    decreases table.len() - from,
{
    let after = table.push(record);
    if from < table.len() {
        if after[from].name != record.name {
            lemma_registered(table, record, from + 1);
        }
    } else {
        assert(after[from].name == record.name);
    }
}

/// Registration fails as a whole. Once a method is registered under a name,
/// whatever is registered under that name next is refused as already registered,
/// before anything is handed to the transport module; and a refused
/// registration leaves table and document as they were (see
/// [`SpecModule::register`]), the one method that holds the name included.
pub proof fn lemma_duplicate_name_is_refused(
    table: Seq<MethodRecordView>,
    first: MethodRecordView,
    kind: HandlerKind,
    binding: ContextBinding,
    refusal: Option<RegistrationError>,
)
    requires
        refused(table.push(first), first.name, kind, binding, refusal),
    ensures
        refusal matches Some(RegistrationError::AlreadyRegistered(taken)) && taken@ == first.name,
{
    lemma_registered(table, first, 0);
}

/// The names of a table with one more record are the names of the table and
/// the name of the record.
proof fn lemma_names_after_push(table: Seq<MethodRecordView>, record: MethodRecordView, name: Seq<char>)
    ensures
        has_method(table.push(record), name) <==> (has_method(table, name) || name == record.name),
{
    if has_method(table, name) {
        lemma_found_stays(table, record, name, 0);
    } else if name == record.name {
        lemma_registered(table, record, 0);
    } else {
        lemma_not_found_stays(table, record, name, 0);
    }
}

/// A name that is not found in a table, and is not the name of the record that
/// is added to it, is not found afterwards.
proof fn lemma_not_found_stays(table: Seq<MethodRecordView>, record: MethodRecordView, name: Seq<char>, from: int)
    requires
        0 <= from <= table.len(),
        position_of(table, name, from) is None,
        name != record.name,
    ensures
        position_of(table.push(record), name, from) is None,
    decreases table.len() - from,
{
    let after = table.push(record);
    if from < table.len() {
        assert(after[from] == table[from]);
        lemma_not_found_stays(table, record, name, from + 1);
    } else {
        assert(after[from] == record);
        assert(position_of(after, name, from + 1) is None);
    }
}

/// A name that is found in a table is found at the same place once a record is
/// added to the table.
proof fn lemma_found_stays(table: Seq<MethodRecordView>, record: MethodRecordView, name: Seq<char>, from: int)
    requires
        0 <= from,
        position_of(table, name, from) is Some,
    ensures
        position_of(table.push(record), name, from) == position_of(table, name, from),
        0 <= position_of(table, name, from)->0 < table.len(),
    decreases table.len() - from,
{
    if from < table.len() && table[from].name != name {
        lemma_found_stays(table, record, name, from + 1);
    }
}

/// The table only grows at its end: a registration changes nothing for the
/// methods that were registered before. Every call of such a method is
/// dispatched after the registration as it was before it, to the same handler
/// at the same position, with the arguments read in the same way.
pub proof fn lemma_registration_keeps_dispatch(
    table: Seq<MethodRecordView>,
    record: MethodRecordView,
    strict: bool,
    name: Seq<char>,
    raw: crate::params::RawParamsView,
)
    requires
        has_method(table, name),
    ensures
        dispatched(table.push(record), strict, name, raw) == dispatched(table, strict, name, raw),
{
    lemma_found_stays(table, record, name, 0);
}

/// A call of a name that is not registered reaches no handler: whatever its
/// parameters and the mode, it is rejected as not found.
pub proof fn lemma_unregistered_is_rejected(
    table: Seq<MethodRecordView>,
    strict: bool,
    name: Seq<char>,
    raw: crate::params::RawParamsView,
)
    requires
        !has_method(table, name),
    ensures
        dispatched(table, strict, name, raw) == DispatchView::MethodNotFound(name),
        !(dispatched(table, strict, name, raw) is Invoke),
{
}

/// A registry of methods over a shared context that keeps the descriptions of
/// its methods as a plain list.
#[verifier::reject_recursive_types(Context)]
pub struct EasyModule<Context> {
    inner: SpecModule<Context>,
}

impl<Context: Send + Sync + 'static> EasyModule<Context> {
    /// The registry that this one is made of.
    pub closed spec fn registry(&self) -> SpecModule<Context> {
        self.inner
    }

    /// A registry without methods over `context`.
    pub fn new(context: Context) -> (registry: Self)
        ensures
            registry.registry().wf(),
            registry.registry().context() == context,
            registry.registry().table().len() == 0,
            registry.registry().document().methods@.len() == 0,
    {
        EasyModule { inner: SpecModule::new(context) }
    }

    /// Adds `method` to the registry, as [`SpecModule::add_method`] does: what
    /// it answers as its name, its description, its callback and its binding
    /// is registered, or refused with the registry left as it was.
    pub fn add_method<T, M, Fut>(&mut self, method: M) -> (res: Result<(), RegistrationError>) where
        T: serde::Serialize + Clone + 'static,
        M: RpcMethod<Context, T>,
        M::Sync: Fn(jsonrpsee::types::Params, &Context, &jsonrpsee::Extensions) -> Result<
            T,
            jsonrpsee::types::ErrorObject<'static>,
        > + Send + Sync + 'static,
        Fut: std::future::Future<Output = Result<T, jsonrpsee::types::ErrorObject<'static>>> + Send,
        M::Async: (Fn(jsonrpsee::types::Params<'static>, Arc<Context>, jsonrpsee::Extensions) -> Fut)
            + Clone + Send + Sync + 'static,

        requires
            old(self).registry().wf(),
        ensures
            final(self).registry().wf(),
            final(self).registry().context() == old(self).registry().context(),
            final(self).registry().strict() == old(self).registry().strict(),
            adds(old(self).registry(), final(self).registry(), method, res),
    {
        match self.inner.add_method(method) {
            Ok(_) => Ok(()),
            Err(e) => Err(e),
        }
    }

    /// The descriptions of the registered methods, in the order of registration.
    pub fn methods(&self) -> (methods: &Vec<Method>)
        ensures
            methods@ == self.registry().document().methods@,
    {
        &self.inner.spec().methods
    }

    /// Hands out the transport module, with the callbacks of every registered
    /// method.
    pub fn into_jsonrpsee_module(self) -> (module: jsonrpsee::RpcModule<Context>)
        ensures
            module == self.registry().transport(),
    {
        self.inner.into_jsonrpsee_module()
    }
}

impl<Context: Send + Sync + 'static> From<SpecModule<Context>> for jsonrpsee::RpcModule<Context> {
    fn from(val: SpecModule<Context>) -> (module: Self) {
        val.into_jsonrpsee_module()
    }
}

impl<Context: Send + Sync + 'static> vstd::std_specs::convert::FromSpecImpl<SpecModule<Context>> for jsonrpsee::RpcModule<Context> {
    open spec fn obeys_from_spec() -> bool {
        true
    }

    open spec fn from_spec(val: SpecModule<Context>) -> Self {
        val.transport()
    }
}

impl<Context: Send + Sync + 'static> From<EasyModule<Context>> for jsonrpsee::RpcModule<Context> {
    fn from(val: EasyModule<Context>) -> (module: Self) {
        val.into_jsonrpsee_module()
    }
}

impl<Context: Send + Sync + 'static> vstd::std_specs::convert::FromSpecImpl<EasyModule<Context>> for jsonrpsee::RpcModule<Context> {
    open spec fn obeys_from_spec() -> bool {
        true
    }

    open spec fn from_spec(val: EasyModule<Context>) -> Self {
        val.registry().transport()
    }
}

} // verus!
