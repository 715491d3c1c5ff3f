use jsonrpsee::types::{ErrorObjectOwned, Params};
use jsonrpsee::Extensions;
use openspec_jsonrpsee::rpc_method::spec::generate;
use openspec_jsonrpsee::syntax::{Attribute, FnArg, ItemFn, Pat, PatType, ReturnType, Type};
use openspec_jsonrpsee::{
    CallError, ContextBinding, EasyModule, HandlerKind, Method, MethodDescriptor, ParamError, RawParams,
    RegistrationError, ResultEnvelope, RpcMethod, ServerHandler, SpecModule, TypedArgs,
};
use schemars::SchemaGenerator;
use std::future::Future;
use std::pin::Pin;
use std::sync::atomic::{AtomicUsize, Ordering};
use std::sync::Arc;

type RpcResult<T> = Result<T, ErrorObjectOwned>;
type SyncCallback<Context, Response> = fn(Params, &Context, &Extensions) -> Response;
type AsyncCallback<Context, Response> =
    fn(Params<'static>, Arc<Context>, Extensions) -> Pin<Box<dyn Future<Output = Response> + Send>>;
type Handler<Context, Response> =
    ServerHandler<SyncCallback<Context, RpcResult<Response>>, AsyncCallback<Context, RpcResult<Response>>>;

fn block_on<F: Future>(future: F) -> F::Output {
    tokio::runtime::Builder::new_current_thread().enable_all().build().unwrap().block_on(future)
}

fn print_hello() {
    println!("hello world");
}

/// `/// This is a doc comment for the do_something method.` over
/// `fn do_something(first_arg: String)`.
#[allow(non_camel_case_types)]
pub struct do_something_with_arg;

impl RpcMethod<(), ()> for do_something_with_arg {
    type Sync = SyncCallback<(), RpcResult<()>>;
    type Async = AsyncCallback<(), RpcResult<()>>;

    fn name(&self) -> &'static str {
        "do_something"
    }

    fn spec(&self) -> Method {
        let input = ItemFn {
            attrs: vec![Attribute {
                path: "doc".into(),
                value: Some(" This is a doc comment for the do_something method.".into()),
            }],
            asyncness: false,
            ident: "do_something".into(),
            inputs: vec![FnArg::Typed(PatType {
                attrs: vec![],
                pat: Pat::Ident { ident: "first_arg".into(), mutable: false },
                ty: Type::Name("String".into()),
            })],
            output: ReturnType::Default,
        };
        let generator = SchemaGenerator::default();
        generate(
            &input,
            "DoSomething",
            &vec![generator.clone().into_root_schema_for::<String>()],
            generator.into_root_schema_for::<()>(),
        )
        .unwrap()
    }

    fn handler(&self) -> ServerHandler<Self::Sync, Self::Async> {
        fn callback_wrapper(params: Params, _context: &(), _ext: &Extensions) -> RpcResult<()> {
            let _first_arg: String = params.one()?;
            print_hello();
            Ok(())
        }
        ServerHandler::Sync(callback_wrapper)
    }
}

#[test]
pub fn fn_arg_no_return_test_jsonrpsee() {
    let mut module = EasyModule::new(());
    module.add_method(do_something_with_arg).expect("proof of concept should be able to register");
    assert_eq!(module.methods().len(), 1);
    assert_eq!(module.methods()[0].name, "do_something");
    assert_eq!(
        module.methods()[0].description,
        Some("This is a doc comment for the do_something method.".to_string())
    );
    assert_eq!(module.methods()[0].params.len(), 1);
    assert_eq!(module.methods()[0].params[0].name, "first_arg");
}

/// `/// This is a doc comment for the do_something method.` over
/// `fn do_something()`.
pub struct DoSomething;

impl RpcMethod<(), ()> for DoSomething {
    type Sync = SyncCallback<(), RpcResult<()>>;
    type Async = AsyncCallback<(), RpcResult<()>>;

    fn name(&self) -> &'static str {
        "do_something"
    }

    fn spec(&self) -> Method {
        let input = ItemFn {
            attrs: vec![Attribute {
                path: "doc".into(),
                value: Some(" This is a doc comment for the do_something method.".into()),
            }],
            asyncness: false,
            ident: "do_something".into(),
            inputs: vec![],
            output: ReturnType::Default,
        };
        generate(&input, "DoSomething", &vec![], SchemaGenerator::default().into_root_schema_for::<()>()).unwrap()
    }

    fn handler(&self) -> ServerHandler<Self::Sync, Self::Async> {
        fn callback_wrapper(params: Params, _context: &(), _ext: &Extensions) -> RpcResult<()> {
            let (): () = params.parse()?;
            print_hello();
            Ok(())
        }
        ServerHandler::Sync(callback_wrapper)
    }
}

#[test]
pub fn fn_no_arg_no_return_test_jsonrpsee() {
    let mut module = SpecModule::new(());
    module.add_method(DoSomething).expect("proof of concept should be able to register");
    assert_eq!(module.spec().methods.len(), 1);
    assert_eq!(module.spec().methods[0].result.as_ref().unwrap().name, "DoSomethingResponse");
    let module = module.into_jsonrpsee_module();
    let response: () = block_on(module.call("do_something", jsonrpsee::core::params::ArrayParams::new())).unwrap();
    assert_eq!(response, ());
}

// This would be what the declared function is kept as.
fn do_something_impl_do_something() {
    println!("hello world");
}

#[allow(non_camel_case_types)]
pub struct do_something;

impl RpcMethod<(), ()> for do_something {
    type Sync = SyncCallback<(), RpcResult<()>>;
    type Async = AsyncCallback<(), RpcResult<()>>;

    fn name(&self) -> &'static str {
        "do_something"
    }

    fn spec(&self) -> Method {
        Method {
            name: "do_something".into(),
            tags: None,
            summary: None,
            description: None,
            external_docs: None,
            params: vec![],
            result: None,
            deprecated: Some(false),
            servers: None,
            errors: None,
            links: None,
            param_structure: None,
            examples: None,
        }
    }

    fn handler(&self) -> ServerHandler<Self::Sync, Self::Async> {
        fn do_something_rpc_wrapper(_params: Params, _context: &(), _ext: &Extensions) -> RpcResult<()> {
            do_something_impl_do_something();
            Ok(())
        }

        ServerHandler::Sync(do_something_rpc_wrapper)
    }
}

#[test]
pub fn poc_jsonrpsee_simple_test_jsonrpsee() {
    let mut module = EasyModule::new(());
    module.add_method(do_something).expect("proof of concept should be able to register");
    assert_eq!(module.methods().len(), 1);
    assert_eq!(module.methods()[0].deprecated, Some(false));
    assert!(module.methods()[0].result.is_none());
}

static CALLS: AtomicUsize = AtomicUsize::new(0);

fn counted(_params: Params, _context: &(), _ext: &Extensions) -> RpcResult<usize> {
    Ok(CALLS.fetch_add(1, Ordering::SeqCst) + 1)
}

fn uncounted(_params: Params, _context: &(), _ext: &Extensions) -> RpcResult<usize> {
    Ok(0)
}

#[test]
fn a_call_of_an_unregistered_name_reaches_no_handler() {
    let mut module = SpecModule::new(());
    let handler: Handler<(), usize> = ServerHandler::Sync(counted);
    module.register(MethodDescriptor::new("sibling", Method::new("sibling".into(), vec![]), handler)).unwrap();

    for name in ["missing", "", "Sibling", "sibling "] {
        match module.dispatch(name, RawParams::Absent, ()) {
            Err(CallError::MethodNotFound(called)) => assert_eq!(called, name),
            other => panic!("nothing is registered as {name:?}: {other:?}"),
        }
        match module.dispatch(name, RawParams::Positional(vec![serde_json::Value::from(1)]), ()) {
            Err(error) => {
                assert_eq!(error.code(), -32601);
                assert_eq!(error.message(), "Method not found");
            }
            other => panic!("nothing is registered as {name:?}: {other:?}"),
        }
    }
    assert!(module.find("missing").is_none());
    assert_eq!(module.find("sibling"), Some(0));

    let transport = module.into_jsonrpsee_module();
    let outcome = block_on(transport.call::<_, usize>("missing", jsonrpsee::core::params::ArrayParams::new()));
    match outcome.unwrap_err() {
        jsonrpsee::MethodsError::JsonRpc(error) => {
            assert_eq!(error.code(), -32601);
            assert_eq!(error.message(), "Method not found");
        }
        other => panic!("the transport rejects the name as the registry does: {other:?}"),
    }
    assert_eq!(CALLS.load(Ordering::SeqCst), 0);

    let outcome = block_on(transport.call::<_, usize>("sibling", jsonrpsee::core::params::ArrayParams::new()));
    assert_eq!(outcome.unwrap(), 1);
    assert_eq!(CALLS.load(Ordering::SeqCst), 1);
}

#[test]
fn a_second_registration_under_a_name_changes_nothing() {
    let mut module = SpecModule::new(());
    let first: Handler<(), usize> = ServerHandler::Sync(uncounted);
    let mut described = Method::new("twice".into(), vec![]);
    described.summary = Some("the first".into());
    module.register(MethodDescriptor::new("twice", described, first)).unwrap();
    assert_eq!(module.spec().methods.len(), 1);

    let second: Handler<(), usize> = ServerHandler::Sync(counted);
    let mut other = Method::new("twice".into(), vec![]);
    other.summary = Some("the second".into());
    match module.register(MethodDescriptor::new("twice", other, second)) {
        Err(RegistrationError::AlreadyRegistered(name)) => assert_eq!(name, "twice"),
        other => panic!("the name is taken: {other:?}"),
    }
    assert_eq!(module.spec().methods.len(), 1);
    assert_eq!(module.spec().methods[0].summary, Some("the first".to_string()));
    assert_eq!(module.find("twice"), Some(0));
    assert_eq!(module.len(), 1);
    let record = module.record(0).expect("the first method keeps its record");
    assert_eq!(record.name, "twice");
    assert_eq!(record.kind, HandlerKind::Sync);
    assert_eq!(record.binding, ContextBinding::Borrowed);
    assert!(record.params.is_empty());
    assert!(module.record(1).is_none());

    let transport = module.into_jsonrpsee_module();
    assert_eq!(transport.method_names().count(), 1);
    let outcome = block_on(transport.call::<_, usize>("twice", jsonrpsee::core::params::ArrayParams::new()));
    assert_eq!(outcome.unwrap(), 0);
}

#[test]
fn a_binding_must_fit_the_shape_of_the_handler() {
    let mut module = SpecModule::new(());
    let handler: Handler<(), usize> = ServerHandler::Sync(uncounted);
    let descriptor = MethodDescriptor::new("shared", Method::new("shared".into(), vec![]), handler);
    assert_eq!(descriptor.kind(), HandlerKind::Sync);
    match module.register(descriptor.with_binding(ContextBinding::SharedHandle)) {
        Err(RegistrationError::Binding { binding, kind }) => {
            assert_eq!(binding, ContextBinding::SharedHandle);
            assert_eq!(kind, HandlerKind::Sync);
        }
        other => panic!("a synchronous handler takes no shared handle: {other:?}"),
    }
    assert!(module.spec().methods.is_empty());
    assert!(module.find("shared").is_none());
    assert!(module.refusal("shared", HandlerKind::Sync, ContextBinding::Owned).is_none());
    assert!(module.refusal("shared", HandlerKind::Sync, ContextBinding::Absent).is_none());
    assert!(module.refusal("shared", HandlerKind::Async, ContextBinding::SharedHandle).is_none());
    assert!(matches!(
        module.refusal("shared", HandlerKind::Async, ContextBinding::Borrowed),
        Some(RegistrationError::Binding { .. })
    ));
    assert!(ContextBinding::Borrowed.valid_for(HandlerKind::Sync));
    assert!(!ContextBinding::Borrowed.valid_for(HandlerKind::Async));
    assert!(!ContextBinding::SharedHandle.valid_for(HandlerKind::Sync));
    assert_eq!(ContextBinding::infer(HandlerKind::Sync, false, true), ContextBinding::Absent);
    assert_eq!(ContextBinding::infer(HandlerKind::Async, false, false), ContextBinding::Absent);
    assert_eq!(ContextBinding::infer(HandlerKind::Sync, true, true), ContextBinding::Borrowed);
    assert_eq!(ContextBinding::infer(HandlerKind::Async, true, true), ContextBinding::SharedHandle);
    assert_eq!(ContextBinding::infer(HandlerKind::Sync, true, false), ContextBinding::Owned);
    assert_eq!(ContextBinding::infer(HandlerKind::Async, true, false), ContextBinding::Owned);
}

#[test]
fn a_call_is_read_by_the_names_of_the_description() {
    let mut module = SpecModule::new(());
    let generator = SchemaGenerator::default();
    let input = ItemFn {
        attrs: vec![],
        asyncness: false,
        ident: "rename".into(),
        inputs: vec![
            FnArg::Typed(PatType {
                attrs: vec![],
                pat: Pat::Ident { ident: "id".into(), mutable: false },
                ty: Type::Name("u32".into()),
            }),
            FnArg::Typed(PatType {
                attrs: vec![],
                pat: Pat::Ident { ident: "name".into(), mutable: false },
                ty: Type::Name("String".into()),
            }),
        ],
        output: ReturnType::Type(Type::Name("usize".into())),
    };
    let described = generate(
        &input,
        "Rename",
        &vec![generator.clone().into_root_schema_for::<u32>(), generator.clone().into_root_schema_for::<String>()],
        generator.into_root_schema_for::<usize>(),
    )
    .unwrap();
    let handler: Handler<(), usize> = ServerHandler::Sync(uncounted);
    module.register(MethodDescriptor::new("rename", described, handler).with_binding(ContextBinding::Absent)).unwrap();

    let id = serde_json::Value::from(7);
    let name = serde_json::Value::from("new");
    match module.dispatch("rename", RawParams::Positional(vec![id.clone(), name.clone()]), "metadata") {
        Ok(call) => {
            assert_eq!(call.position, 0);
            assert_eq!(call.kind, HandlerKind::Sync);
            assert_eq!(call.binding, ContextBinding::Absent);
            assert_eq!(call.args, TypedArgs::Many(vec![id.clone(), name.clone()]));
            assert_eq!(call.extensions, "metadata");
        }
        other => panic!("the call has the arguments of the method: {other:?}"),
    }
    let by_name = RawParams::Keyed(vec![("name".into(), name.clone()), ("id".into(), id.clone())]);
    match module.dispatch("rename", by_name, ()) {
        Ok(call) => assert_eq!(call.args, TypedArgs::Many(vec![id.clone(), name.clone()])),
        other => panic!("the call has the arguments of the method: {other:?}"),
    }
    match module.dispatch("rename", RawParams::Positional(vec![id.clone()]), ()) {
        Err(CallError::InvalidParams(error)) => {
            assert_eq!(error, ParamError::Missing { position: 1, name: "name".into() })
        }
        other => panic!("a value is missing: {other:?}"),
    }
    let many = RawParams::Positional(vec![id.clone(), name.clone(), id.clone()]);
    match module.dispatch("rename", many.clone(), ()) {
        Err(error) => {
            assert_eq!(error.code(), -32602);
            assert_eq!(error.message(), "Invalid params");
            assert!(matches!(
                error,
                CallError::InvalidParams(ParamError::ExtraParams { position: 2, .. })
            ));
        }
        other => panic!("a value too many is rejected in strict mode: {other:?}"),
    }
    module.set_strict(false);
    match module.dispatch("rename", many, ()) {
        Ok(call) => assert_eq!(call.args, TypedArgs::Many(vec![id, name])),
        other => panic!("a value too many is left out otherwise: {other:?}"),
    }
}

#[test]
fn the_error_of_a_handler_is_handed_on_as_it_is() {
    let failure = openspec_jsonrpsee::Error {
        code: 4711,
        message: "no such user".into(),
        data: Some(serde_json::Value::from(12)),
    };
    match ResultEnvelope::<u8>::complete(Err(failure)) {
        ResultEnvelope::Failure(error) => {
            assert_eq!(error.code(), 4711);
            assert_eq!(error.message(), "no such user");
            match error {
                CallError::Handler(own) => assert_eq!(own.data, Some(serde_json::Value::from(12))),
                other => panic!("the error is the handler's own: {other:?}"),
            }
        }
        other => panic!("a failed handler makes no response: {other:?}"),
    }
    assert!(matches!(ResultEnvelope::<u8>::complete(Ok(3)), ResultEnvelope::Success(3)));
    assert!(matches!(
        ResultEnvelope::<u8>::reject(CallError::MethodNotFound("gone".into())),
        ResultEnvelope::Failure(CallError::MethodNotFound(_))
    ));
}

#[test]
fn a_registration_changes_nothing_for_the_methods_before_it() {
    let mut module = SpecModule::new(());
    let first: Handler<(), usize> = ServerHandler::Sync(uncounted);
    let mut described = Method::new("first".into(), vec![]);
    described.summary = Some("the first".into());
    module.register(MethodDescriptor::new("first", described, first)).unwrap();

    let calls = [
        RawParams::Absent,
        RawParams::Positional(vec![]),
        RawParams::Positional(vec![serde_json::Value::from(1)]),
        RawParams::Scalar(serde_json::Value::from(1)),
    ];
    let before: Vec<String> = calls.iter().map(|raw| format!("{:?}", module.dispatch("first", raw.clone(), ()))).collect();

    for name in ["second", "third"] {
        let next: Handler<(), usize> = ServerHandler::Sync(counted);
        module.register(MethodDescriptor::new(name, Method::new(name.into(), vec![]), next)).unwrap();
    }

    let after: Vec<String> = calls.iter().map(|raw| format!("{:?}", module.dispatch("first", raw.clone(), ()))).collect();
    assert_eq!(before, after);
    assert_eq!(module.find("first"), Some(0));
    assert_eq!(module.find("second"), Some(1));
    assert_eq!(module.find("third"), Some(2));
    let names: Vec<&str> = module.spec().methods.iter().map(|method| method.name.as_str()).collect();
    assert_eq!(names, vec!["first", "second", "third"]);
    assert_eq!(module.spec().methods[0].summary, Some("the first".to_string()));
}

#[test]
fn what_a_method_answers_is_what_is_added() {
    let mut module = SpecModule::new(());
    module.add_method(do_something_with_arg).unwrap();
    assert_eq!(module.len(), 1);
    let record = module.record(0).unwrap();
    assert_eq!(record.name, do_something_with_arg.name());
    assert_eq!(record.kind, HandlerKind::Sync);
    assert_eq!(record.binding, do_something_with_arg.binding(HandlerKind::Sync));
    assert_eq!(record.params, vec!["first_arg"]);
    assert_eq!(format!("{:?}", module.spec().methods[0]), format!("{:?}", do_something_with_arg.spec()));

    match module.add_method(DoSomething) {
        Err(RegistrationError::AlreadyRegistered(name)) => assert_eq!(name, DoSomething.name()),
        other => panic!("the name is taken: {:?}", other.map(|_| ())),
    }
    assert_eq!(module.len(), 1);
    assert_eq!(module.spec().methods.len(), 1);
    assert_eq!(module.spec().methods[0].params.len(), 1);
    assert_eq!(module.find("do_something"), Some(0));

    let mut easy = EasyModule::new(());
    easy.add_method(DoSomething).unwrap();
    assert_eq!(easy.methods().len(), 1);
    assert_eq!(format!("{:?}", easy.methods()[0]), format!("{:?}", DoSomething.spec()));
    match easy.add_method(do_something) {
        Err(RegistrationError::AlreadyRegistered(name)) => assert_eq!(name, "do_something"),
        other => panic!("the name is taken: {other:?}"),
    }
    assert_eq!(easy.methods().len(), 1);
    assert_eq!(easy.methods()[0].result.as_ref().unwrap().name, "DoSomethingResponse");
    let transport = easy.into_jsonrpsee_module();
    assert_eq!(transport.method_names().collect::<Vec<_>>(), vec!["do_something"]);
}
