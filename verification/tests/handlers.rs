use jsonrpsee::types::{ErrorObjectOwned, Params};
use jsonrpsee::{Extensions, MethodsError};
use openspec_jsonrpsee::{
    CallError, ContentDescriptor, Error, Method, MethodDescriptor, ParamError, ResultEnvelope, ServerHandler,
    SpecModule, TypedArgs,
};
use std::future::Future;
use std::pin::Pin;
use std::sync::Arc;

type RpcResult<T> = Result<T, ErrorObjectOwned>;
type SyncCallback<Context, Response> = fn(Params, &Context, &Extensions) -> Response;
type AsyncCallback<Context, Response> =
    fn(Params<'static>, Arc<Context>, Extensions) -> Pin<Box<dyn Future<Output = Response> + Send>>;
type Handler<Response> =
    ServerHandler<SyncCallback<String, RpcResult<Response>>, AsyncCallback<String, RpcResult<Response>>>;

fn block_on<F: Future>(future: F) -> F::Output {
    tokio::runtime::Builder::new_current_thread().enable_all().build().unwrap().block_on(future)
}

/// The error of parameters that do not make the arguments, as the transport
/// sends it.
fn refuse(error: ParamError) -> ErrorObjectOwned {
    let error = CallError::InvalidParams(error);
    jsonrpsee::types::ErrorObject::owned(error.code(), error.message(), Some(format!("{error:?}")))
}

/// The envelope of a call, as the transport sends it.
fn answer<Response>(envelope: ResultEnvelope<Response>) -> RpcResult<Response> {
    match envelope {
        ResultEnvelope::Success(response) => Ok(response),
        ResultEnvelope::Failure(error) => {
            let data = match &error {
                CallError::Handler(own) => own.data.clone(),
                _ => None,
            };
            Err(jsonrpsee::types::ErrorObject::owned(error.code(), error.message(), data))
        }
    }
}

fn greet(greeting: &str, name: String, context: &str) -> String {
    format!("{greeting}, {name}, from {context}")
}

/// The handler of `fn greet(greeting: &str, name: String, #[context] context: &str) -> String`:
/// the parameters are read by the library and the response goes into its
/// envelope.
fn greet_handler<'a, 'b, 'c>(params: Params<'a>, context: &'b String, _ext: &'c Extensions) -> RpcResult<String> {
    let names: Vec<String> = vec!["greeting".into(), "name".into()];
    let args = openspec_jsonrpsee::params::parse(params.as_str(), &names, true).map_err(refuse)?;
    let values = match args {
        TypedArgs::Empty => Vec::new(),
        TypedArgs::Many(values) => values,
        TypedArgs::One(_) => unreachable!("none or several arguments are read as a tuple"),
    };
    let greeting: &str = serde::Deserialize::deserialize(&values[0])
        .map_err(|_| refuse(ParamError::type_mismatch(&names, 0)))?;
    let name: String = serde::Deserialize::deserialize(&values[1])
        .map_err(|_| refuse(ParamError::type_mismatch(&names, 1)))?;
    let response = greet(greeting, name, context);
    answer(ResultEnvelope::complete(Result::<String, Error>::Ok(response)))
}

fn half(number: u64) -> Result<u64, Error> {
    if number % 2 == 0 {
        Ok(number / 2)
    } else {
        Err(Error { code: 4200, message: "odd".into(), data: Some(serde_json::Value::from(number)) })
    }
}

/// The handler of the fallible `async fn half(number: u64) -> Result<u64, Error>`.
fn half_handler(
    params: Params<'static>,
    _context: Arc<String>,
    _ext: Extensions,
) -> Pin<Box<dyn Future<Output = RpcResult<u64>> + Send>> {
    Box::pin(async move {
        let names: Vec<String> = vec!["number".into()];
        let args = openspec_jsonrpsee::params::parse(params.as_str(), &names, true).map_err(refuse)?;
        let values = match args {
            TypedArgs::One(value) => vec![value],
            _ => unreachable!("one argument is read as one value"),
        };
        let number: u64 = serde::Deserialize::deserialize(&values[0])
            .map_err(|_| refuse(ParamError::type_mismatch(&names, 0)))?;
        let response = half(number);
        answer(ResultEnvelope::complete(response))
    })
}

fn described(name: &str, params: &[&str]) -> Method {
    let schema = schemars::SchemaGenerator::default().into_root_schema_for::<String>();
    Method::new(name.into(), params.iter().map(|param| ContentDescriptor::new(param.to_string(), schema.clone())).collect())
}

fn module() -> jsonrpsee::RpcModule<String> {
    let mut module = SpecModule::new("the registry".to_string());
    let greet: Handler<String> = ServerHandler::Sync(greet_handler);
    module.register(MethodDescriptor::new("greet", described("greet", &["greeting", "name"]), greet)).unwrap();
    let half: Handler<u64> = ServerHandler::Async(half_handler);
    module.register(MethodDescriptor::new("half", described("half", &["number"]), half)).unwrap();
    module.into_jsonrpsee_module()
}

fn error_of<T: std::fmt::Debug>(outcome: Result<T, MethodsError>) -> ErrorObjectOwned {
    match outcome {
        Err(MethodsError::JsonRpc(error)) => error,
        other => panic!("the call is answered with an error of the protocol: {other:?}"),
    }
}

#[test]
fn a_served_method_takes_its_parameters_as_a_list_or_by_name() {
    let module = module();
    let by_position: String = block_on(module.call("greet", ["hello", "John"])).unwrap();
    assert_eq!(by_position, "hello, John, from the registry");

    let mut by_name = jsonrpsee::core::params::ObjectParams::new();
    by_name.insert("name", "John").unwrap();
    by_name.insert("greeting", "hello").unwrap();
    let by_name: String = block_on(module.call("greet", by_name)).unwrap();
    assert_eq!(by_name, by_position);

    let mut keyed = jsonrpsee::core::params::ObjectParams::new();
    keyed.insert("number", 8).unwrap();
    let halved: u64 = block_on(module.call("half", keyed)).unwrap();
    assert_eq!(halved, 4);
    let halved: u64 = block_on(module.call("half", [10])).unwrap();
    assert_eq!(halved, 5);
}

#[test]
fn a_served_method_refuses_parameters_that_are_not_its_arguments() {
    let module = module();
    let missing = error_of(block_on(module.call::<_, String>("greet", ["hello"])));
    assert_eq!(missing.code(), -32602);
    assert_eq!(missing.message(), "Invalid params");
    assert!(missing.data().unwrap().get().contains("Missing"));
    assert!(missing.data().unwrap().get().contains("name"));

    let mut unknown = jsonrpsee::core::params::ObjectParams::new();
    unknown.insert("greeting", "hello").unwrap();
    unknown.insert("name", "John").unwrap();
    unknown.insert("title", "Dr").unwrap();
    let extra = error_of(block_on(module.call::<_, String>("greet", unknown)));
    assert_eq!(extra.code(), -32602);
    assert!(extra.data().unwrap().get().contains("ExtraParams"));
    assert!(extra.data().unwrap().get().contains("title"));

    let mismatch = error_of(block_on(module.call::<_, u64>("half", ["eight"])));
    assert_eq!(mismatch.code(), -32602);
    assert!(mismatch.data().unwrap().get().contains("TypeMismatch"));
    assert!(mismatch.data().unwrap().get().contains("number"));
}

#[test]
fn the_error_of_a_served_handler_is_no_response() {
    let module = module();
    let failed = error_of(block_on(module.call::<_, u64>("half", [7])));
    assert_eq!(failed.code(), 4200);
    assert_eq!(failed.message(), "odd");
    assert_eq!(failed.data().unwrap().get(), "7");
}
