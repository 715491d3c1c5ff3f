use jsonrpsee::types::{ErrorObjectOwned, Params};
use jsonrpsee::Extensions;
use openspec_jsonrpsee::params::{parse, ParamError};
use openspec_jsonrpsee::{Method, MethodDescriptor, ServerHandler, SpecModule, TypedArgs};
use std::future::Future;
use std::pin::Pin;
use std::sync::Arc;

type RpcResult<T> = Result<T, ErrorObjectOwned>;
type SyncCallback<Context, Response> = fn(Params, &Context, &Extensions) -> Response;
type AsyncCallback<Context, Response> =
    fn(Params<'static>, Arc<Context>, Extensions) -> Pin<Box<dyn Future<Output = Response> + Send>>;

pub fn do_something() {
    println!("hello world");
}

fn callback() -> SyncCallback<(), RpcResult<()>> {
    fn do_something_rpc_wrapper(params: Params, _context: &(), _ext: &Extensions) -> RpcResult<()> {
        let (_a, _b): (String, String) = params.parse()?;
        do_something();
        Ok(())
    }

    do_something_rpc_wrapper
}

fn names(list: &[&str]) -> Vec<String> {
    list.iter().map(|name| name.to_string()).collect()
}

#[test]
pub fn experiment_test_jsonrpsee() {
    let mut module = SpecModule::new(());
    let handler: ServerHandler<SyncCallback<(), RpcResult<()>>, AsyncCallback<(), RpcResult<()>>> =
        ServerHandler::Sync(callback());
    module
        .register(MethodDescriptor::new("method.name()", Method::new("method.name()".into(), vec![]), handler))
        .expect("proof of concept should be able to register");
    let module = module.into_jsonrpsee_module();
    assert_eq!(module.method_names().collect::<Vec<_>>(), vec!["method.name()"]);
}

#[test]
pub fn param_deserialize_one() {
    let result = parse(Some("[\"hello\"]"), &names(&["value"]), true);
    let value = match result {
        Ok(TypedArgs::One(value)) => value,
        other => panic!("one value was supplied for one argument: {other:?}"),
    };
    assert_eq!("hello".to_string(), serde_json::from_value::<String>(value).unwrap());
}

#[test]
pub fn param_deserialize_two() {
    let result = parse(Some("[\"hello\", 2]"), &names(&["text", "count"]), true);
    let values = match result {
        Ok(TypedArgs::Many(values)) => values,
        other => panic!("two values were supplied for two arguments: {other:?}"),
    };
    assert_eq!(values.len(), 2);
    let text = serde_json::from_value::<String>(values[0].clone()).unwrap();
    let count = serde_json::from_value::<u32>(values[1].clone()).unwrap();
    assert_eq!(("hello".to_string(), 2), (text, count));
}

#[test]
fn text_that_is_no_json_is_of_no_type() {
    let result = parse(Some("[\"hello\""), &names(&["value"]), true);
    assert_eq!(result, Err(ParamError::TypeMismatch { position: 0, name: "value".into() }));
    let result = parse(Some("nothing"), &names(&[]), false);
    assert_eq!(result, Err(ParamError::TypeMismatch { position: 0, name: String::new() }));
}

#[test]
fn absent_and_null_parameters_are_no_parameters() {
    assert_eq!(parse(None, &names(&[]), true), Ok(TypedArgs::Empty));
    assert_eq!(parse(Some("null"), &names(&[]), true), Ok(TypedArgs::Empty));
    assert_eq!(parse(Some(" [] "), &names(&[]), true), Ok(TypedArgs::Empty));
    assert_eq!(
        parse(None, &names(&["value"]), true),
        Err(ParamError::Missing { position: 0, name: "value".into() })
    );
}

#[test]
fn an_object_supplies_arguments_by_name() {
    let result = parse(Some("{\"count\": 2, \"text\": \"hello\"}"), &names(&["text", "count"]), true);
    assert_eq!(
        result,
        Ok(TypedArgs::Many(vec![serde_json::Value::from("hello"), serde_json::Value::from(2)]))
    );
    let result = parse(Some("{\"count\": 2, \"text\": \"hello\", \"more\": true}"), &names(&["text", "count"]), true);
    assert!(matches!(result, Err(ParamError::ExtraParams { name, .. }) if name == "more"));
    let result = parse(Some("{\"count\": 2, \"text\": \"hello\", \"more\": true}"), &names(&["text", "count"]), false);
    assert_eq!(
        result,
        Ok(TypedArgs::Many(vec![serde_json::Value::from("hello"), serde_json::Value::from(2)]))
    );
    let result = parse(Some("{\"count\": 2}"), &names(&["text", "count"]), true);
    assert_eq!(result, Err(ParamError::Missing { position: 0, name: "text".into() }));
}

#[test]
fn one_value_that_is_no_list_is_the_one_argument() {
    assert_eq!(
        parse(Some("\"hello\""), &names(&["value"]), true),
        Ok(TypedArgs::One(serde_json::Value::from("hello")))
    );
    assert_eq!(parse(Some("7"), &names(&["value"]), true), Ok(TypedArgs::One(serde_json::Value::from(7))));
    assert_eq!(parse(Some("true"), &names(&["value"]), true), Ok(TypedArgs::One(serde_json::Value::from(true))));
    assert_eq!(
        parse(Some("7"), &names(&[]), true),
        Err(ParamError::ExtraParams { position: 0, name: String::new() })
    );
    assert_eq!(parse(Some("7"), &names(&[]), false), Ok(TypedArgs::Empty));
    assert_eq!(
        parse(Some("7"), &names(&["a", "b"]), false),
        Err(ParamError::TypeMismatch { position: 0, name: "a".into() })
    );
}
