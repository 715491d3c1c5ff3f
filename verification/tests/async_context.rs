use jsonrpsee::types::{ErrorObjectOwned, Params};
use jsonrpsee::{Extensions, RpcModule};
use openspec_jsonrpsee::rpc_method::request::Settled;
use openspec_jsonrpsee::{
    ContextBinding, ContextSupply, HandlerKind, Method, RawParams, RequestImpl, RpcMethod, ServerHandler,
    SpecModule,
};
use serde::de::DeserializeOwned;
use serde::Serialize;
use std::collections::HashMap;
use std::future::Future;
use std::pin::Pin;
use std::sync::Arc;
use tokio::sync::RwLock;

type RpcResult<T> = Result<T, ErrorObjectOwned>;
type SyncCallback<Context, Response> = fn(Params, &Context, &Extensions) -> Response;
type AsyncCallback<Context, Response> =
    fn(Params<'static>, Arc<Context>, Extensions) -> Pin<Box<dyn Future<Output = Response> + Send>>;
type Pending<Response> = Pin<Box<dyn Future<Output = RpcResult<Response>> + Send>>;

struct Declared<Context, Response> {
    name: &'static str,
    handler: AsyncCallback<Context, RpcResult<Response>>,
}

impl<Context, Response> RpcMethod<Context, Response> for Declared<Context, Response> {
    type Sync = SyncCallback<Context, RpcResult<Response>>;
    type Async = AsyncCallback<Context, RpcResult<Response>>;

    fn name(&self) -> &'static str {
        self.name
    }

    fn spec(&self) -> Method {
        Method::new(self.name.into(), vec![])
    }

    fn handler(&self) -> ServerHandler<Self::Sync, Self::Async> {
        ServerHandler::Async(self.handler)
    }
}

async fn request_unchecked<Context, P: Serialize, T: DeserializeOwned + Clone>(
    module: &RpcModule<Context>,
    method: &str,
    params: Vec<P>,
) -> T {
    match RequestImpl::Unchecked.settle(module.call::<_, T>(method, params).await) {
        Settled::Value(value) => value,
        Settled::Abort { message, error } => panic!("{message}: {error:?}"),
        Settled::Returned(_) => unreachable!(),
    }
}

/// Fake user database to use for context
type UserDb = Arc<RwLock<HashMap<u32, User>>>;

/// A user: id, name, password.
type User = (u32, String, String);

pub async fn get_user(ctx: UserDb, user_id: u32) -> Option<User> {
    ctx.read().await.get(&user_id).cloned()
}

pub async fn register_user(name: String, password: String, ctx: UserDb) -> Result<User, String> {
    let mut db = ctx.write().await;
    let id = db.len() as u32 + 1;
    let user = (id, name, password);
    db.insert(id, user.clone());
    Ok(user)
}

pub async fn register_user_ref(name: String, password: String, ctx: &UserDb) -> Result<User, String> {
    let mut db = ctx.write().await;
    let id = db.len() as u32 + 1;
    let user = (id, name, password);
    db.insert(id, user.clone());
    Ok(user)
}

fn get_user_handler(params: Params<'static>, ctx: Arc<UserDb>, _ext: Extensions) -> Pending<Option<User>> {
    Box::pin(async move {
        let user_id: u32 = params.one()?;
        Ok(get_user((*ctx).clone(), user_id).await)
    })
}

fn register_user_handler(
    params: Params<'static>,
    ctx: Arc<UserDb>,
    _ext: Extensions,
) -> Pending<Result<User, String>> {
    Box::pin(async move {
        let (name, password): (String, String) = params.parse()?;
        Ok(register_user(name, password, (*ctx).clone()).await)
    })
}

fn register_user_ref_handler(
    params: Params<'static>,
    ctx: Arc<UserDb>,
    _ext: Extensions,
) -> Pending<Result<User, String>> {
    Box::pin(async move {
        let (name, password): (String, String) = params.parse()?;
        Ok(register_user_ref(name, password, &ctx).await)
    })
}

#[test]
pub fn test_mutate_async() {
    let users_ctx: UserDb = Arc::new(RwLock::new(HashMap::new()));
    let mut module = SpecModule::new(users_ctx);
    module
        .add_method(Declared { name: "get_user", handler: get_user_handler })
        .unwrap()
        .add_method(Declared { name: "register_user", handler: register_user_handler })
        .unwrap()
        .add_method(Declared { name: "register_user_ref", handler: register_user_ref_handler })
        .unwrap();
    let module = module.into_jsonrpsee_module();
    let runtime = tokio::runtime::Builder::new_current_thread().enable_all().build().unwrap();
    runtime.block_on(async move {
        // No users
        let response: Option<User> = request_unchecked(&module, "get_user", vec![1]).await;
        assert_eq!(response, None);

        // First user inserts & reads
        let response: Result<User, String> =
            request_unchecked(&module, "register_user", vec!["John", "password"]).await;
        assert!(response.is_ok());
        let response: Option<User> = request_unchecked(&module, "get_user", vec![1]).await;
        assert_ne!(response, None);

        // Second user expands on state
        let response: Result<User, String> =
            request_unchecked(&module, "register_user_ref", vec!["Jane", "password"]).await;
        assert!(response.is_ok());
        let response: Option<User> = request_unchecked(&module, "get_user", vec![2]).await;
        assert_ne!(response, None);
    });
}

fn whole_context(params: Params<'static>, ctx: Arc<Vec<u64>>, _ext: Extensions) -> Pending<Vec<u64>> {
    Box::pin(async move {
        let pause: u64 = params.one()?;
        tokio::time::sleep(std::time::Duration::from_millis(pause)).await;
        Ok((*ctx).clone())
    })
}

#[test]
fn concurrent_calls_see_the_whole_context() {
    let context: Vec<u64> = (0..1000).collect();
    let mut module = SpecModule::new(context.clone());
    module.add_method(Declared { name: "whole_context", handler: whole_context }).unwrap();
    assert_eq!(module.context_ref(), &context);
    assert_eq!(*module.context_handle(), context);
    let module = Arc::new(module.into_jsonrpsee_module());
    let runtime = tokio::runtime::Builder::new_multi_thread().worker_threads(2).enable_all().build().unwrap();
    let (first, second) = runtime.block_on(async move {
        let one = module.clone();
        let two = module.clone();
        let first = tokio::spawn(async move { request_unchecked::<_, _, Vec<u64>>(&one, "whole_context", vec![3]).await });
        let second = tokio::spawn(async move { request_unchecked::<_, _, Vec<u64>>(&two, "whole_context", vec![1]).await });
        (first.await.unwrap(), second.await.unwrap())
    });
    assert_eq!(first, context);
    assert_eq!(second, context);
}

#[test]
fn the_context_is_supplied_as_the_binding_says() {
    let module = SpecModule::new("shared".to_string());
    assert!(matches!(module.supply(ContextBinding::Absent, HandlerKind::Sync), ContextSupply::Unit));
    assert!(matches!(module.supply(ContextBinding::Absent, HandlerKind::Async), ContextSupply::Unit));
    match module.supply(ContextBinding::Borrowed, HandlerKind::Sync) {
        ContextSupply::Reference(context) => assert_eq!(context, "shared"),
        _ => panic!("a borrowed context is a reference"),
    }
    match module.supply(ContextBinding::SharedHandle, HandlerKind::Async) {
        ContextSupply::Handle(handle) => assert_eq!(*handle, "shared"),
        _ => panic!("a shared context is a handle"),
    }
    match module.supply(ContextBinding::Owned, HandlerKind::Sync) {
        ContextSupply::Reference(context) => assert_eq!(context.clone(), "shared"),
        _ => panic!("a synchronous handler clones from the reference"),
    }
    match module.supply(ContextBinding::Owned, HandlerKind::Async) {
        ContextSupply::Handle(handle) => assert_eq!((*handle).clone(), "shared"),
        _ => panic!("an asynchronous handler clones from the handle"),
    }
}

#[test]
fn an_asynchronous_method_is_dispatched_with_the_shared_handle() {
    let mut module = SpecModule::new(vec![1u64]);
    module.add_method(Declared { name: "whole_context", handler: whole_context }).unwrap();
    match module.dispatch("whole_context", RawParams::Absent, ()) {
        Ok(call) => {
            assert_eq!(call.position, 0);
            assert_eq!(call.kind, HandlerKind::Async);
            assert_eq!(call.binding, ContextBinding::SharedHandle);
            assert!(call.binding.valid_for(call.kind));
        }
        other => panic!("a registered method is invoked: {other:?}"),
    }
}
