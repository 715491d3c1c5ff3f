//! The method that a client type of the application gets for a declared method.
use crate::rpc_method::model::{RpcMethod, RpcMethodArgs};
use crate::rpc_method::request::{duplicate_args, duplicate_names};
use crate::syntax::{PatType, Type};
use vstd::prelude::*;

verus! {

/// The plan of the method that a client type gets.
#[derive(Debug, Clone, PartialEq, Eq)]
pub struct ClientPlan {
    /// The path of the client type.
    pub client: String,
    /// The field of the client type that holds the transport client.
    pub client_field: String,
    /// The name of the method, which is also the name of the method that is
    /// called.
    pub method: String,
    /// The arguments after `&self`: those of the method, without the context.
    pub args: Vec<PatType>,
    /// The names of those arguments, which make the positional parameters of the
    /// call.
    pub params: Vec<String>,
    /// The type that the response is read as.
    pub response_ty: Type,
}

/// The field that holds the transport client where the declaration names none.
pub open spec fn default_client_field() -> Seq<char> {
    "client"@
}

/// Whether `plan` is what the client type named in `args` gets for the method
/// `model`.
pub open spec fn is_client_of(plan: Option<ClientPlan>, model: RpcMethod, args: RpcMethodArgs) -> bool {
    match plan {
        None => args.client is None,
        Some(p) => {
            &&& args.client is Some
            &&& p.client@ == args.client->0@
            &&& p.client_field@ == (match args.client_field {
                Some(field) => field@,
                None => default_client_field(),
            })
            &&& p.method@ == model.deep_view().input_ident
            &&& p.args.deep_view() == model.deep_view().fn_args_contextless
            &&& p.params.deep_view() == model.deep_view().fn_args_contextless_as_ident
            &&& p.response_ty.deep_view() == model.deep_view().response_ty
        },
    }
}

/// The plan of the method that the client type named in `args` gets for the
/// method `model`; nothing where `args` names no client type. The transport
/// client is read from the field that `args` names, and from `client` where it
/// names none.
pub fn generate(model: &RpcMethod, args: &RpcMethodArgs) -> (plan: Option<ClientPlan>)
    ensures
        is_client_of(plan, *model, *args),
{
    let client = match &args.client {
        None => {
            return None;
        },
        Some(path) => path.clone(),
    };
    let client_field = match &args.client_field {
        Some(field) => field.clone(),
        None => "client".to_owned(),
    };
    Some(
        ClientPlan {
            client,
            client_field,
            method: model.input_ident.clone(),
            args: duplicate_args(&model.fn_args_contextless),
            params: duplicate_names(&model.fn_args_contextless_as_ident),
            response_ty: model.response_ty.duplicate(),
        },
    )
}

} // verus!
