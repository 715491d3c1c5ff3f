//! The two ways in which a client calls a method: checked, where a failed call is
//! returned to the caller, and unchecked, where it ends the caller.
use crate::rpc_method::model::RpcMethod;
use crate::syntax::{PatType, Type, TypeView};
use vstd::prelude::*;

verus! {

/// The calling convention of a request.
#[derive(Debug, Clone, Copy, PartialEq, Eq, Structural)]
pub enum RequestImpl {
    /// The call returns the response or the error of the transport.
    Checked,
    /// The call returns the response, and aborts where there is none.
    Unchecked,
}

/// The type that a request returns.
#[derive(Debug, Clone, PartialEq, Eq)]
pub enum ResponseType {
    /// The type of the response itself.
    Plain(Type),
    /// A `Result` of the type of the response and the error of the client.
    Fallible(Type),
}

pub enum ResponseTypeView {
    Plain(TypeView),
    Fallible(TypeView),
}

impl DeepView for ResponseType {
    type V = ResponseTypeView;

    open spec fn deep_view(&self) -> ResponseTypeView {
        match self {
            ResponseType::Plain(ty) => ResponseTypeView::Plain(ty.deep_view()),
            ResponseType::Fallible(ty) => ResponseTypeView::Fallible(ty.deep_view()),
        }
    }
}

/// What a request does with the outcome of its call.
#[derive(Debug, Clone, PartialEq, Eq)]
pub enum ReturnResponse {
    /// The outcome is returned as it is.
    AsIs,
    /// The response is returned; a failed call aborts with this message.
    Expect(String),
}

pub enum ReturnResponseView {
    AsIs,
    Expect(Seq<char>),
}

impl DeepView for ReturnResponse {
    type V = ReturnResponseView;

    open spec fn deep_view(&self) -> ReturnResponseView {
        match self {
            ReturnResponse::AsIs => ReturnResponseView::AsIs,
            ReturnResponse::Expect(message) => ReturnResponseView::Expect(message@),
        }
    }
}

/// The outcome of a call once the convention of the request is applied to it.
#[derive(Debug, PartialEq, Eq)]
pub enum Settled<T, E> {
    /// A checked request returns the outcome of the call, whatever it is.
    Returned(Result<T, E>),
    /// An unchecked request returns the response.
    Value(T),
    /// An unchecked request without a response: the caller is to abort with
    /// `message`.
    Abort { message: String, error: E },
}

/// The name of the function of a checked request.
pub open spec fn checked_name() -> Seq<char> {
    "request"@
}

/// The name of the function of an unchecked request.
pub open spec fn unchecked_name() -> Seq<char> {
    "request_unchecked"@
}

/// The message with which an unchecked request aborts.
pub open spec fn abort_message() -> Seq<char> {
    "RPC call failed but should need successful response"@
}

/// The documentation of a checked request.
pub open spec fn checked_doc() -> Seq<char> {
    "Makes a type safe RPC request with the given client"@
}

/// The documentation of an unchecked request.
pub open spec fn unchecked_doc() -> Seq<char> {
    "Makes a type safe RPC request with the given client. This function will panic if the RPC call fails to call the implementation."@
}

impl RequestImpl {
    /// The name of the function that makes the request.
    pub fn name(&self) -> (name: String)
        ensures
            name@ == (match self {
                RequestImpl::Unchecked => unchecked_name(),
                RequestImpl::Checked => checked_name(),
            }),
    {
        match self {
            RequestImpl::Unchecked => "request_unchecked".to_owned(),
            RequestImpl::Checked => "request".to_owned(),
        }
    }

    /// The type that the request returns for a method that answers with
    /// `response_ty`.
    pub fn actual_response_type(&self, response_ty: &Type) -> (actual: ResponseType)
        ensures
            actual.deep_view() == (match self {
                RequestImpl::Unchecked => ResponseTypeView::Plain(response_ty.deep_view()),
                RequestImpl::Checked => ResponseTypeView::Fallible(response_ty.deep_view()),
            }),
    {
        match self {
            RequestImpl::Unchecked => ResponseType::Plain(response_ty.duplicate()),
            RequestImpl::Checked => ResponseType::Fallible(response_ty.duplicate()),
        }
    }

    /// What the request does with the outcome of its call.
    pub fn return_response(&self) -> (handling: ReturnResponse)
        ensures
            handling.deep_view() == (match self {
                RequestImpl::Unchecked => ReturnResponseView::Expect(abort_message()),
                RequestImpl::Checked => ReturnResponseView::AsIs,
            }),
    {
        match self {
            RequestImpl::Unchecked => ReturnResponse::Expect(
                "RPC call failed but should need successful response".to_owned(),
            ),
            RequestImpl::Checked => ReturnResponse::AsIs,
        }
    }

    /// The documentation of the function that makes the request.
    pub fn rust_doc(&self) -> (doc: String)
        ensures
            doc@ == (match self {
                RequestImpl::Unchecked => unchecked_doc(),
                RequestImpl::Checked => checked_doc(),
            }),
    {
        match self {
            RequestImpl::Unchecked => "Makes a type safe RPC request with the given client. This function will panic if the RPC call fails to call the implementation.".to_owned(),
            RequestImpl::Checked => "Makes a type safe RPC request with the given client".to_owned(),
        }
    }

    /// Applies the convention to the outcome `response` of a call. A checked
    /// request returns every outcome, a failure of the transport or of the
    /// protocol included, and never aborts. An unchecked request returns the
    /// response, and asks for an abort exactly where the call has failed.
    pub fn settle<T, E>(&self, response: Result<T, E>) -> (settled: Settled<T, E>)
        ensures
            *self == RequestImpl::Checked ==> settled == Settled::<T, E>::Returned(response),
            *self == RequestImpl::Unchecked ==> (match response {
                Ok(value) => settled == Settled::<T, E>::Value(value),
                Err(e) => settled matches Settled::Abort { message, error } && error == e && message@
                    == abort_message(),
            }),
    {
        match self {
            RequestImpl::Checked => Settled::Returned(response),
            RequestImpl::Unchecked => match response {
                Ok(value) => Settled::Value(value),
                Err(error) => Settled::Abort {
                    message: "RPC call failed but should need successful response".to_owned(),
                    error,
                },
            },
        }
    }
}

/// The plan of a function that calls a method through a client.
#[derive(Debug, Clone, PartialEq, Eq)]
pub struct RequestPlan {
    /// The convention of the request.
    pub convention: RequestImpl,
    /// The name of the function.
    pub name: String,
    /// The documentation of the function.
    pub doc: String,
    /// The name of the method that is called.
    pub method: String,
    /// The arguments of the function after the client: those of the method,
    /// without the context.
    pub args: Vec<PatType>,
    /// The names of those arguments, which make the positional parameters of the
    /// call, in the order of the declaration.
    pub params: Vec<String>,
    /// The type that the response is read as.
    pub response_ty: Type,
    /// The type that the function returns.
    pub actual_response_ty: ResponseType,
    /// What the function does with the outcome of the call.
    pub return_response: ReturnResponse,
}

/// A copy of `args`.
pub fn duplicate_args(args: &Vec<PatType>) -> (copy: Vec<PatType>)
    ensures
        copy.deep_view() == args.deep_view(),
{
    let mut copy: Vec<PatType> = Vec::new();
    let mut i: usize = 0;
    while i < args.len()
        invariant
            i <= args.len(),
            copy.len() == i,
            forall|k: int| 0 <= k < i ==> (#[trigger] copy[k]).deep_view() == args[k].deep_view(),
        decreases args.len() - i,
    {
        copy.push(args[i].duplicate());
        i = i + 1;
    }
    assert(copy.deep_view() =~= args.deep_view());
    copy
}

/// A copy of `names`.
pub fn duplicate_names(names: &Vec<String>) -> (copy: Vec<String>)
    ensures
        copy.deep_view() == names.deep_view(),
{
    let mut copy: Vec<String> = Vec::new();
    let mut i: usize = 0;
    while i < names.len()
        invariant
            i <= names.len(),
            copy.len() == i,
            forall|k: int| 0 <= k < i ==> (#[trigger] copy[k])@ == names[k]@,
        decreases names.len() - i,
    {
        copy.push(names[i].clone());
        i = i + 1;
    }
    assert(copy.deep_view() =~= names.deep_view());
    copy
}

/// Whether `plan` is the plan of the request of the method `model` with the
/// convention `impl_kind`.
pub open spec fn is_request_of(plan: RequestPlan, model: RpcMethod, impl_kind: RequestImpl) -> bool {
    &&& plan.convention == impl_kind
    &&& plan.name@ == (match impl_kind {
        RequestImpl::Unchecked => unchecked_name(),
        RequestImpl::Checked => checked_name(),
    })
    &&& plan.doc@ == (match impl_kind {
        RequestImpl::Unchecked => unchecked_doc(),
        RequestImpl::Checked => checked_doc(),
    })
    &&& plan.method@ == model.deep_view().input_ident
    &&& plan.args.deep_view() == model.deep_view().fn_args_contextless
    &&& plan.params.deep_view() == model.deep_view().fn_args_contextless_as_ident
    &&& plan.response_ty.deep_view() == model.deep_view().response_ty
    &&& plan.actual_response_ty.deep_view() == (match impl_kind {
        RequestImpl::Unchecked => ResponseTypeView::Plain(model.deep_view().response_ty),
        RequestImpl::Checked => ResponseTypeView::Fallible(model.deep_view().response_ty),
    })
    &&& plan.return_response.deep_view() == (match impl_kind {
        RequestImpl::Unchecked => ReturnResponseView::Expect(abort_message()),
        RequestImpl::Checked => ReturnResponseView::AsIs,
    })
}

/// The plan of the function that calls the method `model` with the convention
/// `impl_kind`. The call names the method by the name of its function, and its
/// positional parameters are the arguments of the method in the order of the
/// declaration, without the context.
pub fn generate(model: &RpcMethod, impl_kind: RequestImpl) -> (plan: RequestPlan)
    ensures
        is_request_of(plan, *model, impl_kind),
{
    RequestPlan {
        convention: impl_kind,
        name: impl_kind.name(),
        doc: impl_kind.rust_doc(),
        method: model.input_ident.clone(),
        args: duplicate_args(&model.fn_args_contextless),
        params: duplicate_names(&model.fn_args_contextless_as_ident),
        response_ty: model.response_ty.duplicate(),
        actual_response_ty: impl_kind.actual_response_type(&model.response_ty),
        return_response: impl_kind.return_response(),
    }
}

} // verus!
