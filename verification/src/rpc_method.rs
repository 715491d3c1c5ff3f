//! From the declaration of a handler to what is registered for it: the
//! description of the method and the plans of its handler and of its requests.
pub mod client;
pub mod handler;
pub mod model;
pub mod request;
pub mod sanitize_input;
pub mod spec;

use crate::error::UnsupportedShapeError;
use crate::rpc_method::client::{is_client_of, ClientPlan};
use crate::rpc_method::handler::{is_handler_of, HandlerPlan};
use crate::outside::{to_upper_camel_case, upper_camel_case};
use crate::rpc_method::model::{
    first_receiver, fn_args, idents, parsed_as, plain_arg, RpcMethod, RpcMethodArgs, RpcMethodView,
};
use crate::rpc_method::spec::{described_args, first_unsupported, param_descriptors, shape_error};
use crate::rpc_method::request::{is_request_of, RequestImpl, RequestPlan};
use crate::rpc_method::sanitize_input::sanitized_args;
use crate::syntax::{ItemFn, ItemFnView, Type};
use vstd::prelude::*;

verus! {

/// What is generated for the server side of a method: the registrable type and
/// what its three functions answer.
#[derive(Debug, Clone, PartialEq, Eq)]
pub struct RpcMethodImpl {
    /// The type under which the method is registered.
    pub output_ident: String,
    /// The type of the context that the method is registered for.
    pub context_ty_owned: Type,
    /// The type of what the method answers.
    pub response_ty: Type,
    /// The name of the method.
    pub name: String,
    /// The plan of the handler.
    pub handler: HandlerPlan,
}

/// All that is generated for a declared method.
#[derive(Debug, Clone, PartialEq, Eq)]
pub struct Expansion {
    /// The declared function, kept without the markers of the context.
    pub sanitize_input: ItemFn,
    /// The name of the type that is generated beside it.
    pub output_ident: String,
    /// The requests of the method: the checked one, then the unchecked one.
    pub impl_requests: Vec<RequestPlan>,
    /// The method of the client type, where the declaration names one.
    pub impl_client: Option<ClientPlan>,
    /// The server side of the method.
    pub impl_rpc_method: RpcMethodImpl,
}

/// Whether `requests` are the requests of the method `model`: the checked one,
/// then the unchecked one.
pub open spec fn are_requests_of(requests: Vec<RequestPlan>, model: RpcMethod) -> bool {
    &&& requests@.len() == 2
    &&& is_request_of(requests@[0], model, RequestImpl::Checked)
    &&& is_request_of(requests@[1], model, RequestImpl::Unchecked)
}

/// Whether `server` is the server side of the method `model`.
pub open spec fn is_server_of(server: RpcMethodImpl, model: RpcMethod) -> bool {
    &&& server.output_ident@ == model.deep_view().output_ident
    &&& server.context_ty_owned.deep_view() == model.deep_view().context_ty_owned
    &&& server.response_ty.deep_view() == model.deep_view().response_ty
    &&& server.name@ == model.deep_view().input_ident
    &&& is_handler_of(server.handler, model)
    &&& server.handler.binding.fits(server.handler.kind)
}

/// The name that a method answers with: the name of its function.
pub fn gen_fn_name(fn_name: &String) -> (name: String)
    ensures
        name@ == fn_name@,
{
    fn_name.clone()
}

/// The requests of the method `model`: the checked one, then the unchecked one.
pub fn gen_impl_requests(model: &RpcMethod) -> (requests: Vec<RequestPlan>)
    ensures
        are_requests_of(requests, *model),
{
    let fn_request = request::generate(model, RequestImpl::Checked);
    let fn_request_unchecked = request::generate(model, RequestImpl::Unchecked);
    let mut requests: Vec<RequestPlan> = Vec::new();
    requests.push(fn_request);
    requests.push(fn_request_unchecked);
    requests
}

/// The server side of the method `model`.
pub fn gen_impl_rpc_method(model: &RpcMethod) -> (server: RpcMethodImpl)
    ensures
        is_server_of(server, *model),
{
    let name = gen_fn_name(&model.input_ident);
    let handler = handler::generate(model);
    RpcMethodImpl {
        output_ident: model.output_ident.clone(),
        context_ty_owned: model.context_ty_owned.duplicate(),
        response_ty: model.response_ty.duplicate(),
        name,
        handler,
    }
}

/// What the declaration `input` says of its method under the arguments `args`
/// of the attribute: the method is registered under the name of the function
/// in upper camel case, and is fallible where `args` say so.
pub open spec fn declared(input: ItemFnView, args: RpcMethodArgs) -> Result<RpcMethodView, UnsupportedShapeError> {
    parsed_as(input, upper_camel_case(input.ident), args.fallible)
}

/// All that is generated for the method that `input` declares, or why `input`
/// declares none. What is generated is made from what [`RpcMethod::parse`]
/// reads of the declaration.
pub fn generate_rpc_method(input: ItemFn, args: RpcMethodArgs) -> (expansion: Result<
    Expansion,
    UnsupportedShapeError,
>)
    ensures
        match expansion {
            Err(e) => declared(input.deep_view(), args) == Err::<RpcMethodView, UnsupportedShapeError>(e),
            Ok(x) => exists|model: RpcMethod|
                {
                    &&& declared(input.deep_view(), args) == Ok::<RpcMethodView, UnsupportedShapeError>(
                        #[trigger] model.deep_view(),
                    )
                    &&& x.sanitize_input.deep_view() == (ItemFnView {
                        inputs: sanitized_args(input.deep_view().inputs),
                        ..input.deep_view()
                    })
                    &&& x.output_ident@ == model.deep_view().output_ident
                    &&& are_requests_of(x.impl_requests, model)
                    &&& is_client_of(x.impl_client, model, args)
                    &&& is_server_of(x.impl_rpc_method, model)
                },
        },
{
    let sanitize_input = sanitize_input::generate(&input);
    let ghost shape = input.deep_view();
    let output_ident = to_upper_camel_case(input.ident.as_str());
    let model = match RpcMethod::parse_as(input, output_ident, args.fallible) {
        Ok(model) => model,
        Err(e) => {
            return Err(e);
        },
    };
    let impl_requests = gen_impl_requests(&model);
    let impl_client = client::generate(&model, &args);
    let impl_rpc_method = gen_impl_rpc_method(&model);
    let expansion = Expansion {
        sanitize_input,
        output_ident: model.output_ident.clone(),
        impl_requests,
        impl_client,
        impl_rpc_method,
    };
    assert(declared(shape, args) == Ok::<RpcMethodView, UnsupportedShapeError>(model.deep_view()));
    Ok(expansion)
}

/// The arguments that a description speaks of are the arguments that a request
/// is made with: where a function has a description, its described arguments
/// are, one for one and in the same order, its arguments without the context.
proof fn lemma_described_args(inputs: Seq<crate::syntax::FnArgView>)
    requires
        first_receiver(inputs, 0) >= inputs.len(),
    ensures
        described_args(inputs).len() == fn_args(inputs, true).len(),
        forall|k: int|
            0 <= k < described_args(inputs).len() ==> (#[trigger] described_args(inputs)[k]) is Typed && fn_args(
                inputs,
                true,
            )[k] == plain_arg(described_args(inputs)[k]->Typed_0),
    decreases inputs.len(),
{
    if inputs.len() > 0 {
        let rest = inputs.drop_last();
        assert(first_receiver(rest, 0) >= rest.len()) by {
            lemma_no_receiver_before(inputs, 0);
        }
        lemma_described_args(rest);
        assert(!(inputs.last() is Receiver)) by {
            lemma_no_receiver_at(inputs, 0, inputs.len() - 1);
        }
    }
}

/// Where no receiver is found among `inputs` from `from` on, none is found
/// among all but the last of them.
proof fn lemma_no_receiver_before(inputs: Seq<crate::syntax::FnArgView>, from: int)
    requires
        inputs.len() > 0,
        0 <= from,
        first_receiver(inputs, from) >= inputs.len(),
    ensures
        first_receiver(inputs.drop_last(), from) >= inputs.drop_last().len(),
    decreases inputs.len() - from,
{
    if from < inputs.len() - 1 {
        assert(inputs.drop_last()[from] == inputs[from]);
        lemma_no_receiver_before(inputs, from + 1);
    }
}

/// Where no receiver is found among `inputs` from `from` on, the argument at
/// `at` is none.
proof fn lemma_no_receiver_at(inputs: Seq<crate::syntax::FnArgView>, from: int, at: int)
    requires
        0 <= from <= at < inputs.len(),
        first_receiver(inputs, from) >= inputs.len(),
    ensures
        !(inputs[at] is Receiver),
    decreases at - from,
{
    if from < at {
        lemma_no_receiver_at(inputs, from + 1, at);
    }
}

/// Where an argument from `from` on has no descriptor, one is found.
proof fn lemma_unsupported_found(args: Seq<crate::syntax::FnArgView>, from: int, at: int)
    requires
        0 <= from <= at < args.len(),
        shape_error(args[at], at) is Some,
    ensures
        first_unsupported(args, from) < args.len(),
    decreases at - from,
{
    if from < at && !(shape_error(args[from], from) is Some) {
        lemma_unsupported_found(args, from + 1, at);
    }
}

/// Where a receiver stands among `inputs` from `from` on, one is found.
proof fn lemma_receiver_found(inputs: Seq<crate::syntax::FnArgView>, from: int)
    requires
        0 <= from,
        first_receiver(inputs, from) < inputs.len(),
    ensures
        first_receiver(inputs, from) >= from,
        inputs[first_receiver(inputs, from)] is Receiver,
    decreases inputs.len() - from,
{
    if from < inputs.len() && !(inputs[from] is Receiver) {
        lemma_receiver_found(inputs, from + 1);
    }
}

/// A receiver among `inputs` is among the arguments that a description speaks
/// of.
proof fn lemma_receiver_is_described(inputs: Seq<crate::syntax::FnArgView>, at: int)
    requires
        0 <= at < inputs.len(),
        inputs[at] is Receiver,
    ensures
        exists|k: int| 0 <= k < described_args(inputs).len() && #[trigger] described_args(inputs)[k] is Receiver,
    decreases inputs.len(),
{
    let rest = inputs.drop_last();
    if at == inputs.len() - 1 {
        let all = described_args(inputs);
        assert(all[all.len() - 1] is Receiver);
    } else {
        assert(rest[at] == inputs[at]);
        lemma_receiver_is_described(rest, at);
        let k = choose|k: int| 0 <= k < described_args(rest).len() && #[trigger] described_args(rest)[k] is Receiver;
        assert(described_args(inputs)[k] == described_args(rest)[k]);
    }
}

/// A method is described as it is called. Where a declaration has a
/// description, the names of the described arguments are, in their order, the
/// names that a request of the method sends its positional parameters for,
/// which are the names that the registry reads a call by.
pub proof fn lemma_described_as_called(inputs: Seq<crate::syntax::FnArgView>, schemas: Seq<schemars::Schema>)
    requires
        param_descriptors(inputs, schemas) is Ok,
    ensures
        first_receiver(inputs, 0) >= inputs.len(),
        param_descriptors(inputs, schemas)->Ok_0.len() == fn_args(inputs, true).len(),
        forall|k: int|
            0 <= k < fn_args(inputs, true).len() ==> (#[trigger] param_descriptors(inputs, schemas)->Ok_0[k]).name
                == idents(fn_args(inputs, true))[k],
{
    let args = described_args(inputs);
    if first_receiver(inputs, 0) < inputs.len() {
        lemma_receiver_found(inputs, 0);
        lemma_receiver_is_described(inputs, first_receiver(inputs, 0));
        let k = choose|k: int| 0 <= k < args.len() && #[trigger] args[k] is Receiver;
        lemma_unsupported_found(args, 0, k);
    }
    lemma_described_args(inputs);
    assert forall|k: int| 0 <= k < fn_args(inputs, true).len() implies (#[trigger] param_descriptors(
        inputs,
        schemas,
    )->Ok_0[k]).name == idents(fn_args(inputs, true))[k] by {
        crate::rpc_method::spec::lemma_supported(args, 0, k);
        assert(args[k] is Typed);
    }
}

} // verus!
