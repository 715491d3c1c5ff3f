//! Methods at run time: the handler of a method and how it is given the shared
//! context, the trait of what can be registered, the registry, and what a call
//! ends in. Beside them stands the plan of the plainest kind of method, a
//! synchronous function without a context.
pub mod callback;
pub mod envelope;
pub mod method;
pub mod module;
pub mod wrapper;

use crate::error::UnsupportedShapeError;
use crate::helpers::{extract_return_type, return_type};
use crate::rpc::callback::{callback_args, gen_callback_impl, is_callback_of, CallbackPlan};
use crate::rpc::wrapper::{gen_fn_wrapper, wrapper_module, WrapperPlan};
use crate::syntax::{ItemFn, PatTypeView, Type};
use vstd::prelude::*;

verus! {

/// All that is made for a synchronous function without a context.
#[derive(Debug, Clone, PartialEq, Eq)]
pub struct MethodPlan {
    /// The name of the method and of the type that is registered for it.
    pub name: String,
    /// The type of what the method answers.
    pub return_type: Type,
    /// Where the declared function is kept.
    pub wrapper: WrapperPlan,
    /// The callback that calls it.
    pub callback: CallbackPlan,
}

/// What is made for the function `input`: a type that carries its name, the
/// module that keeps the function, and a callback over the unit context that
/// calls it. A function that takes `self`, or an argument that is not bound to
/// a plain name, declares no method.
pub fn generate_rpc_method(input: &ItemFn) -> (plan: Result<MethodPlan, UnsupportedShapeError>)
    ensures
        match plan {
            Ok(p) => {
                &&& callback_args(input.deep_view().inputs) is Ok
                &&& p.name@ == input.deep_view().ident
                &&& p.return_type.deep_view() == return_type(input.deep_view().output)
                &&& p.wrapper.module@ == wrapper_module(input.deep_view().ident)
                &&& p.wrapper.function@ == input.deep_view().ident
                &&& p.callback.response.deep_view() == return_type(input.deep_view().output)
                &&& is_callback_of(
                    p.callback,
                    callback_args(input.deep_view().inputs)->Ok_0,
                    p.wrapper,
                    Type::Unit,
                    p.callback.response,
                )
            },
            Err(e) => callback_args(input.deep_view().inputs) == Err::<Seq<PatTypeView>, UnsupportedShapeError>(e),
        },
{
    let name = input.ident.clone();
    let context_type = Type::Unit;
    let return_type = extract_return_type(input);
    let wrapper = gen_fn_wrapper(input);
    let wrapped_fn = WrapperPlan { module: wrapper.module.clone(), function: wrapper.function.clone() };
    match gen_callback_impl(input, wrapped_fn, context_type, extract_return_type(input)) {
        Ok(callback) => Ok(MethodPlan { name, return_type, wrapper, callback }),
        Err(e) => Err(e),
    }
}

} // verus!
