//! The plan of the callback of a function that takes no context: every argument
//! is read from the parameters of the call and handed to the function.
use crate::error::UnsupportedShapeError;
use crate::rpc::wrapper::WrapperPlan;
use crate::rpc_method::handler::{
    gen_arguments_parse_impl as read_arguments, pats_of, reader_for, tys_of, ArgumentsParse,
};
use crate::rpc_method::model::{as_ident, checked_fn_args, checked_idents, extract_fn_args, idents};
use crate::syntax::{FnArgView, ItemFn, PatTypeView, Type};
use vstd::prelude::*;

verus! {

/// The plan of a callback.
#[derive(Debug, Clone, PartialEq, Eq)]
pub struct CallbackPlan {
    /// The function that the callback calls.
    pub wrapped_fn: WrapperPlan,
    /// The type of the context that the callback is handed and does not use.
    pub context: Type,
    /// The type of what the function returns.
    pub response: Type,
    /// How the parameters of the call are read.
    pub parse: ArgumentsParse,
    /// The names of the arguments that the function is called with, in the
    /// order of the declaration.
    pub supply: Vec<String>,
}

/// The arguments of a function with the arguments `inputs` that a callback
/// reads and supplies, or why the function has no callback: a receiver among
/// its arguments comes first, then an argument that is not bound to a plain
/// name.
pub open spec fn callback_args(inputs: Seq<FnArgView>) -> Result<Seq<PatTypeView>, UnsupportedShapeError> {
    match checked_fn_args(inputs, false) {
        Err(e) => Err(e),
        Ok(all) => match checked_idents(all) {
            Err(e) => Err(e),
            Ok(_) => Ok(all),
        },
    }
}

/// Whether `parse` reads the arguments `args`: with the reader of one value
/// where there is one argument, and as a tuple where there are none or several.
pub open spec fn reads(parse: ArgumentsParse, args: Seq<PatTypeView>) -> bool {
    &&& parse.reader == reader_for(args.len())
    &&& parse.pats.deep_view() == pats_of(args)
    &&& parse.tys.deep_view() == tys_of(args)
}

/// How the parameters of a call are read into the arguments of `input`. A
/// function that takes `self`, or an argument that is not bound to a plain
/// name, has no callback.
pub fn gen_arguments_parse_impl(input: &ItemFn) -> (parse: Result<ArgumentsParse, UnsupportedShapeError>)
    ensures
        match parse {
            Ok(p) => callback_args(input.deep_view().inputs) is Ok && reads(
                p,
                callback_args(input.deep_view().inputs)->Ok_0,
            ),
            Err(e) => callback_args(input.deep_view().inputs) == Err::<Seq<PatTypeView>, UnsupportedShapeError>(e),
        },
{
    let args = match extract_fn_args(input, false) {
        Ok(args) => args,
        Err(e) => {
            return Err(e);
        },
    };
    match as_ident(&args) {
        Ok(_) => Ok(read_arguments(&args)),
        Err(e) => Err(e),
    }
}

/// What the function `input` is called with: its arguments by name, in the
/// order of the declaration. A function that takes `self`, or an argument that
/// is not bound to a plain name, has no callback.
pub fn gen_arguments_supply(input: &ItemFn) -> (supply: Result<Vec<String>, UnsupportedShapeError>)
    ensures
        match supply {
            Ok(names) => callback_args(input.deep_view().inputs) is Ok && names.deep_view() == idents(
                callback_args(input.deep_view().inputs)->Ok_0,
            ),
            Err(e) => callback_args(input.deep_view().inputs) == Err::<Seq<PatTypeView>, UnsupportedShapeError>(e),
        },
{
    let args = match extract_fn_args(input, false) {
        Ok(args) => args,
        Err(e) => {
            return Err(e);
        },
    };
    as_ident(&args)
}

/// Whether `plan` is the plan of the callback that calls `wrapper_fn` for a
/// function with the arguments `args`, with a context of the type `context`
/// and a response of the type `response`.
pub open spec fn is_callback_of(
    plan: CallbackPlan,
    args: Seq<PatTypeView>,
    wrapper_fn: WrapperPlan,
    context: Type,
    response: Type,
) -> bool {
    &&& plan.wrapped_fn == wrapper_fn
    &&& plan.context == context
    &&& plan.response == response
    &&& reads(plan.parse, args)
    &&& plan.supply.deep_view() == idents(args)
}

/// The plan of the callback that calls `wrapper_fn` for the function `input`,
/// with a context of the type `context` and a response of the type `response`.
/// A function that takes `self`, or an argument that is not bound to a plain
/// name, has no callback.
pub fn gen_callback_impl(input: &ItemFn, wrapper_fn: WrapperPlan, context: Type, response: Type) -> (plan: Result<
    CallbackPlan,
    UnsupportedShapeError,
>)
    ensures
        match plan {
            Ok(p) => callback_args(input.deep_view().inputs) is Ok && is_callback_of(
                p,
                callback_args(input.deep_view().inputs)->Ok_0,
                wrapper_fn,
                context,
                response,
            ),
            Err(e) => callback_args(input.deep_view().inputs) == Err::<Seq<PatTypeView>, UnsupportedShapeError>(e),
        },
{
    let parse = match gen_arguments_parse_impl(input) {
        Ok(parse) => parse,
        Err(e) => {
            return Err(e);
        },
    };
    let supply = match gen_arguments_supply(input) {
        Ok(supply) => supply,
        Err(e) => {
            return Err(e);
        },
    };
    Ok(CallbackPlan { wrapped_fn: wrapper_fn, context, response, parse, supply })
}

} // verus!
