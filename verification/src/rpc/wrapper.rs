//! The module that a declared function is kept in beside the type that carries
//! its name.
use crate::syntax::ItemFn;
use vstd::prelude::*;
use vstd::string::StringExecFns;

verus! {

/// Where a declared function is kept: in a module of its own, as a public
/// function under its own name.
#[derive(Debug, Clone, PartialEq, Eq)]
pub struct WrapperPlan {
    /// The name of the module.
    pub module: String,
    /// The name of the function in the module.
    pub function: String,
}

/// The name of the module that the function `name` is kept in.
pub open spec fn wrapper_module(name: Seq<char>) -> Seq<char> {
    name + "_impl"@
}

/// The module that the function `input` is kept in: named after the function,
/// with `_impl` behind the name, and holding the function under its name.
pub fn gen_fn_wrapper(input: &ItemFn) -> (plan: WrapperPlan)
    ensures
        plan.module@ == wrapper_module(input.deep_view().ident),
        plan.function@ == input.deep_view().ident,
{
    WrapperPlan { module: input.ident.clone().concat("_impl"), function: input.ident.clone() }
}

} // verus!
