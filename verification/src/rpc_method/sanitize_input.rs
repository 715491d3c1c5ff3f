//! The declared function as it is kept beside what is generated for it: without
//! the markers of the context on its arguments.
use crate::rpc_method::model::{plain_attrs, without_context_attrs};
use crate::syntax::{
    duplicate_attrs, FnArg, FnArgView, ItemFn, ItemFnView, PatType, PatTypeView, ReturnType,
};
use vstd::prelude::*;

verus! {

/// `arg` without the markers of the context. A receiver is kept as it is.
pub open spec fn sanitized_arg(arg: FnArgView) -> FnArgView {
    match arg {
        FnArgView::Receiver => FnArgView::Receiver,
        FnArgView::Typed(typed) => FnArgView::Typed(
            PatTypeView { attrs: plain_attrs(typed.attrs), pat: typed.pat, ty: typed.ty },
        ),
    }
}

/// `inputs`, each without the markers of the context.
pub open spec fn sanitized_args(inputs: Seq<FnArgView>) -> Seq<FnArgView> {
    Seq::new(inputs.len(), |k: int| sanitized_arg(inputs[k]))
}

/// Removes the markers of the context from the arguments of the function.
/// Nothing else of it changes.
pub fn fn_arg_drop_attr_context(input: &mut ItemFn)
    ensures
        final(input).deep_view().inputs == sanitized_args(old(input).deep_view().inputs),
        final(input).attrs == old(input).attrs,
        final(input).asyncness == old(input).asyncness,
        final(input).ident == old(input).ident,
        final(input).output == old(input).output,
{
    let mut new_inputs: Vec<FnArg> = Vec::new();
    let mut i: usize = 0;
    while i < input.inputs.len()
        invariant
            i <= input.inputs.len(),
            *input == *old(input),
            new_inputs.len() == i,
            forall|k: int| 0 <= k < i ==> (#[trigger] new_inputs[k]).deep_view() == sanitized_arg(
                input.inputs[k].deep_view(),
            ),
        decreases input.inputs.len() - i,
    {
        let arg = match &input.inputs[i] {
            FnArg::Typed(pat_type) => FnArg::Typed(
                PatType {
                    attrs: without_context_attrs(&pat_type.attrs),
                    pat: pat_type.pat.duplicate(),
                    ty: pat_type.ty.duplicate(),
                },
            ),
            FnArg::Receiver => FnArg::Receiver,
        };
        new_inputs.push(arg);
        i = i + 1;
    }
    assert(new_inputs.deep_view() =~= sanitized_args(input.deep_view().inputs));
    input.inputs = new_inputs;
}

/// A copy of the declaration without the markers of the context on its
/// arguments.
pub fn generate(input: &ItemFn) -> (sanitized: ItemFn)
    ensures
        sanitized.deep_view() == (ItemFnView {
            inputs: sanitized_args(input.deep_view().inputs),
            ..input.deep_view()
        }),
{
    let output = match &input.output {
        ReturnType::Default => ReturnType::Default,
        ReturnType::Type(ty) => ReturnType::Type(ty.duplicate()),
    };
    let mut copy = ItemFn {
        attrs: duplicate_attrs(&input.attrs),
        asyncness: input.asyncness,
        ident: input.ident.clone(),
        inputs: crate::syntax::duplicate_inputs(&input.inputs),
        output,
    };
    fn_arg_drop_attr_context(&mut copy);
    copy
}

} // verus!
