//! The plan of the handler of a method: how its raw parameters are read, what the
//! declared function is called with, and how the shared context reaches it.
use crate::rpc::method::{ContextBinding, HandlerKind};
use crate::rpc_method::model::RpcMethod;
use crate::syntax::{Pat, PatType, PatTypeView, PatView, Type, TypeView};
use vstd::prelude::*;

verus! {

/// The reader that is applied to the raw parameters of a call.
#[derive(Debug, Clone, Copy, PartialEq, Eq, Structural)]
pub enum ParamsReader {
    /// Reads the one value that was supplied as the one argument.
    One,
    /// Reads the parameters as the tuple of all the arguments.
    Parse,
}

/// How the raw parameters of a call become the arguments of the function.
#[derive(Debug, Clone, PartialEq, Eq)]
pub struct ArgumentsParse {
    pub reader: ParamsReader,
    /// The patterns that the parsed values are bound to.
    pub pats: Vec<Pat>,
    /// The types that the values are parsed as, one for each pattern.
    pub tys: Vec<Type>,
}

/// One argument in the call of the declared function.
#[derive(Debug, Clone, PartialEq, Eq)]
pub enum HandlerArg {
    /// A parsed parameter, by the name it is bound to.
    Param(String),
    /// The shared context, by the name of the argument that takes it.
    Context(String),
}

pub enum HandlerArgView {
    Param(Seq<char>),
    Context(Seq<char>),
}

impl DeepView for HandlerArg {
    type V = HandlerArgView;

    open spec fn deep_view(&self) -> HandlerArgView {
        match self {
            HandlerArg::Param(name) => HandlerArgView::Param(name@),
            HandlerArg::Context(name) => HandlerArgView::Context(name@),
        }
    }
}

/// The plan of the handler of a method.
#[derive(Debug, Clone, PartialEq, Eq)]
pub struct HandlerPlan {
    /// The shape of the handler.
    pub kind: HandlerKind,
    /// The name of the declared function, which the handler calls.
    pub function: String,
    /// The name under which the handler takes the context.
    pub context_ident: String,
    /// How the context reaches the declared function.
    pub binding: ContextBinding,
    /// The owned type of the context.
    pub context_ty: Type,
    /// Whether what the declared function returns is the outcome of the call,
    /// with the error of the handler, and not the response.
    pub fallible: bool,
    /// The type of the response.
    pub response_ty: Type,
    /// How the raw parameters are read.
    pub parse: ArgumentsParse,
    /// What the declared function is called with, in the order of its arguments.
    pub args: Vec<HandlerArg>,
}

/// The reader for a function with `arity` arguments besides the context: the one
/// value for one argument, the tuple for none or several.
pub open spec fn reader_for(arity: nat) -> ParamsReader {
    if arity == 1 {
        ParamsReader::One
    } else {
        ParamsReader::Parse
    }
}

/// The name under which a handler takes a context that its function does not
/// ask for.
pub open spec fn unused_context() -> Seq<char> {
    "_context"@
}

/// The shape of a handler that is asynchronous or not.
pub open spec fn kind_of(asynchronous: bool) -> HandlerKind {
    if asynchronous {
        HandlerKind::Async
    } else {
        HandlerKind::Sync
    }
}

/// The argument named `name` in the call of a function whose context argument
/// is `context`.
pub open spec fn supplied_arg(name: Seq<char>, context: Option<Seq<char>>) -> HandlerArgView {
    if context == Some(name) {
        HandlerArgView::Context(name)
    } else {
        HandlerArgView::Param(name)
    }
}

/// What a function with the arguments `names` is called with.
pub open spec fn supplied_args(names: Seq<Seq<char>>, context: Option<Seq<char>>) -> Seq<HandlerArgView> {
    Seq::new(names.len(), |k: int| supplied_arg(names[k], context))
}

/// The patterns of `args`.
pub open spec fn pats_of(args: Seq<PatTypeView>) -> Seq<PatView> {
    Seq::new(args.len(), |k: int| args[k].pat)
}

/// The types of `args`.
pub open spec fn tys_of(args: Seq<PatTypeView>) -> Seq<TypeView> {
    Seq::new(args.len(), |k: int| args[k].ty)
}

/// The reader of a handler fits what the parameters of a call are read into:
/// the one value is read exactly where the arguments of the call are one value,
/// and the tuple where they are none or several.
pub proof fn lemma_reader_fits_arguments(values: Seq<serde_json::Value>)
    ensures
        reader_for(values.len()) == ParamsReader::One <==> crate::params::typed(values) is One,
{
}

/// How the raw parameters of a call are read into the arguments
/// `fn_args_contextless`: with the reader of one value where there is one
/// argument, and as a tuple where there are none or several.
pub fn gen_arguments_parse_impl(fn_args_contextless: &Vec<PatType>) -> (parse: ArgumentsParse)
    ensures
        parse.reader == reader_for(fn_args_contextless.deep_view().len()),
        parse.pats.deep_view() == pats_of(fn_args_contextless.deep_view()),
        parse.tys.deep_view() == tys_of(fn_args_contextless.deep_view()),
{
    let mut pats: Vec<Pat> = Vec::new();
    let mut tys: Vec<Type> = Vec::new();
    let mut i: usize = 0;
    while i < fn_args_contextless.len()
        invariant
            i <= fn_args_contextless.len(),
            pats.len() == i,
            tys.len() == i,
            forall|k: int| 0 <= k < i ==> (#[trigger] pats[k]).deep_view() == fn_args_contextless[k].deep_view().pat,
            forall|k: int| 0 <= k < i ==> (#[trigger] tys[k]).deep_view() == fn_args_contextless[k].deep_view().ty,
        decreases fn_args_contextless.len() - i,
    {
        pats.push(fn_args_contextless[i].pat.duplicate());
        tys.push(fn_args_contextless[i].ty.duplicate());
        i = i + 1;
    }
    assert(pats.deep_view() =~= pats_of(fn_args_contextless.deep_view()));
    assert(tys.deep_view() =~= tys_of(fn_args_contextless.deep_view()));
    let reader = match fn_args_contextless.len() {
        1 => ParamsReader::One,
        _ => ParamsReader::Parse,
    };
    ArgumentsParse { reader, pats, tys }
}

/// What the declared function is called with: each of its arguments by name,
/// the one that takes the context marked as such.
pub fn gen_arguments_supply(names: &Vec<String>, context: &Option<String>) -> (args: Vec<HandlerArg>)
    ensures
        args.deep_view() == supplied_args(names.deep_view(), context.deep_view()),
{
    let mut args: Vec<HandlerArg> = Vec::new();
    let mut i: usize = 0;
    while i < names.len()
        invariant
            i <= names.len(),
            args.len() == i,
            forall|k: int| 0 <= k < i ==> (#[trigger] args[k]).deep_view() == supplied_arg(names[k]@, context.deep_view()),
        decreases names.len() - i,
    {
        let name = names[i].clone();
        let is_context = match context {
            Some(ctx) => *ctx == name,
            None => false,
        };
        if is_context {
            args.push(HandlerArg::Context(name));
        } else {
            args.push(HandlerArg::Param(name));
        }
        i = i + 1;
    }
    assert(args.deep_view() =~= supplied_args(names.deep_view(), context.deep_view()));
    args
}

/// What the plans of the two shapes of handler share.
fn plan(model: &RpcMethod, kind: HandlerKind, context_ident: &String, parse: ArgumentsParse) -> (plan:
    HandlerPlan)
    ensures
        plan.kind == kind,
        plan.function@ == model.deep_view().input_ident,
        plan.context_ident@ == context_ident@,
        plan.binding == ContextBinding::of(
            kind,
            model.context_ident is Some,
            model.context_ty_referenced,
        ),
        plan.binding.fits(kind),
        plan.context_ty.deep_view() == model.deep_view().context_ty_owned,
        plan.fallible == model.fallible,
        plan.response_ty.deep_view() == model.deep_view().response_ty,
        plan.parse == parse,
        plan.args.deep_view() == supplied_args(
            model.deep_view().fn_args_as_ident,
            model.deep_view().context_ident,
        ),
{
    HandlerPlan {
        kind,
        function: model.input_ident.clone(),
        context_ident: context_ident.clone(),
        binding: ContextBinding::infer(kind, model.context_ident.is_some(), model.context_ty_referenced),
        context_ty: model.context_ty_owned.duplicate(),
        fallible: model.fallible,
        response_ty: model.response_ty.duplicate(),
        parse,
        args: gen_arguments_supply(&model.fn_args_as_ident, &model.context_ident),
    }
}

/// The plan of an asynchronous handler. It is called with a shared handle to the
/// context: a function that takes the context by reference borrows from the
/// handle, and one that takes it by value is handed a clone.
pub fn generate_async_handler(model: &RpcMethod, context_ident: &String, arguments_parse_impl: ArgumentsParse) -> (plan:
    HandlerPlan)
    ensures
        plan.kind == HandlerKind::Async,
        plan.function@ == model.deep_view().input_ident,
        plan.context_ident@ == context_ident@,
        plan.binding == ContextBinding::of(
            HandlerKind::Async,
            model.context_ident is Some,
            model.context_ty_referenced,
        ),
        plan.binding != ContextBinding::Borrowed,
        plan.context_ty.deep_view() == model.deep_view().context_ty_owned,
        plan.fallible == model.fallible,
        plan.response_ty.deep_view() == model.deep_view().response_ty,
        plan.parse == arguments_parse_impl,
        plan.args.deep_view() == supplied_args(
            model.deep_view().fn_args_as_ident,
            model.deep_view().context_ident,
        ),
{
    plan(model, HandlerKind::Async, context_ident, arguments_parse_impl)
}

/// The plan of a synchronous handler. It is called with a reference to the
/// context that lasts for the call: a function that takes the context by
/// reference is handed that reference, and one that takes it by value a clone.
pub fn generate_sync_handler(model: &RpcMethod, context_ident: &String, arguments_parse_impl: ArgumentsParse) -> (plan:
    HandlerPlan)
    ensures
        plan.kind == HandlerKind::Sync,
        plan.function@ == model.deep_view().input_ident,
        plan.context_ident@ == context_ident@,
        plan.binding == ContextBinding::of(
            HandlerKind::Sync,
            model.context_ident is Some,
            model.context_ty_referenced,
        ),
        plan.binding != ContextBinding::SharedHandle,
        plan.context_ty.deep_view() == model.deep_view().context_ty_owned,
        plan.fallible == model.fallible,
        plan.response_ty.deep_view() == model.deep_view().response_ty,
        plan.parse == arguments_parse_impl,
        plan.args.deep_view() == supplied_args(
            model.deep_view().fn_args_as_ident,
            model.deep_view().context_ident,
        ),
{
    plan(model, HandlerKind::Sync, context_ident, arguments_parse_impl)
}

/// Whether `plan` is the plan of the handler of the method `model`.
pub open spec fn is_handler_of(plan: HandlerPlan, model: RpcMethod) -> bool {
    &&& plan.kind == kind_of(model.input_async)
    &&& plan.function@ == model.deep_view().input_ident
    &&& plan.context_ident@ == (match model.deep_view().context_ident {
        Some(name) => name,
        None => unused_context(),
    })
    &&& plan.binding == ContextBinding::of(
        kind_of(model.input_async),
        model.context_ident is Some,
        model.context_ty_referenced,
    )
    &&& plan.context_ty.deep_view() == model.deep_view().context_ty_owned
    &&& plan.fallible == model.fallible
    &&& plan.response_ty.deep_view() == model.deep_view().response_ty
    &&& plan.parse.reader == reader_for(model.deep_view().fn_args_contextless.len())
    &&& plan.parse.pats.deep_view() == pats_of(model.deep_view().fn_args_contextless)
    &&& plan.parse.tys.deep_view() == tys_of(model.deep_view().fn_args_contextless)
    &&& plan.args.deep_view() == supplied_args(
        model.deep_view().fn_args_as_ident,
        model.deep_view().context_ident,
    )
}

/// The plan of the handler of the method `model`: asynchronous where the
/// function is, synchronous where it is not. The handler takes the context under
/// the name of the function's context argument, or as `_context` where the
/// function has none. The way in which the context reaches the function always
/// fits the shape of the handler.
pub fn generate(model: &RpcMethod) -> (plan: HandlerPlan)
    ensures
        is_handler_of(plan, *model),
        plan.binding.fits(plan.kind),
{
    let arguments_parse_impl = gen_arguments_parse_impl(&model.fn_args_contextless);
    let context_ident = match &model.context_ident {
        Some(name) => name.clone(),
        None => "_context".to_owned(),
    };
    if model.input_async {
        generate_async_handler(model, &context_ident, arguments_parse_impl)
    } else {
        generate_sync_handler(model, &context_ident, arguments_parse_impl)
    }
}

} // verus!
