//! What a declaration says of the method that it declares: its name, the type
//! under which it is registered, its arguments with and without the one that
//! takes the shared context, and the type of that context.
use crate::error::UnsupportedShapeError;
use crate::helpers::{extract_return_type, owned_type, owned_type_version, return_type};
use crate::outside::{to_upper_camel_case, upper_camel_case};
use crate::syntax::{
    any_attr, context_marker, has_attr, takes_context, Attribute, AttributeView, FnArg, FnArgView, ItemFn, ItemFnView, Pat,
    PatType, PatTypeView, PatView, ReturnTypeView, Type, TypeView,
};
use vstd::prelude::*;

verus! {

/// The arguments of the attribute that declares a method.
#[derive(Debug, Clone, PartialEq, Eq)]
pub struct RpcMethodArgs {
    /// The path of the type that gets a calling method for the declared method.
    pub client: Option<String>,
    /// The field of that type, as an expression, that holds the transport client.
    pub client_field: Option<String>,
    /// Whether the function is fallible: it returns `Result<Response, Error>`,
    /// and its error is the error of the handler and no response.
    pub fallible: bool,
}

/// What the declaration of a method says of it.
#[derive(Debug, Clone, PartialEq, Eq)]
pub struct RpcMethod {
    /// Whether the handler is asynchronous.
    pub input_async: bool,
    /// The name of the function, which is the name of the method.
    pub input_ident: String,
    /// The name of the type under which the method is registered.
    pub output_ident: String,
    /// Whether an argument takes the shared context.
    pub context_needed: bool,
    /// Whether the context is taken by reference.
    pub context_ty_referenced: bool,
    /// The type of the context as declared, such as `&str`; `()` where no
    /// argument takes the context.
    pub context_ty: Type,
    /// The owned version of `context_ty`, such as `String` for `&str`.
    pub context_ty_owned: Type,
    /// The name of the argument that takes the context.
    pub context_ident: Option<String>,
    /// The arguments, such as `a: String, b: u32, c: Struct`.
    pub fn_args: Vec<PatType>,
    /// The names of the arguments, such as `a, b, c`.
    pub fn_args_as_ident: Vec<String>,
    /// The arguments but the one that takes the context.
    pub fn_args_contextless: Vec<PatType>,
    /// The names of the arguments but the one that takes the context.
    pub fn_args_contextless_as_ident: Vec<String>,
    /// Whether what the function returns is the outcome of the call, with the
    /// error of the handler, and not the response.
    pub fallible: bool,
    /// The type of the response: what the function returns, and what its
    /// `Result` holds on success where the function is fallible.
    pub response_ty: Type,
}

pub struct RpcMethodView {
    pub input_async: bool,
    pub input_ident: Seq<char>,
    pub output_ident: Seq<char>,
    pub context_needed: bool,
    pub context_ty_referenced: bool,
    pub context_ty: TypeView,
    pub context_ty_owned: TypeView,
    pub context_ident: Option<Seq<char>>,
    pub fn_args: Seq<PatTypeView>,
    pub fn_args_as_ident: Seq<Seq<char>>,
    pub fn_args_contextless: Seq<PatTypeView>,
    pub fn_args_contextless_as_ident: Seq<Seq<char>>,
    pub fallible: bool,
    pub response_ty: TypeView,
}

impl DeepView for RpcMethod {
    type V = RpcMethodView;

    open spec fn deep_view(&self) -> RpcMethodView {
        RpcMethodView {
            input_async: self.input_async,
            input_ident: self.input_ident@,
            output_ident: self.output_ident@,
            context_needed: self.context_needed,
            context_ty_referenced: self.context_ty_referenced,
            context_ty: self.context_ty.deep_view(),
            context_ty_owned: self.context_ty_owned.deep_view(),
            context_ident: self.context_ident.deep_view(),
            fn_args: self.fn_args.deep_view(),
            fn_args_as_ident: self.fn_args_as_ident.deep_view(),
            fn_args_contextless: self.fn_args_contextless.deep_view(),
            fn_args_contextless_as_ident: self.fn_args_contextless_as_ident.deep_view(),
            fallible: self.fallible,
            response_ty: self.response_ty.deep_view(),
        }
    }
}

/// The first of `inputs`, from `from` on, that takes the context.
pub open spec fn context_arg(inputs: Seq<FnArgView>, from: int) -> Option<PatTypeView>
    decreases inputs.len() - from,
{
    if from < 0 || from >= inputs.len() {
        None
    } else if takes_context(inputs[from]) {
        Some(inputs[from]->Typed_0)
    } else {
        context_arg(inputs, from + 1)
    }
}

/// The name of the first of `inputs`, from `from` on, that takes the context and
/// is bound to a plain name.
pub open spec fn context_ident(inputs: Seq<FnArgView>, from: int) -> Option<Seq<char>>
    decreases inputs.len() - from,
{
    if from < 0 || from >= inputs.len() {
        None
    } else if takes_context(inputs[from]) && inputs[from]->Typed_0.pat is Ident {
        Some(inputs[from]->Typed_0.pat->ident)
    } else {
        context_ident(inputs, from + 1)
    }
}

/// `attrs` without the markers of the context.
pub open spec fn plain_attrs(attrs: Seq<AttributeView>) -> Seq<AttributeView>
    decreases attrs.len(),
{
    if attrs.len() == 0 {
        Seq::empty()
    } else if attrs.last().path == context_marker() {
        plain_attrs(attrs.drop_last())
    } else {
        plain_attrs(attrs.drop_last()).push(attrs.last())
    }
}

/// `pat` without `mut`.
pub open spec fn immutable(pat: PatView) -> PatView {
    match pat {
        PatView::Ident { ident, mutable } => PatView::Ident { ident, mutable: false },
        PatView::Other => PatView::Other,
    }
}

/// The argument `arg` as a generated function takes it: without the marker of
/// the context and without `mut`.
pub open spec fn plain_arg(arg: PatTypeView) -> PatTypeView {
    PatTypeView { attrs: plain_attrs(arg.attrs), pat: immutable(arg.pat), ty: arg.ty }
}

/// The typed arguments among `inputs`, each as [`plain_arg`] gives it; without
/// those that take the context where `exclude_context` is set.
pub open spec fn fn_args(inputs: Seq<FnArgView>, exclude_context: bool) -> Seq<PatTypeView>
    decreases inputs.len(),
{
    if inputs.len() == 0 {
        Seq::empty()
    } else {
        let before = fn_args(inputs.drop_last(), exclude_context);
        match inputs.last() {
            FnArgView::Receiver => before,
            FnArgView::Typed(typed) => if exclude_context && has_attr(typed.attrs, context_marker()) {
                before
            } else {
                before.push(plain_arg(typed))
            },
        }
    }
}

/// The position of the first receiver among `inputs`, from `from` on; the length
/// of `inputs` where there is none.
pub open spec fn first_receiver(inputs: Seq<FnArgView>, from: int) -> int
    decreases inputs.len() - from,
{
    if from < 0 || from >= inputs.len() {
        inputs.len() as int
    } else if inputs[from] is Receiver {
        from
    } else {
        first_receiver(inputs, from + 1)
    }
}

/// The position of the first of `args`, from `from` on, that is not bound to a
/// plain name; the length of `args` where each is.
pub open spec fn first_unnamed(args: Seq<PatTypeView>, from: int) -> int
    decreases args.len() - from,
{
    if from < 0 || from >= args.len() {
        args.len() as int
    } else if args[from].pat is Other {
        from
    } else {
        first_unnamed(args, from + 1)
    }
}

/// The names that `args` are bound to.
pub open spec fn idents(args: Seq<PatTypeView>) -> Seq<Seq<char>> {
    Seq::new(args.len(), |k: int| args[k].pat->ident)
}

/// The typed arguments of a function with the arguments `inputs`, or why the
/// function cannot be a handler.
pub open spec fn checked_fn_args(inputs: Seq<FnArgView>, exclude_context: bool) -> Result<
    Seq<PatTypeView>,
    UnsupportedShapeError,
> {
    let receiver = first_receiver(inputs, 0);
    if receiver < inputs.len() {
        Err(UnsupportedShapeError::Receiver { position: receiver as usize })
    } else {
        Ok(fn_args(inputs, exclude_context))
    }
}

/// The names that `args` are bound to, or the first of them that has none.
pub open spec fn checked_idents(args: Seq<PatTypeView>) -> Result<Seq<Seq<char>>, UnsupportedShapeError> {
    let unnamed = first_unnamed(args, 0);
    if unnamed < args.len() {
        Err(UnsupportedShapeError::Pattern { position: unnamed as usize })
    } else {
        Ok(idents(args))
    }
}

/// The type of the context of a function with the arguments `inputs`: that of
/// its argument that takes the context, or `()`.
pub open spec fn context_type(inputs: Seq<FnArgView>) -> TypeView {
    match context_arg(inputs, 0) {
        Some(arg) => arg.ty,
        None => TypeView::Unit,
    }
}

/// The type of the response of a function that returns `output`: what it
/// returns, and what its `Result` holds on success where the function is
/// fallible. A fallible function that returns no `Result` has none.
pub open spec fn response_type(output: ReturnTypeView, fallible: bool) -> Result<TypeView, UnsupportedShapeError> {
    if !fallible {
        Ok(return_type(output))
    } else {
        match return_type(output) {
            TypeView::Result(ok, _) => Ok(*ok),
            _ => Err(UnsupportedShapeError::Fallible),
        }
    }
}

/// What the declaration `input` says of its method where the method is
/// registered as `output_ident` and is fallible or not, or why it cannot be a
/// handler: a receiver among its arguments comes first, then an argument that
/// is not bound to a plain name, then a fallible function that returns no
/// `Result`.
pub open spec fn parsed_as(input: ItemFnView, output_ident: Seq<char>, fallible: bool) -> Result<
    RpcMethodView,
    UnsupportedShapeError,
> {
    match checked_fn_args(input.inputs, false) {
        Err(e) => Err(e),
        Ok(all) => match (checked_idents(all), response_type(input.output, fallible)) {
            (Err(e), _) => Err(e),
            (Ok(_), Err(e)) => Err(e),
            (Ok(names), Ok(response)) => Ok(
                RpcMethodView {
                    input_async: input.asyncness,
                    input_ident: input.ident,
                    output_ident,
                    context_needed: context_arg(input.inputs, 0) is Some,
                    context_ty_referenced: context_type(input.inputs) is Reference,
                    context_ty: context_type(input.inputs),
                    context_ty_owned: owned_type(context_type(input.inputs)),
                    context_ident: context_ident(input.inputs, 0),
                    fn_args: all,
                    fn_args_as_ident: names,
                    fn_args_contextless: fn_args(input.inputs, true),
                    fn_args_contextless_as_ident: idents(fn_args(input.inputs, true)),
                    fallible,
                    response_ty: response,
                },
            ),
        },
    }
}

/// What the declaration `input` says of its method, which is registered under
/// the name of the function in upper camel case and answers with what the
/// function returns.
pub open spec fn parsed(input: ItemFnView) -> Result<RpcMethodView, UnsupportedShapeError> {
    parsed_as(input, upper_camel_case(input.ident), false)
}

/// The argument of the function that takes the context, if one does.
pub fn extract_context_arg(input: &ItemFn) -> (found: Option<&PatType>)
    ensures
        found.deep_view() == context_arg(input.deep_view().inputs, 0),
{
    let inputs = &input.inputs;
    let mut i: usize = 0;
    while i < inputs.len()
        invariant
            i <= inputs.len(),
            inputs == &input.inputs,
            context_arg(input.deep_view().inputs, 0) == context_arg(input.deep_view().inputs, i as int),
        decreases inputs.len() - i,
    {
        assert(input.deep_view().inputs[i as int] == inputs[i as int].deep_view());
        match &inputs[i] {
            FnArg::Typed(typed) => {
                if any_attr(&typed.attrs, "context") {
                    return Some(typed);
                }
            },
            FnArg::Receiver => {},
        }
        i = i + 1;
    }
    None
}

/// The name of the argument that takes the context, if one does and is bound to
/// a plain name.
pub fn extract_context_ident(input: &ItemFn) -> (found: Option<String>)
    ensures
        found.deep_view() == context_ident(input.deep_view().inputs, 0),
{
    let inputs = &input.inputs;
    let mut i: usize = 0;
    while i < inputs.len()
        invariant
            i <= inputs.len(),
            inputs == &input.inputs,
            context_ident(input.deep_view().inputs, 0) == context_ident(input.deep_view().inputs, i as int),
        decreases inputs.len() - i,
    {
        assert(input.deep_view().inputs[i as int] == inputs[i as int].deep_view());
        match &inputs[i] {
            FnArg::Typed(typed) => {
                if any_attr(&typed.attrs, "context") {
                    match &typed.pat {
                        Pat::Ident { ident, .. } => {
                            return Some(ident.clone());
                        },
                        Pat::Other => {},
                    }
                }
            },
            FnArg::Receiver => {},
        }
        i = i + 1;
    }
    None
}

/// A copy of `attrs` without the markers of the context.
pub fn without_context_attrs(attrs: &Vec<Attribute>) -> (kept: Vec<Attribute>)
    ensures
        kept.deep_view() == plain_attrs(attrs.deep_view()),
{
    let mut kept: Vec<Attribute> = Vec::new();
    let mut i: usize = 0;
    assert(attrs.deep_view().take(0) =~= Seq::empty());
    while i < attrs.len()
        invariant
            i <= attrs.len(),
            kept.deep_view() == plain_attrs(attrs.deep_view().take(i as int)),
        decreases attrs.len() - i,
    {
        let attr = &attrs[i];
        proof {
            let upto = attrs.deep_view().take(i + 1);
            assert(upto.drop_last() =~= attrs.deep_view().take(i as int));
            assert(upto.last() == attr.deep_view());
        }
        if !attr.is_ident("context") {
            let ghost before = kept.deep_view();
            kept.push(attr.duplicate());
            assert(kept.deep_view() =~= before.push(attr.deep_view()));
        }
        i = i + 1;
    }
    assert(attrs.deep_view().take(attrs.len() as int) =~= attrs.deep_view());
    kept
}

/// The argument `arg` without the marker of the context and without `mut`.
pub fn plain_copy(arg: &PatType) -> (plain: PatType)
    ensures
        plain.deep_view() == plain_arg(arg.deep_view()),
{
    let pat = match &arg.pat {
        Pat::Ident { ident, .. } => Pat::Ident { ident: ident.clone(), mutable: false },
        Pat::Other => Pat::Other,
    };
    PatType { attrs: without_context_attrs(&arg.attrs), pat, ty: arg.ty.duplicate() }
}

/// The typed arguments of the function, each without the marker of the context
/// and without `mut`; without the one that takes the context where
/// `exclude_context` is set. A function that takes `self` has no such list.
pub fn extract_fn_args(input: &ItemFn, exclude_context: bool) -> (args: Result<
    Vec<PatType>,
    UnsupportedShapeError,
>)
    ensures
        match args {
            Ok(list) => checked_fn_args(input.deep_view().inputs, exclude_context) == Ok::<
                Seq<PatTypeView>,
                UnsupportedShapeError,
            >(list.deep_view()),
            Err(e) => checked_fn_args(input.deep_view().inputs, exclude_context) == Err::<
                Seq<PatTypeView>,
                UnsupportedShapeError,
            >(e),
        },
{
    let inputs = &input.inputs;
    let ghost shapes = input.deep_view().inputs;
    let mut args: Vec<PatType> = Vec::new();
    let mut i: usize = 0;
    assert(shapes.take(0) =~= Seq::empty());
    while i < inputs.len()
        invariant
            i <= inputs.len(),
            inputs == &input.inputs,
            shapes == input.deep_view().inputs,
            first_receiver(shapes, 0) == first_receiver(shapes, i as int),
            args.deep_view() == fn_args(shapes.take(i as int), exclude_context),
        decreases inputs.len() - i,
    {
        assert(shapes[i as int] == inputs[i as int].deep_view());
        proof {
            let upto = shapes.take(i + 1);
            assert(upto.drop_last() =~= shapes.take(i as int));
            assert(upto.last() == shapes[i as int]);
        }
        match &inputs[i] {
            FnArg::Receiver => {
                return Err(UnsupportedShapeError::Receiver { position: i });
            },
            FnArg::Typed(typed) => {
                if !(exclude_context && any_attr(&typed.attrs, "context")) {
                    let ghost before = args.deep_view();
                    let plain = plain_copy(typed);
                    args.push(plain);
                    assert(args.deep_view() =~= before.push(plain_arg(typed.deep_view())));
                }
            },
        }
        i = i + 1;
    }
    assert(shapes.take(inputs.len() as int) =~= shapes);
    Ok(args)
}

/// The names that the arguments are bound to. A list with an argument that is
/// not bound to a plain name has no such names.
pub fn as_ident(fn_args: &Vec<PatType>) -> (names: Result<Vec<String>, UnsupportedShapeError>)
    ensures
        match names {
            Ok(list) => checked_idents(fn_args.deep_view()) == Ok::<Seq<Seq<char>>, UnsupportedShapeError>(
                list.deep_view(),
            ),
            Err(e) => checked_idents(fn_args.deep_view()) == Err::<Seq<Seq<char>>, UnsupportedShapeError>(e),
        },
{
    let ghost shapes = fn_args.deep_view();
    let mut names: Vec<String> = Vec::new();
    let mut i: usize = 0;
    while i < fn_args.len()
        invariant
            i <= fn_args.len(),
            shapes == fn_args.deep_view(),
            first_unnamed(shapes, 0) == first_unnamed(shapes, i as int),
            names.len() == i,
            forall|k: int| 0 <= k < i ==> (#[trigger] names[k])@ == shapes[k].pat->ident,
        decreases fn_args.len() - i,
    {
        assert(shapes[i as int] == fn_args[i as int].deep_view());
        match &fn_args[i].pat {
            Pat::Ident { ident, .. } => {
                names.push(ident.clone());
            },
            Pat::Other => {
                return Err(UnsupportedShapeError::Pattern { position: i });
            },
        }
        i = i + 1;
    }
    assert(names.deep_view() =~= idents(shapes));
    Ok(names)
}

/// Where every argument from `from` on is bound to a plain name, the one at `at`
/// is.
proof fn lemma_named(args: Seq<PatTypeView>, from: int, at: int)
    requires
        0 <= from <= at < args.len(),
        first_unnamed(args, from) >= args.len(),
    ensures
        args[at].pat is Ident,
    decreases at - from,
{
    if from < at {
        lemma_named(args, from + 1, at);
    }
}

/// Where every argument from `from` on is bound to a plain name, none is found
/// that is not.
proof fn lemma_all_named(args: Seq<PatTypeView>, from: int)
    requires
        0 <= from,
        forall|k: int| from <= k < args.len() ==> (#[trigger] args[k]).pat is Ident,
    ensures
        first_unnamed(args, from) == args.len(),
    decreases args.len() - from,
{
    if from < args.len() {
        lemma_all_named(args, from + 1);
    }
}

/// The arguments without the one that takes the context are among all the
/// arguments: where each of all is bound to a plain name, each of them is.
proof fn lemma_contextless_named(inputs: Seq<FnArgView>)
    requires
        forall|k: int| 0 <= k < fn_args(inputs, false).len() ==> (#[trigger] fn_args(inputs, false)[k]).pat is Ident,
    ensures
        forall|k: int| 0 <= k < fn_args(inputs, true).len() ==> (#[trigger] fn_args(inputs, true)[k]).pat is Ident,
    decreases inputs.len(),
{
    if inputs.len() > 0 {
        let rest = inputs.drop_last();
        let all_rest = fn_args(rest, false);
        assert forall|k: int| 0 <= k < all_rest.len() implies (#[trigger] all_rest[k]).pat is Ident by {
            assert(fn_args(inputs, false)[k] == all_rest[k]);
        }
        lemma_contextless_named(rest);
        match inputs.last() {
            FnArgView::Receiver => {},
            FnArgView::Typed(typed) => {
                let all = fn_args(inputs, false);
                assert(all == all_rest.push(plain_arg(typed)));
                assert(all[all.len() - 1] == plain_arg(typed));
            },
        }
    }
}

/// The type of the response of the function `input`: what it returns, and what
/// its `Result` holds on success where the function is fallible.
pub fn extract_response_type(input: &ItemFn, fallible: bool) -> (response: Result<Type, UnsupportedShapeError>)
    ensures
        match response {
            Ok(ty) => response_type(input.deep_view().output, fallible) == Ok::<TypeView, UnsupportedShapeError>(
                ty.deep_view(),
            ),
            Err(e) => response_type(input.deep_view().output, fallible) == Err::<TypeView, UnsupportedShapeError>(e),
        },
{
    let returned = extract_return_type(input);
    if !fallible {
        return Ok(returned);
    }
    match returned {
        Type::Result(ok, _) => Ok(*ok),
        _ => Err(UnsupportedShapeError::Fallible),
    }
}

impl RpcMethod {
    /// Reads the declaration `input` of a method that is registered as
    /// `output_ident` and is fallible or not. A function that takes `self`, an
    /// argument that is not bound to a plain name, and a fallible function that
    /// returns no `Result` declare no method.
    pub fn parse_as(input: ItemFn, output_ident: String, fallible: bool) -> (method: Result<
        RpcMethod,
        UnsupportedShapeError,
    >)
        ensures
            match method {
                Ok(m) => parsed_as(input.deep_view(), output_ident@, fallible) == Ok::<
                    RpcMethodView,
                    UnsupportedShapeError,
                >(m.deep_view()),
                Err(e) => parsed_as(input.deep_view(), output_ident@, fallible) == Err::<
                    RpcMethodView,
                    UnsupportedShapeError,
                >(e),
            },
    {
        let context_ty = match extract_context_arg(&input) {
            Some(arg) => Some(arg.ty.duplicate()),
            None => None,
        };
        let context_needed = context_ty.is_some();
        let context_ty = match context_ty {
            Some(ty) => ty,
            None => Type::Unit,
        };
        let fn_args = match extract_fn_args(&input, false) {
            Ok(args) => args,
            Err(e) => {
                return Err(e);
            },
        };
        let fn_args_as_ident = match as_ident(&fn_args) {
            Ok(names) => names,
            Err(e) => {
                return Err(e);
            },
        };
        let fn_args_contextless = match extract_fn_args(&input, true) {
            Ok(args) => args,
            Err(e) => {
                return Err(e);
            },
        };
        proof {
            let shapes = input.deep_view().inputs;
            let all = self::fn_args(shapes, false);
            assert forall|k: int| 0 <= k < all.len() implies (#[trigger] all[k]).pat is Ident by {
                lemma_named(all, 0, k);
            }
            lemma_contextless_named(shapes);
            lemma_all_named(self::fn_args(shapes, true), 0);
        }
        let fn_args_contextless_as_ident = match as_ident(&fn_args_contextless) {
            Ok(names) => names,
            Err(e) => {
                return Err(e);
            },
        };
        let context_ty_referenced = match &context_ty {
            Type::Reference(_) => true,
            _ => false,
        };
        let response_ty = match extract_response_type(&input, fallible) {
            Ok(ty) => ty,
            Err(e) => {
                return Err(e);
            },
        };
        Ok(
            RpcMethod {
                input_async: input.asyncness,
                input_ident: input.ident.clone(),
                output_ident,
                context_needed,
                context_ty_referenced,
                context_ty_owned: owned_type_version(&context_ty),
                context_ty,
                context_ident: extract_context_ident(&input),
                fn_args_as_ident,
                fn_args,
                fn_args_contextless_as_ident,
                fn_args_contextless,
                fallible,
                response_ty,
            },
        )
    }

    /// Reads the declaration `input`. The method is registered under the name of
    /// the function in upper camel case. A function that takes `self`, or an
    /// argument that is not bound to a plain name, declares no method.
    pub fn parse(input: ItemFn) -> (method: Result<RpcMethod, UnsupportedShapeError>)
        ensures
            match method {
                Ok(m) => parsed(input.deep_view()) == Ok::<RpcMethodView, UnsupportedShapeError>(m.deep_view()),
                Err(e) => parsed(input.deep_view()) == Err::<RpcMethodView, UnsupportedShapeError>(e),
            },
    {
        let output_ident = to_upper_camel_case(input.ident.as_str());
        Self::parse_as(input, output_ident, false)
    }
}

} // verus!
