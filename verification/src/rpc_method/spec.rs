//! The description of a method, built from its declaration.
use crate::error::UnsupportedShapeError;
use crate::spec::{ContentDescriptor, ContentDescriptorView, Method};
use crate::syntax::{
    any_attr, deprecated_marker, has_attr, takes_context, AttributeView, FnArg, FnArgView, ItemFn, Pat, PatView,
};
use crate::text::{joined_lines, push_line, trim_start, trimmed_start};
use vstd::prelude::*;
use vstd::string::StringExecFns;

verus! {

/// The arguments of `inputs` that a description speaks of: all but those that
/// take the context, in their order.
pub open spec fn described_args(inputs: Seq<FnArgView>) -> Seq<FnArgView>
    decreases inputs.len(),
{
    if inputs.len() == 0 {
        Seq::empty()
    } else if takes_context(inputs.last()) {
        described_args(inputs.drop_last())
    } else {
        described_args(inputs.drop_last()).push(inputs.last())
    }
}

/// The lines of documentation among `attrs`: of each `#[doc = "text"]`, in
/// their order, the text without the white space that it starts with.
pub open spec fn doc_lines(attrs: Seq<AttributeView>) -> Seq<Seq<char>>
    decreases attrs.len(),
{
    if attrs.len() == 0 {
        Seq::empty()
    } else {
        let before = doc_lines(attrs.drop_last());
        let attr = attrs.last();
        if attr.path == "doc"@ && attr.value is Some {
            before.push(trimmed_start(attr.value->0))
        } else {
            before
        }
    }
}

/// The description of a function with the attributes `attrs`: its lines of
/// documentation joined by line feeds, and nothing where that text is empty.
pub open spec fn description_of(attrs: Seq<AttributeView>) -> Option<Seq<char>> {
    let text = joined_lines(doc_lines(attrs));
    if text.len() == 0 {
        None
    } else {
        Some(text)
    }
}

/// Why the described argument `arg`, the one at `position`, has no descriptor;
/// nothing where it has one.
pub open spec fn shape_error(arg: FnArgView, position: int) -> Option<UnsupportedShapeError> {
    match arg {
        FnArgView::Receiver => Some(UnsupportedShapeError::Receiver { position: position as usize }),
        FnArgView::Typed(typed) => match typed.pat {
            PatView::Ident { .. } => None,
            PatView::Other => Some(UnsupportedShapeError::Pattern { position: position as usize }),
        },
    }
}

/// The position of the first of `args`, from `from` on, that has no descriptor;
/// the length of `args` where each has one.
pub open spec fn first_unsupported(args: Seq<FnArgView>, from: int) -> int
    decreases args.len() - from,
{
    if from < 0 || from >= args.len() {
        args.len() as int
    } else if shape_error(args[from], from) is Some {
        from
    } else {
        first_unsupported(args, from + 1)
    }
}

/// The descriptor of the argument `arg` with the schema `schema`: named as the
/// argument, required, and deprecated where the argument is marked so.
pub open spec fn param_descriptor(arg: FnArgView, schema: schemars::Schema) -> ContentDescriptorView {
    ContentDescriptorView {
        name: arg->Typed_0.pat->ident,
        summary: None,
        description: None,
        required: Some(true),
        schema,
        deprecated: Some(has_attr(arg->Typed_0.attrs, deprecated_marker())),
    }
}

/// The descriptors of the arguments `inputs`, one for each described argument
/// and in their order, with the schemas `schemas` in the same order.
pub open spec fn param_descriptors(
    inputs: Seq<FnArgView>,
    schemas: Seq<schemars::Schema>,
) -> Result<Seq<ContentDescriptorView>, UnsupportedShapeError> {
    let args = described_args(inputs);
    let bad = first_unsupported(args, 0);
    if bad < args.len() {
        Err(shape_error(args[bad], bad)->0)
    } else if schemas.len() != args.len() {
        Err(UnsupportedShapeError::Schemas { expected: args.len() as usize, found: schemas.len() as usize })
    } else {
        Ok(Seq::new(args.len(), |k: int| param_descriptor(args[k], schemas[k])))
    }
}

/// The name of the result of the method that is registered as `output_ident`.
pub open spec fn result_name(output_ident: Seq<char>) -> Seq<char> {
    output_ident + "Response"@
}

/// The descriptor of the result of a function with the attributes `attrs`.
pub open spec fn result_descriptor(
    attrs: Seq<AttributeView>,
    output_ident: Seq<char>,
    schema: schemars::Schema,
) -> ContentDescriptorView {
    ContentDescriptorView {
        name: result_name(output_ident),
        summary: None,
        description: None,
        required: Some(true),
        schema,
        deprecated: Some(has_attr(attrs, deprecated_marker())),
    }
}

/// Whether the function is marked as deprecated.
pub fn extract_deprecated(input: &ItemFn) -> (deprecated: Option<bool>)
    ensures
        deprecated == Some(has_attr(input.deep_view().attrs, deprecated_marker())),
{
    Some(any_attr(&input.attrs, "deprecated"))
}

/// The description of the function: the lines of its doc comment, each without
/// the white space that it starts with, joined by line feeds. A function without
/// such text has no description.
pub fn extract_description(input: &ItemFn) -> (description: Option<String>)
    ensures
        description.deep_view() == description_of(input.deep_view().attrs),
        description matches Some(text) ==> text@.len() > 0,
{
    let attrs = &input.attrs;
    let mut text = String::new();
    let mut first = true;
    let ghost mut lines: Seq<Seq<char>> = Seq::empty();
    let mut i: usize = 0;
    assert(attrs.deep_view().take(0) =~= Seq::empty());
    while i < attrs.len()
        invariant
            i <= attrs.len(),
            lines == doc_lines(attrs.deep_view().take(i as int)),
            text@ == joined_lines(lines),
            first == (lines.len() == 0),
        decreases attrs.len() - i,
    {
        let attr = &attrs[i];
        proof {
            let upto = attrs.deep_view().take(i + 1);
            assert(upto.drop_last() =~= attrs.deep_view().take(i as int));
            assert(upto.last() == attr.deep_view());
        }
        if attr.is_ident("doc") {
            match &attr.value {
                Some(value) => {
                    let line = trim_start(value.as_str());
                    push_line(&mut text, line, Ghost(lines), first);
                    first = false;
                    proof {
                        lines = lines.push(line@);
                    }
                },
                None => {},
            }
        }
        i = i + 1;
    }
    assert(attrs.deep_view().take(attrs.len() as int) =~= attrs.deep_view());
    if text.as_str().unicode_len() == 0 {
        None
    } else {
        Some(text)
    }
}

/// The arguments that a description speaks of: all but those that take the
/// context.
pub fn filtered_params(inputs: &Vec<FnArg>) -> (kept: Vec<FnArg>)
    ensures
        kept.deep_view() == described_args(inputs.deep_view()),
{
    let mut kept: Vec<FnArg> = Vec::new();
    let mut i: usize = 0;
    assert(inputs.deep_view().take(0) =~= Seq::empty());
    while i < inputs.len()
        invariant
            i <= inputs.len(),
            kept.deep_view() == described_args(inputs.deep_view().take(i as int)),
        decreases inputs.len() - i,
    {
        let arg = &inputs[i];
        proof {
            let upto = inputs.deep_view().take(i + 1);
            assert(upto.drop_last() =~= inputs.deep_view().take(i as int));
            assert(upto.last() == arg.deep_view());
        }
        let takes_context = match arg {
            FnArg::Receiver => false,
            FnArg::Typed(typed) => any_attr(&typed.attrs, "context"),
        };
        if !takes_context {
            let ghost before = kept.deep_view();
            kept.push(arg.duplicate());
            assert(kept.deep_view() =~= before.push(arg.deep_view()));
        }
        i = i + 1;
    }
    assert(inputs.deep_view().take(inputs.len() as int) =~= inputs.deep_view());
    kept
}

/// One descriptor for each argument of the function but those that take the
/// context: named as the argument, with its schema, always required, and
/// deprecated where the argument is marked so. `schemas` holds the schemas of
/// those arguments in their order.
pub fn extract_params(input: &ItemFn, schemas: &Vec<schemars::Schema>) -> (params: Result<
    Vec<ContentDescriptor>,
    UnsupportedShapeError,
>)
    ensures
        match params {
            Ok(list) => param_descriptors(input.deep_view().inputs, schemas@) == Ok::<
                Seq<ContentDescriptorView>,
                UnsupportedShapeError,
            >(list.deep_view()),
            Err(e) => param_descriptors(input.deep_view().inputs, schemas@) == Err::<
                Seq<ContentDescriptorView>,
                UnsupportedShapeError,
            >(e),
        },
{
    let args = filtered_params(&input.inputs);
    let ghost shapes = args.deep_view();
    let mut k: usize = 0;
    while k < args.len()
        invariant
            k <= args.len(),
            shapes == args.deep_view(),
            shapes == described_args(input.deep_view().inputs),
            first_unsupported(shapes, 0) == first_unsupported(shapes, k as int),
        decreases args.len() - k,
    {
        assert(shapes[k as int] == args[k as int].deep_view());
        match &args[k] {
            FnArg::Receiver => {
                return Err(UnsupportedShapeError::Receiver { position: k });
            },
            FnArg::Typed(typed) => match &typed.pat {
                Pat::Ident { .. } => {},
                Pat::Other => {
                    return Err(UnsupportedShapeError::Pattern { position: k });
                },
            },
        }
        k = k + 1;
    }
    if schemas.len() != args.len() {
        return Err(UnsupportedShapeError::Schemas { expected: args.len(), found: schemas.len() });
    }
    let mut params: Vec<ContentDescriptor> = Vec::new();
    let mut k: usize = 0;
    while k < args.len()
        invariant
            k <= args.len(),
            schemas.len() == args.len(),
            shapes == args.deep_view(),
            first_unsupported(shapes, 0) == shapes.len(),
            params.len() == k,
            forall|j: int| 0 <= j < k ==> (#[trigger] params[j]).deep_view() == param_descriptor(shapes[j], schemas[j]),
        decreases args.len() - k,
    {
        assert(shapes[k as int] == args[k as int].deep_view());
        proof {
            lemma_supported(shapes, 0, k as int);
        }
        match &args[k] {
            FnArg::Typed(typed) => match &typed.pat {
                Pat::Ident { ident, .. } => {
                    params.push(
                        ContentDescriptor {
                            name: ident.clone(),
                            summary: None,
                            description: None,
                            required: Some(true),
                            schema: schemas[k].clone(),
                            deprecated: Some(any_attr(&typed.attrs, "deprecated")),
                        },
                    );
                },
                Pat::Other => {},
            },
            FnArg::Receiver => {},
        }
        k = k + 1;
    }
    assert(params.deep_view() =~= Seq::new(shapes.len(), |j: int| param_descriptor(shapes[j], schemas@[j])));
    Ok(params)
}

/// Where each of `args` from `from` on has a descriptor, the one at `at` has.
pub(crate) proof fn lemma_supported(args: Seq<FnArgView>, from: int, at: int)
    requires
        0 <= from <= at < args.len(),
        first_unsupported(args, from) >= args.len(),
    ensures
        shape_error(args[at], at) is None,
    decreases at - from,
{
    if from < at {
        lemma_supported(args, from + 1, at);
    }
}

/// Every argument is described as required, whatever its type allows: that a
/// value may be absent or null shows in the schema of the argument alone, which
/// is taken over as it was handed in.
pub proof fn lemma_always_required(inputs: Seq<FnArgView>, schemas: Seq<schemars::Schema>)
    ensures
        param_descriptors(inputs, schemas) matches Ok(list) ==> {
            &&& list.len() == schemas.len()
            &&& forall|k: int|
                0 <= k < list.len() ==> (#[trigger] list[k]).required == Some(true) && list[k].schema
                    == schemas[k]
        },
{
}

/// The descriptor of what the function returns: named after the method, with the
/// schema of the result, required, and deprecated where the method is.
pub fn extract_result(input: &ItemFn, output_ident: &str, schema: schemars::Schema) -> (result: Option<
    ContentDescriptor,
>)
    ensures
        result.deep_view() == Some(
            result_descriptor(input.deep_view().attrs, output_ident@, schema),
        ),
{
    let name = output_ident.to_owned().concat("Response");
    Some(
        ContentDescriptor {
            name,
            summary: None,
            description: None,
            required: Some(true),
            schema,
            deprecated: Some(any_attr(&input.attrs, "deprecated")),
        },
    )
}

/// The description of the method that `input` declares and that is registered
/// as `output_ident`. `params` holds the schemas of the arguments that do not
/// take the context, in their order, and `result` the schema of what the
/// function returns.
pub fn generate(
    input: &ItemFn,
    output_ident: &str,
    params: &Vec<schemars::Schema>,
    result: schemars::Schema,
) -> (method: Result<Method, UnsupportedShapeError>)
    ensures
        match method {
            Ok(m) => {
                &&& m.name@ == input.deep_view().ident
                &&& m.description.deep_view() == description_of(input.deep_view().attrs)
                &&& param_descriptors(input.deep_view().inputs, params@) == Ok::<
                    Seq<ContentDescriptorView>,
                    UnsupportedShapeError,
                >(m.params.deep_view())
                &&& m.result.deep_view() == Some(
                    result_descriptor(input.deep_view().attrs, output_ident@, result),
                )
                &&& m.deprecated == Some(has_attr(input.deep_view().attrs, deprecated_marker()))
                &&& m.tags is None
                &&& m.summary is None
                &&& m.external_docs is None
                &&& m.servers is None
                &&& m.errors is None
                &&& m.links is None
                &&& m.param_structure is None
                &&& m.examples is None
            },
            Err(e) => param_descriptors(input.deep_view().inputs, params@) == Err::<
                Seq<ContentDescriptorView>,
                UnsupportedShapeError,
            >(e),
        },
{
    let name = input.ident.clone();
    let description = extract_description(input);
    let deprecated = extract_deprecated(input);
    let params = match extract_params(input, params) {
        Ok(list) => list,
        Err(e) => {
            return Err(e);
        },
    };
    let result = extract_result(input, output_ident, result);
    Ok(
        Method {
            name,
            tags: None,
            summary: None,
            description,
            external_docs: None,
            params,
            result,
            deprecated,
            servers: None,
            errors: None,
            links: None,
            param_structure: None,
            examples: None,
        },
    )
}

} // verus!
