use openspec_jsonrpsee::rpc::callback::{gen_arguments_parse_impl, gen_arguments_supply, gen_callback_impl};
use openspec_jsonrpsee::rpc::generate_rpc_method;
use openspec_jsonrpsee::rpc::wrapper::{gen_fn_wrapper, WrapperPlan};
use openspec_jsonrpsee::rpc_method::handler::ParamsReader;
use openspec_jsonrpsee::syntax::{FnArg, ItemFn, Pat, PatType, ReturnType, Type};
use openspec_jsonrpsee::UnsupportedShapeError;

fn named(name: &str) -> Type {
    Type::Name(name.into())
}

fn arg(name: &str, mutable: bool, ty: Type) -> FnArg {
    FnArg::Typed(PatType { attrs: vec![], pat: Pat::Ident { ident: name.into(), mutable }, ty })
}

fn declaration(ident: &str, inputs: Vec<FnArg>, output: ReturnType) -> ItemFn {
    ItemFn { attrs: vec![], asyncness: false, ident: ident.into(), inputs, output }
}

#[test]
fn a_function_is_kept_in_a_module_named_after_it() {
    let plan = gen_fn_wrapper(&declaration("do_something", vec![], ReturnType::Default));
    assert_eq!(plan, WrapperPlan { module: "do_something_impl".into(), function: "do_something".into() });
}

#[test]
fn the_parameters_are_read_by_the_number_of_arguments() {
    let none = declaration("none", vec![], ReturnType::Default);
    let parse = gen_arguments_parse_impl(&none).unwrap();
    assert_eq!(parse.reader, ParamsReader::Parse);
    assert!(parse.pats.is_empty());
    assert!(parse.tys.is_empty());
    assert_eq!(gen_arguments_supply(&none), Ok(vec![]));

    let one = declaration("one", vec![arg("first_arg", true, named("String"))], ReturnType::Default);
    let parse = gen_arguments_parse_impl(&one).unwrap();
    assert_eq!(parse.reader, ParamsReader::One);
    assert_eq!(parse.pats, vec![Pat::Ident { ident: "first_arg".into(), mutable: false }]);
    assert_eq!(parse.tys, vec![named("String")]);
    assert_eq!(gen_arguments_supply(&one), Ok(vec!["first_arg".to_string()]));

    let two = declaration(
        "two",
        vec![arg("a", false, named("String")), arg("b", false, Type::Verbatim("(u8, u8)".into()))],
        ReturnType::Default,
    );
    let parse = gen_arguments_parse_impl(&two).unwrap();
    assert_eq!(parse.reader, ParamsReader::Parse);
    assert_eq!(parse.tys, vec![named("String"), Type::Verbatim("(u8, u8)".into())]);
    assert_eq!(gen_arguments_supply(&two), Ok(vec!["a".to_string(), "b".to_string()]));
}

#[test]
fn a_function_with_self_or_a_pattern_has_no_callback() {
    let with_pattern = declaration(
        "f",
        vec![
            arg("a", false, named("String")),
            FnArg::Typed(PatType { attrs: vec![], pat: Pat::Other, ty: Type::Verbatim("(u8, u8)".into()) }),
        ],
        ReturnType::Default,
    );
    let pattern = UnsupportedShapeError::Pattern { position: 1 };
    assert_eq!(gen_arguments_parse_impl(&with_pattern), Err(pattern));
    assert_eq!(gen_arguments_supply(&with_pattern), Err(pattern));
    assert_eq!(generate_rpc_method(&with_pattern), Err(pattern));

    let with_self = declaration(
        "f",
        vec![FnArg::Typed(PatType { attrs: vec![], pat: Pat::Other, ty: named("A") }), FnArg::Receiver],
        ReturnType::Default,
    );
    let receiver = UnsupportedShapeError::Receiver { position: 1 };
    assert_eq!(gen_arguments_parse_impl(&with_self), Err(receiver));
    assert_eq!(gen_arguments_supply(&with_self), Err(receiver));
    assert_eq!(
        gen_callback_impl(&with_self, gen_fn_wrapper(&with_self), Type::Unit, Type::Unit),
        Err(receiver)
    );
    assert_eq!(generate_rpc_method(&with_self), Err(receiver));
}

#[test]
fn the_plainest_method_is_planned_as_a_whole() {
    let input = declaration("do_something", vec![arg("first_arg", false, named("String"))], ReturnType::Default);
    let plan = generate_rpc_method(&input).unwrap();
    assert_eq!(plan.name, "do_something");
    assert_eq!(plan.return_type, Type::Unit);
    assert_eq!(plan.wrapper, gen_fn_wrapper(&input));
    assert_eq!(Ok(plan.callback.clone()), gen_callback_impl(&input, gen_fn_wrapper(&input), Type::Unit, Type::Unit));
    assert_eq!(plan.callback.wrapped_fn.module, "do_something_impl");
    assert_eq!(plan.callback.context, Type::Unit);
    assert_eq!(plan.callback.parse.reader, ParamsReader::One);
    assert_eq!(plan.callback.supply, vec!["first_arg"]);

    let returning = declaration("answer", vec![], ReturnType::Type(named("u8")));
    let plan = generate_rpc_method(&returning).unwrap();
    assert_eq!(plan.return_type, named("u8"));
    assert_eq!(plan.callback.response, named("u8"));
    assert_eq!(plan.callback.parse.reader, ParamsReader::Parse);
}
