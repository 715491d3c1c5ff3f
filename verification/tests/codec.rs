use openspec_jsonrpsee::params::{decode, encode};
use openspec_jsonrpsee::{ParamError, RawParams, TypedArgs};
use serde_json::Value;

fn names(list: &[&str]) -> Vec<String> {
    list.iter().map(|name| name.to_string()).collect()
}

fn object(fields: &[(&str, Value)]) -> Value {
    let mut map = serde_json::Map::new();
    for (key, value) in fields {
        map.insert(key.to_string(), value.clone());
    }
    Value::Object(map)
}

fn keyed(entries: &[(&str, Value)]) -> RawParams {
    RawParams::Keyed(entries.iter().map(|(key, value)| (key.to_string(), value.clone())).collect())
}

#[test]
fn what_is_sent_comes_back_for_every_arity() {
    let user = object(&[("id", Value::from(123)), ("name", Value::from("John"))]);
    let cases = vec![
        (TypedArgs::Empty, names(&[])),
        (TypedArgs::One(Value::from("hello")), names(&["first_arg"])),
        (TypedArgs::One(Value::Null), names(&["first_arg"])),
        (TypedArgs::One(Value::from(vec!["one", "two", "three"])), names(&["values"])),
        (TypedArgs::One(user.clone()), names(&["user"])),
        (TypedArgs::Many(vec![user.clone(), Value::from("prefix")]), names(&["user", "prefix"])),
        (TypedArgs::Many(vec![Value::from(1), Value::Null, Value::from(true)]), names(&["a", "b", "c"])),
    ];
    for (args, declared) in cases {
        assert_eq!(args.arity(), declared.len());
        for strict in [true, false] {
            assert_eq!(decode(encode(args.clone()), &declared, strict), Ok(args.clone()));
        }
    }
}

#[test]
fn the_arguments_are_sent_as_a_list() {
    assert_eq!(encode(TypedArgs::Empty), RawParams::Absent);
    assert_eq!(encode(TypedArgs::One(Value::from(7))), RawParams::Positional(vec![Value::from(7)]));
    assert_eq!(
        encode(TypedArgs::Many(vec![Value::from(7), Value::from("x")])),
        RawParams::Positional(vec![Value::from(7), Value::from("x")])
    );
}

#[test]
fn values_make_arguments_by_their_number() {
    assert_eq!(TypedArgs::from_values(vec![]), TypedArgs::Empty);
    assert_eq!(TypedArgs::from_values(vec![Value::from(1)]), TypedArgs::One(Value::from(1)));
    assert_eq!(
        TypedArgs::from_values(vec![Value::from(1), Value::from(2)]),
        TypedArgs::Many(vec![Value::from(1), Value::from(2)])
    );
    assert_eq!(TypedArgs::Empty.arity(), 0);
    assert_eq!(TypedArgs::One(Value::Null).arity(), 1);
    assert_eq!(TypedArgs::Many(vec![Value::Null, Value::Null, Value::Null]).arity(), 3);
}

#[test]
fn a_missing_value_names_the_argument() {
    assert_eq!(
        decode(RawParams::Absent, &names(&["a"]), false),
        Err(ParamError::Missing { position: 0, name: "a".into() })
    );
    assert_eq!(
        decode(RawParams::Positional(vec![]), &names(&["a", "b"]), false),
        Err(ParamError::Missing { position: 0, name: "a".into() })
    );
    assert_eq!(
        decode(RawParams::Positional(vec![Value::from(1), Value::from(2)]), &names(&["a", "b", "c"]), true),
        Err(ParamError::Missing { position: 2, name: "c".into() })
    );
    assert_eq!(
        decode(keyed(&[("a", Value::from(1)), ("c", Value::from(3))]), &names(&["a", "b", "c"]), false),
        Err(ParamError::Missing { position: 1, name: "b".into() })
    );
    assert_eq!(
        decode(keyed(&[]), &names(&["a"]), true),
        Err(ParamError::Missing { position: 0, name: "a".into() })
    );
}

#[test]
fn a_value_too_many_is_an_error_in_strict_mode_only() {
    let two = RawParams::Positional(vec![Value::from(1), Value::from(2)]);
    assert_eq!(
        decode(two.clone(), &names(&[]), true),
        Err(ParamError::ExtraParams { position: 0, name: String::new() })
    );
    assert_eq!(decode(two.clone(), &names(&[]), false), Ok(TypedArgs::Empty));
    assert_eq!(
        decode(two.clone(), &names(&["a"]), true),
        Err(ParamError::ExtraParams { position: 1, name: String::new() })
    );
    assert_eq!(decode(two.clone(), &names(&["a"]), false), Ok(TypedArgs::One(Value::from(1))));
    assert_eq!(
        decode(two.clone(), &names(&["a", "b"]), true),
        Ok(TypedArgs::Many(vec![Value::from(1), Value::from(2)]))
    );

    let more = keyed(&[("z", Value::from(0)), ("b", Value::from(2)), ("a", Value::from(1)), ("y", Value::from(9))]);
    assert_eq!(
        decode(more.clone(), &names(&["a", "b"]), true),
        Err(ParamError::ExtraParams { position: 0, name: "z".into() })
    );
    assert_eq!(
        decode(more.clone(), &names(&["a", "b"]), false),
        Ok(TypedArgs::Many(vec![Value::from(1), Value::from(2)]))
    );
    assert_eq!(
        decode(more, &names(&["a", "b", "c"]), true),
        Err(ParamError::Missing { position: 2, name: "c".into() })
    );
    assert_eq!(
        decode(keyed(&[("a", Value::from(1))]), &names(&[]), true),
        Err(ParamError::ExtraParams { position: 0, name: "a".into() })
    );
    assert_eq!(decode(keyed(&[("a", Value::from(1))]), &names(&[]), false), Ok(TypedArgs::Empty));
}

#[test]
fn an_object_reaches_the_arguments_by_name() {
    let a = Value::from("first");
    let b = object(&[("name", Value::from("b"))]);
    let c = Value::from(vec![1, 2, 3]);
    let declared = names(&["a", "b", "c"]);
    let orders: [[usize; 3]; 4] = [[0, 1, 2], [2, 1, 0], [1, 2, 0], [1, 0, 2]];
    let values = [a.clone(), b.clone(), c.clone()];
    for order in orders {
        let entries: Vec<(String, Value)> =
            order.iter().map(|&at| (declared[at].clone(), values[at].clone())).collect();
        for strict in [true, false] {
            assert_eq!(
                decode(RawParams::Keyed(entries.clone()), &declared, strict),
                Ok(TypedArgs::Many(vec![a.clone(), b.clone(), c.clone()]))
            );
        }
    }
    assert_eq!(decode(keyed(&[("a", a.clone())]), &names(&["a"]), true), Ok(TypedArgs::One(a.clone())));
    assert_eq!(decode(keyed(&[]), &names(&[]), true), Ok(TypedArgs::Empty));
    assert_eq!(
        decode(keyed(&[("a", a.clone()), ("a", b.clone())]), &names(&["a"]), true),
        Ok(TypedArgs::One(a.clone()))
    );
}

#[test]
fn one_value_alone_is_read_by_the_arity() {
    assert_eq!(decode(RawParams::Scalar(Value::from(5)), &names(&["a"]), true), Ok(TypedArgs::One(Value::from(5))));
    assert_eq!(
        decode(RawParams::Scalar(Value::from(5)), &names(&[]), true),
        Err(ParamError::ExtraParams { position: 0, name: String::new() })
    );
    assert_eq!(decode(RawParams::Scalar(Value::from(5)), &names(&[]), false), Ok(TypedArgs::Empty));
    assert_eq!(
        decode(RawParams::Scalar(Value::from(5)), &names(&["a", "b"]), true),
        Err(ParamError::TypeMismatch { position: 0, name: "a".into() })
    );
}

#[test]
fn a_handler_reports_a_value_of_another_type() {
    let declared = names(&["id", "name"]);
    assert_eq!(
        ParamError::type_mismatch(&declared, 1),
        ParamError::TypeMismatch { position: 1, name: "name".into() }
    );
    assert_eq!(
        ParamError::type_mismatch(&declared, 2),
        ParamError::TypeMismatch { position: 2, name: String::new() }
    );
    let args = decode(
        RawParams::Positional(vec![Value::from("seven"), Value::from("new")]),
        &declared,
        true,
    )
    .unwrap();
    let values = match args {
        TypedArgs::Many(values) => values,
        other => panic!("two arguments make a tuple: {other:?}"),
    };
    let id = serde_json::from_value::<u32>(values[0].clone()).map_err(|_| ParamError::type_mismatch(&declared, 0));
    assert_eq!(id, Err(ParamError::TypeMismatch { position: 0, name: "id".into() }));
}
