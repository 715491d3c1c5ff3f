//! Rules on the types of a declaration: what a function returns, and the owned
//! form of a type that is written behind a reference.
use crate::syntax::{str_is, ItemFn, ReturnType, ReturnTypeView, Type, TypeView};
use vstd::prelude::*;

verus! {

/// The type that a function with the result `output` returns: the type written
/// after `->`, or `()` where none is written.
pub open spec fn return_type(output: ReturnTypeView) -> TypeView {
    match output {
        ReturnTypeView::Default => TypeView::Unit,
        ReturnTypeView::Type(ty) => ty,
    }
}

/// `ty` without its outermost reference: `T` for `&T`, and `ty` itself where it
/// is no reference.
pub open spec fn without_ref(ty: TypeView) -> TypeView {
    match ty {
        TypeView::Reference(elem) => *elem,
        _ => ty,
    }
}

/// Whether `ty` is the plain name `name`.
pub open spec fn is_name(ty: TypeView, name: Seq<char>) -> bool {
    ty == TypeView::Name(name)
}

/// The owned form of `ty`. The outermost reference is dropped first; of what is
/// left, `str` becomes `String`, a reference to `str` becomes `String`, any other
/// reference becomes the type it refers to, a slice `[T]` becomes `Vec<T>`, and
/// every other type is owned as it stands.
pub open spec fn owned_type(ty: TypeView) -> TypeView {
    match without_ref(ty) {
        TypeView::Name(name) => if name == "str"@ {
            TypeView::Name("String"@)
        } else {
            TypeView::Name(name)
        },
        TypeView::Reference(elem) => if is_name(*elem, "str"@) {
            TypeView::Name("String"@)
        } else {
            *elem
        },
        TypeView::Slice(elem) => TypeView::Vector(elem),
        other => other,
    }
}

/// The type that `input` returns.
pub fn extract_return_type(input: &ItemFn) -> (ty: Type)
    ensures
        ty.deep_view() == return_type(input.deep_view().output),
{
    match &input.output {
        ReturnType::Type(ty) => ty.duplicate(),
        ReturnType::Default => Type::Unit,
    }
}

/// Turns a `&T` into a `T`.
pub fn remove_type_ref(ty: &Type) -> (stripped: Type)
    ensures
        stripped.deep_view() == without_ref(ty.deep_view()),
{
    match ty {
        Type::Reference(elem) => elem.duplicate(),
        _ => ty.duplicate(),
    }
}

/// Converts a type to its natural owned version, such as `&str` to `String`.
pub fn owned_type_version(ty: &Type) -> (owned: Type)
    ensures
        owned.deep_view() == owned_type(ty.deep_view()),
{
    let stripped = remove_type_ref(ty);
    proof {
        reveal_with_fuel(Type::shape, 3);
    }
    match stripped {
        Type::Name(name) => {
            if str_is(&name, "str") {
                Type::Name("String".to_owned())
            } else {
                Type::Name(name)
            }
        },
        Type::Reference(elem) => {
            let inner = *elem;
            match inner {
                Type::Name(name) => {
                    if str_is(&name, "str") {
                        Type::Name("String".to_owned())
                    } else {
                        Type::Name(name)
                    }
                },
                other => other,
            }
        },
        Type::Slice(elem) => Type::Vector(elem),
        other => other,
    }
}

} // verus!
