//! A function declaration as plain values: what the rules of this library read of
//! a handler's signature, and nothing else of it.
//!
//! Each type has a deep view made of `Seq`, `Option` and `bool`, and the
//! contracts of the library are stated over those views.
use vstd::prelude::*;

verus! {

/// An attribute on a function or on one of its arguments: `#[path]`,
/// `#[path(..)]` or `#[path = value]`.
#[derive(Debug, Clone, PartialEq, Eq)]
pub struct Attribute {
    /// The attribute's path as written, such as `doc` or `deprecated`.
    pub path: String,
    /// The string literal of a `#[path = "literal"]` attribute; absent for every
    /// other form.
    pub value: Option<String>,
}

pub struct AttributeView {
    pub path: Seq<char>,
    pub value: Option<Seq<char>>,
}

impl DeepView for Attribute {
    type V = AttributeView;

    open spec fn deep_view(&self) -> AttributeView {
        AttributeView { path: self.path@, value: self.value.deep_view() }
    }
}

/// The type of an argument or of a result, as far as its shape matters here.
#[derive(Debug, PartialEq, Eq)]
pub enum Type {
    /// A path of one plain segment, such as `str`, `char` or `User`.
    Name(String),
    /// `&T` or `&mut T`.
    Reference(Box<Type>),
    /// `[T]`.
    Slice(Box<Type>),
    /// `Vec<T>`.
    Vector(Box<Type>),
    /// `Result<T, E>`.
    Result(Box<Type>, Box<Type>),
    /// `()`.
    Unit,
    /// Any other type, kept as its source text.
    Verbatim(String),
}

pub enum TypeView {
    Name(Seq<char>),
    Reference(Box<TypeView>),
    Slice(Box<TypeView>),
    Vector(Box<TypeView>),
    Result(Box<TypeView>, Box<TypeView>),
    Unit,
    Verbatim(Seq<char>),
}

impl Type {
    /// The shape of this type over `Seq`.
    pub open spec fn shape(self) -> TypeView
        decreases self,
    {
        match self {
            Type::Name(name) => TypeView::Name(name@),
            Type::Reference(elem) => TypeView::Reference(Box::new((*elem).shape())),
            Type::Slice(elem) => TypeView::Slice(Box::new((*elem).shape())),
            Type::Vector(elem) => TypeView::Vector(Box::new((*elem).shape())),
            Type::Result(ok, err) => TypeView::Result(Box::new((*ok).shape()), Box::new((*err).shape())),
            Type::Unit => TypeView::Unit,
            Type::Verbatim(text) => TypeView::Verbatim(text@),
        }
    }
}

impl DeepView for Type {
    type V = TypeView;

    open spec fn deep_view(&self) -> TypeView {
        self.shape()
    }
}

/// The pattern of an argument.
#[derive(Debug, Clone, PartialEq, Eq)]
pub enum Pat {
    /// A plain binding, `name` or `mut name`.
    Ident { ident: String, mutable: bool },
    /// Any other pattern: a wildcard, a tuple, a struct pattern.
    Other,
}

pub enum PatView {
    Ident { ident: Seq<char>, mutable: bool },
    Other,
}

impl DeepView for Pat {
    type V = PatView;

    open spec fn deep_view(&self) -> PatView {
        match self {
            Pat::Ident { ident, mutable } => PatView::Ident { ident: ident@, mutable: *mutable },
            Pat::Other => PatView::Other,
        }
    }
}

/// A typed argument, `#[attrs] pat: ty`.
#[derive(Debug, Clone, PartialEq, Eq)]
pub struct PatType {
    pub attrs: Vec<Attribute>,
    pub pat: Pat,
    pub ty: Type,
}

pub struct PatTypeView {
    pub attrs: Seq<AttributeView>,
    pub pat: PatView,
    pub ty: TypeView,
}

impl DeepView for PatType {
    type V = PatTypeView;

    open spec fn deep_view(&self) -> PatTypeView {
        PatTypeView {
            attrs: self.attrs.deep_view(),
            pat: self.pat.deep_view(),
            ty: self.ty.deep_view(),
        }
    }
}

/// An argument of a function.
#[derive(Debug, Clone, PartialEq, Eq)]
pub enum FnArg {
    /// `self` in any form.
    Receiver,
    /// Any other argument.
    Typed(PatType),
}

pub enum FnArgView {
    Receiver,
    Typed(PatTypeView),
}

impl DeepView for FnArg {
    type V = FnArgView;

    open spec fn deep_view(&self) -> FnArgView {
        match self {
            FnArg::Receiver => FnArgView::Receiver,
            FnArg::Typed(arg) => FnArgView::Typed(arg.deep_view()),
        }
    }
}

/// What a function returns.
#[derive(Debug, Clone, PartialEq, Eq)]
pub enum ReturnType {
    /// Nothing is written after the arguments: the function returns `()`.
    Default,
    /// `-> ty`.
    Type(Type),
}

pub enum ReturnTypeView {
    Default,
    Type(TypeView),
}

impl DeepView for ReturnType {
    type V = ReturnTypeView;

    open spec fn deep_view(&self) -> ReturnTypeView {
        match self {
            ReturnType::Default => ReturnTypeView::Default,
            ReturnType::Type(ty) => ReturnTypeView::Type(ty.deep_view()),
        }
    }
}

/// The declaration of a function: its attributes and its signature.
#[derive(Debug, Clone, PartialEq, Eq)]
pub struct ItemFn {
    /// The attributes on the function, doc comments included: each line of a doc
    /// comment is one `#[doc = "line"]`.
    pub attrs: Vec<Attribute>,
    /// Whether the function is declared `async`.
    pub asyncness: bool,
    /// The function's name.
    pub ident: String,
    /// The arguments, in the order of the declaration.
    pub inputs: Vec<FnArg>,
    pub output: ReturnType,
}

pub struct ItemFnView {
    pub attrs: Seq<AttributeView>,
    pub asyncness: bool,
    pub ident: Seq<char>,
    pub inputs: Seq<FnArgView>,
    pub output: ReturnTypeView,
}

impl DeepView for ItemFn {
    type V = ItemFnView;

    open spec fn deep_view(&self) -> ItemFnView {
        ItemFnView {
            attrs: self.attrs.deep_view(),
            asyncness: self.asyncness,
            ident: self.ident@,
            inputs: self.inputs.deep_view(),
            output: self.output.deep_view(),
        }
    }
}

/// Whether some attribute of `attrs` has the path `path`.
pub open spec fn has_attr(attrs: Seq<AttributeView>, path: Seq<char>) -> bool {
    exists|i: int| 0 <= i < attrs.len() && (#[trigger] attrs[i]).path == path
}

/// The path that marks the argument through which a handler takes the shared
/// context.
pub open spec fn context_marker() -> Seq<char> {
    "context"@
}

/// Whether `arg` is typed and marked as the argument that takes the shared
/// context.
pub open spec fn takes_context(arg: FnArgView) -> bool {
    arg matches FnArgView::Typed(typed) && has_attr(typed.attrs, context_marker())
}

/// The path that marks a deprecated function or argument.
pub open spec fn deprecated_marker() -> Seq<char> {
    "deprecated"@
}

/// Whether `text` is the string `literal`.
pub fn str_is(text: &String, literal: &str) -> (same: bool)
    ensures
        same == (text@ == literal@),
{
    let other = literal.to_owned();
    *text == other
}

impl Attribute {
    /// A copy of this attribute.
    pub fn duplicate(&self) -> (copy: Attribute)
        ensures
            copy.deep_view() == self.deep_view(),
    {
        let value = match &self.value {
            Some(text) => Some(text.clone()),
            None => None,
        };
        Attribute { path: self.path.clone(), value }
    }

    /// Whether the attribute's path is `path`.
    pub fn is_ident(&self, path: &str) -> (same: bool)
        ensures
            same == (self.deep_view().path == path@),
    {
        str_is(&self.path, path)
    }
}

/// Whether some attribute of `attrs` has the path `path`.
pub fn any_attr(attrs: &Vec<Attribute>, path: &str) -> (found: bool)
    ensures
        found == has_attr(attrs.deep_view(), path@),
{
    let mut i: usize = 0;
    while i < attrs.len()
        invariant
            i <= attrs.len(),
            forall|j: int| 0 <= j < i ==> (#[trigger] attrs.deep_view()[j]).path != path@,
        decreases attrs.len() - i,
    {
        if attrs[i].is_ident(path) {
            assert(attrs.deep_view()[i as int].path == path@);
            return true;
        }
        i = i + 1;
    }
    false
}

/// A copy of `attrs`.
pub fn duplicate_attrs(attrs: &Vec<Attribute>) -> (copy: Vec<Attribute>)
    ensures
        copy.deep_view() == attrs.deep_view(),
{
    let mut copy: Vec<Attribute> = Vec::new();
    let mut i: usize = 0;
    while i < attrs.len()
        invariant
            i <= attrs.len(),
            copy.len() == i,
            forall|j: int| 0 <= j < i ==> (#[trigger] copy[j]).deep_view() == attrs[j].deep_view(),
        decreases attrs.len() - i,
    {
        copy.push(attrs[i].duplicate());
        i = i + 1;
    }
    assert(copy.deep_view() =~= attrs.deep_view());
    copy
}

impl Type {
    /// A copy of this type.
    pub fn duplicate(&self) -> (copy: Type)
        ensures
            copy.deep_view() == self.deep_view(),
        decreases self,
    {
        match self {
            Type::Name(name) => Type::Name(name.clone()),
            Type::Reference(elem) => Type::Reference(Box::new(elem.duplicate())),
            Type::Slice(elem) => Type::Slice(Box::new(elem.duplicate())),
            Type::Vector(elem) => Type::Vector(Box::new(elem.duplicate())),
            Type::Result(ok, err) => Type::Result(Box::new(ok.duplicate()), Box::new(err.duplicate())),
            Type::Unit => Type::Unit,
            Type::Verbatim(text) => Type::Verbatim(text.clone()),
        }
    }
}

impl Clone for Type {
    fn clone(&self) -> (copy: Type)
        ensures
            copy.deep_view() == self.deep_view(),
    {
        self.duplicate()
    }
}

impl Pat {
    /// A copy of this pattern.
    pub fn duplicate(&self) -> (copy: Pat)
        ensures
            copy.deep_view() == self.deep_view(),
    {
        match self {
            Pat::Ident { ident, mutable } => Pat::Ident { ident: ident.clone(), mutable: *mutable },
            Pat::Other => Pat::Other,
        }
    }
}

impl PatType {
    /// A copy of this argument.
    pub fn duplicate(&self) -> (copy: PatType)
        ensures
            copy.deep_view() == self.deep_view(),
    {
        PatType {
            attrs: duplicate_attrs(&self.attrs),
            pat: self.pat.duplicate(),
            ty: self.ty.duplicate(),
        }
    }
}

impl FnArg {
    /// A copy of this argument.
    pub fn duplicate(&self) -> (copy: FnArg)
        ensures
            copy.deep_view() == self.deep_view(),
    {
        match self {
            FnArg::Receiver => FnArg::Receiver,
            FnArg::Typed(arg) => FnArg::Typed(arg.duplicate()),
        }
    }
}

/// A copy of `inputs`.
pub fn duplicate_inputs(inputs: &Vec<FnArg>) -> (copy: Vec<FnArg>)
    ensures
        copy.deep_view() == inputs.deep_view(),
{
    let mut copy: Vec<FnArg> = Vec::new();
    let mut i: usize = 0;
    while i < inputs.len()
        invariant
            i <= inputs.len(),
            copy.len() == i,
            forall|k: int| 0 <= k < i ==> (#[trigger] copy[k]).deep_view() == inputs[k].deep_view(),
        decreases inputs.len() - i,
    {
        copy.push(inputs[i].duplicate());
        i = i + 1;
    }
    assert(copy.deep_view() =~= inputs.deep_view());
    copy
}

} // verus!
