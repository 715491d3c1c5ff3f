//! The parameters of a call: how the values that a caller supplies, as a list or
//! as an object keyed by name, become the arguments of a method, and how the
//! arguments of a request become the list that is sent.
use vstd::prelude::*;

verus! {

/// The parameters of a call as they arrive.
#[derive(Debug, Clone, PartialEq)]
pub enum RawParams {
    /// The call has no parameters.
    Absent,
    /// An ordered list of values.
    Positional(Vec<serde_json::Value>),
    /// An object: values keyed by name.
    Keyed(Vec<(String, serde_json::Value)>),
    /// One value that is neither a list nor an object.
    Scalar(serde_json::Value),
}

pub enum RawParamsView {
    Absent,
    Positional(Seq<serde_json::Value>),
    Keyed(Seq<(Seq<char>, serde_json::Value)>),
    Scalar(serde_json::Value),
}

/// The entries of an object over `Seq`.
pub open spec fn entries_view(entries: Seq<(String, serde_json::Value)>) -> Seq<
    (Seq<char>, serde_json::Value),
> {
    Seq::new(entries.len(), |k: int| (entries[k].0@, entries[k].1))
}

impl View for RawParams {
    type V = RawParamsView;

    open spec fn view(&self) -> RawParamsView {
        match self {
            RawParams::Absent => RawParamsView::Absent,
            RawParams::Positional(values) => RawParamsView::Positional(values@),
            RawParams::Keyed(entries) => RawParamsView::Keyed(entries_view(entries@)),
            RawParams::Scalar(value) => RawParamsView::Scalar(*value),
        }
    }
}

/// The arguments of a method, by its arity: nothing for a method without
/// arguments, the value itself for a method with one argument, and the values in
/// the order of the declaration for a method with several.
#[derive(Debug, Clone, PartialEq)]
pub enum TypedArgs {
    Empty,
    One(serde_json::Value),
    Many(Vec<serde_json::Value>),
}

pub enum TypedArgsView {
    Empty,
    One(serde_json::Value),
    Many(Seq<serde_json::Value>),
}

impl View for TypedArgs {
    type V = TypedArgsView;

    open spec fn view(&self) -> TypedArgsView {
        match self {
            TypedArgs::Empty => TypedArgsView::Empty,
            TypedArgs::One(value) => TypedArgsView::One(*value),
            TypedArgs::Many(values) => TypedArgsView::Many(values@),
        }
    }
}

impl TypedArgsView {
    /// The values, in the order of the declaration.
    pub open spec fn values(self) -> Seq<serde_json::Value> {
        match self {
            TypedArgsView::Empty => Seq::empty(),
            TypedArgsView::One(value) => seq![value],
            TypedArgsView::Many(values) => values,
        }
    }

    /// Whether the form fits the number of values: only two values or more make
    /// a tuple.
    pub open spec fn well_formed(self) -> bool {
        self matches TypedArgsView::Many(values) ==> values.len() >= 2
    }
}

/// Why the parameters of a call do not make the arguments of the method.
#[derive(Debug, Clone, PartialEq, Eq)]
pub enum ParamError {
    /// No value was supplied for the argument `name`, the one at `position`.
    Missing { position: usize, name: String },
    /// What was supplied for the argument `name`, the one at `position`, is not
    /// of its type.
    TypeMismatch { position: usize, name: String },
    /// A value was supplied that no argument takes: the one at `position` of
    /// what was supplied, under the key `name` where the parameters are keyed.
    ExtraParams { position: usize, name: String },
}

pub enum ParamErrorView {
    Missing { position: usize, name: Seq<char> },
    TypeMismatch { position: usize, name: Seq<char> },
    ExtraParams { position: usize, name: Seq<char> },
}

impl View for ParamError {
    type V = ParamErrorView;

    open spec fn view(&self) -> ParamErrorView {
        match self {
            ParamError::Missing { position, name } => ParamErrorView::Missing { position: *position, name: name@ },
            ParamError::TypeMismatch { position, name } => ParamErrorView::TypeMismatch {
                position: *position,
                name: name@,
            },
            ParamError::ExtraParams { position, name } => ParamErrorView::ExtraParams {
                position: *position,
                name: name@,
            },
        }
    }
}

/// The arguments that `values` make: by their number, nothing, the one value,
/// or the tuple.
pub open spec fn typed(values: Seq<serde_json::Value>) -> TypedArgsView {
    if values.len() == 0 {
        TypedArgsView::Empty
    } else if values.len() == 1 {
        TypedArgsView::One(values[0])
    } else {
        TypedArgsView::Many(values)
    }
}

/// The value of the first of `entries`, from `from` on, that is keyed `key`.
pub open spec fn lookup(entries: Seq<(Seq<char>, serde_json::Value)>, key: Seq<char>, from: int) -> Option<
    serde_json::Value,
>
    decreases entries.len() - from,
{
    if from < 0 || from >= entries.len() {
        None
    } else if entries[from].0 == key {
        Some(entries[from].1)
    } else {
        lookup(entries, key, from + 1)
    }
}

/// The position of the first of `names`, from `from` on, that no entry is keyed
/// with; the length of `names` where each has one.
pub open spec fn first_missing(
    entries: Seq<(Seq<char>, serde_json::Value)>,
    names: Seq<Seq<char>>,
    from: int,
) -> int
    decreases names.len() - from,
{
    if from < 0 || from >= names.len() {
        names.len() as int
    } else if lookup(entries, names[from], 0) is None {
        from
    } else {
        first_missing(entries, names, from + 1)
    }
}

/// The position of the first of `entries`, from `from` on, whose key is none of
/// `names`; the length of `entries` where each key is one.
pub open spec fn first_unknown(
    entries: Seq<(Seq<char>, serde_json::Value)>,
    names: Seq<Seq<char>>,
    from: int,
) -> int
    decreases entries.len() - from,
{
    if from < 0 || from >= entries.len() {
        entries.len() as int
    } else if !names.contains(entries[from].0) {
        from
    } else {
        first_unknown(entries, names, from + 1)
    }
}

/// The values that `entries` hold for `names`, in the order of `names`.
pub open spec fn picked(entries: Seq<(Seq<char>, serde_json::Value)>, names: Seq<Seq<char>>) -> Seq<
    serde_json::Value,
> {
    Seq::new(names.len(), |i: int| lookup(entries, names[i], 0)->0)
}

/// The arguments that the parameters `raw` make for a method whose arguments
/// are named `names`, or why they make none.
///
/// - No parameters make the arguments of a method without arguments.
/// - A list supplies the arguments by position. A value that is missing is an
///   error. A value too many is an error in strict mode and is left out
///   otherwise.
/// - An object supplies each argument under its name. A name without an entry is
///   an error. An entry under another key is an error in strict mode and is left
///   out otherwise.
/// - One value that is neither a list nor an object is the argument of a method
///   with one argument. For a method without arguments it is a value too many,
///   and for a method with several it is not the list that they are read from.
pub open spec fn decoded(raw: RawParamsView, names: Seq<Seq<char>>, strict: bool) -> Result<
    TypedArgsView,
    ParamErrorView,
> {
    match raw {
        RawParamsView::Absent => if names.len() == 0 {
            Ok(TypedArgsView::Empty)
        } else {
            Err(ParamErrorView::Missing { position: 0, name: names[0] })
        },
        RawParamsView::Positional(values) => if values.len() < names.len() {
            Err(
                ParamErrorView::Missing {
                    position: values.len() as usize,
                    name: names[values.len() as int],
                },
            )
        } else if values.len() > names.len() && strict {
            Err(ParamErrorView::ExtraParams { position: names.len() as usize, name: Seq::empty() })
        } else {
            Ok(typed(values.take(names.len() as int)))
        },
        RawParamsView::Keyed(entries) => {
            let missing = first_missing(entries, names, 0);
            let unknown = first_unknown(entries, names, 0);
            if missing < names.len() {
                Err(ParamErrorView::Missing { position: missing as usize, name: names[missing] })
            } else if strict && unknown < entries.len() {
                Err(ParamErrorView::ExtraParams { position: unknown as usize, name: entries[unknown].0 })
            } else {
                Ok(typed(picked(entries, names)))
            }
        },
        RawParamsView::Scalar(value) => if names.len() == 1 {
            Ok(TypedArgsView::One(value))
        } else if names.len() == 0 {
            if strict {
                Err(ParamErrorView::ExtraParams { position: 0, name: Seq::empty() })
            } else {
                Ok(TypedArgsView::Empty)
            }
        } else {
            Err(ParamErrorView::TypeMismatch { position: 0, name: names[0] })
        },
    }
}

/// The parameters that a request sends for the arguments `args`: none for a
/// method without arguments, and otherwise the list of the arguments in the
/// order of the declaration. One argument is sent as a list of one value.
pub open spec fn encoded(args: TypedArgsView) -> RawParamsView {
    match args {
        TypedArgsView::Empty => RawParamsView::Absent,
        _ => RawParamsView::Positional(args.values()),
    }
}

/// The parameters that a request sends by name for the values `values` of the
/// arguments `names`.
pub open spec fn encoded_by_name(names: Seq<Seq<char>>, values: Seq<serde_json::Value>) -> RawParamsView {
    RawParamsView::Keyed(Seq::new(names.len(), |i: int| (names[i], values[i])))
}

impl TypedArgs {
    /// The arguments that `values` make.
    pub fn from_values(values: Vec<serde_json::Value>) -> (args: TypedArgs)
        ensures
            args@ == typed(values@),
            args@.well_formed(),
    {
        let mut values = values;
        if values.len() == 0 {
            TypedArgs::Empty
        } else if values.len() == 1 {
            match values.pop() {
                Some(value) => TypedArgs::One(value),
                None => TypedArgs::Empty,
            }
        } else {
            TypedArgs::Many(values)
        }
    }

    /// The number of arguments.
    pub fn arity(&self) -> (n: usize)
        ensures
            n == self@.values().len(),
    {
        match self {
            TypedArgs::Empty => 0,
            TypedArgs::One(_) => 1,
            TypedArgs::Many(values) => values.len(),
        }
    }
}

impl ParamError {
    /// The error of a value that is not of the type of the argument at
    /// `position` among `names`: what a handler reports where the value that it
    /// was handed for that argument cannot be read as its type.
    pub fn type_mismatch(names: &Vec<String>, position: usize) -> (error: ParamError)
        ensures
            error@ == (ParamErrorView::TypeMismatch {
                position,
                name: if position < names.len() {
                    names[position as int]@
                } else {
                    Seq::empty()
                },
            }),
    {
        ParamError::TypeMismatch { position, name: name_at(names, position) }
    }
}

/// The parameters that a request sends for `args`.
pub fn encode(args: TypedArgs) -> (raw: RawParams)
    ensures
        raw@ == encoded(args@),
{
    match args {
        TypedArgs::Empty => RawParams::Absent,
        TypedArgs::One(value) => {
            let mut values: Vec<serde_json::Value> = Vec::new();
            values.push(value);
            assert(values@ =~= seq![value]);
            RawParams::Positional(values)
        },
        TypedArgs::Many(values) => RawParams::Positional(values),
    }
}

/// The name of the argument at `position`, or the empty name where there is no
/// such argument.
fn name_at(names: &Vec<String>, position: usize) -> (name: String)
    ensures
        name@ == (if position < names.len() {
            names[position as int]@
        } else {
            Seq::empty()
        }),
{
    if position < names.len() {
        names[position].clone()
    } else {
        String::new()
    }
}

/// The value of the first of `entries` that is keyed `key`.
fn find(entries: &Vec<(String, serde_json::Value)>, key: &String) -> (found: Option<serde_json::Value>)
    ensures
        found == lookup(entries_view(entries@), key@, 0),
{
    let mut j: usize = 0;
    while j < entries.len()
        invariant
            j <= entries.len(),
            lookup(entries_view(entries@), key@, 0) == lookup(entries_view(entries@), key@, j as int),
        decreases entries.len() - j,
    {
        if entries[j].0 == *key {
            return Some(entries[j].1.clone());
        }
        j = j + 1;
    }
    None
}

/// Whether `key` is one of `names`.
fn declares(names: &Vec<String>, key: &String) -> (declared: bool)
    ensures
        declared == names.deep_view().contains(key@),
{
    let mut i: usize = 0;
    while i < names.len()
        invariant
            i <= names.len(),
            forall|k: int| 0 <= k < i ==> names.deep_view()[k] != key@,
        decreases names.len() - i,
    {
        if names[i] == *key {
            assert(names.deep_view()[i as int] == key@);
            return true;
        }
        i = i + 1;
    }
    false
}

/// Reads the arguments of a method whose arguments are named `names` from the
/// parameters `raw`. In strict mode a value that no argument takes is an error;
/// otherwise it is left out.
pub fn decode(raw: RawParams, names: &Vec<String>, strict: bool) -> (args: Result<TypedArgs, ParamError>)
    ensures
        match args {
            Ok(a) => decoded(raw@, names.deep_view(), strict) == Ok::<TypedArgsView, ParamErrorView>(a@),
            Err(e) => decoded(raw@, names.deep_view(), strict) == Err::<TypedArgsView, ParamErrorView>(e@),
        },
        args matches Ok(a) ==> a@.well_formed(),
{
    let arity = names.len();
    match raw {
        RawParams::Absent => {
            if arity == 0 {
                Ok(TypedArgs::Empty)
            } else {
                Err(ParamError::Missing { position: 0, name: name_at(names, 0) })
            }
        },
        RawParams::Positional(values) => {
            let mut values = values;
            let supplied = values.len();
            if supplied < arity {
                Err(ParamError::Missing { position: supplied, name: name_at(names, supplied) })
            } else if supplied > arity && strict {
                Err(ParamError::ExtraParams { position: arity, name: String::new() })
            } else {
                values.truncate(arity);
                assert(values@ =~= raw@->Positional_0.take(arity as int));
                Ok(TypedArgs::from_values(values))
            }
        },
        RawParams::Keyed(entries) => {
            let ghost shapes = entries_view(entries@);
            let mut values: Vec<serde_json::Value> = Vec::new();
            let mut i: usize = 0;
            while i < arity
                invariant
                    i <= arity,
                    arity == names.len(),
                    shapes == entries_view(entries@),
                    raw@ == RawParamsView::Keyed(shapes),
                    first_missing(shapes, names.deep_view(), 0) == first_missing(shapes, names.deep_view(), i as int),
                    values.len() == i,
                    forall|k: int| 0 <= k < i ==> Some(#[trigger] values[k]) == lookup(shapes, names[k]@, 0),
                decreases arity - i,
            {
                match find(&entries, &names[i]) {
                    Some(value) => {
                        values.push(value);
                    },
                    None => {
                        return Err(ParamError::Missing { position: i, name: name_at(names, i) });
                    },
                }
                i = i + 1;
            }
            assert(values@ =~= picked(shapes, names.deep_view()));
            if strict {
                let mut j: usize = 0;
                while j < entries.len()
                    invariant
                        j <= entries.len(),
                        shapes == entries_view(entries@),
                        raw@ == RawParamsView::Keyed(shapes),
                        strict,
                        first_missing(shapes, names.deep_view(), 0) == names.len(),
                        first_unknown(shapes, names.deep_view(), 0) == first_unknown(shapes, names.deep_view(), j as int),
                    decreases entries.len() - j,
                {
                    if !declares(names, &entries[j].0) {
                        return Err(ParamError::ExtraParams { position: j, name: entries[j].0.clone() });
                    }
                    j = j + 1;
                }
            }
            Ok(TypedArgs::from_values(values))
        },
        RawParams::Scalar(value) => {
            if arity == 1 {
                Ok(TypedArgs::One(value))
            } else if arity == 0 {
                if strict {
                    Err(ParamError::ExtraParams { position: 0, name: String::new() })
                } else {
                    Ok(TypedArgs::Empty)
                }
            } else {
                Err(ParamError::TypeMismatch { position: 0, name: name_at(names, 0) })
            }
        },
    }
}

/// What is sent for the arguments of a request comes back as those arguments:
/// for a method without arguments, with one and with several, reading the
/// parameters that [`encode`] makes gives the arguments that went in, in strict
/// mode or not.
pub proof fn lemma_round_trip(args: TypedArgsView, names: Seq<Seq<char>>, strict: bool)
    requires
        args.well_formed(),
        names.len() == args.values().len(),
    ensures
        decoded(encoded(args), names, strict) == Ok::<TypedArgsView, ParamErrorView>(args),
{
    match args {
        TypedArgsView::Empty => {},
        TypedArgsView::One(value) => {
            assert(seq![value].take(1) =~= seq![value]);
        },
        TypedArgsView::Many(values) => {
            assert(values.take(values.len() as int) =~= values);
        },
    }
}

/// The value under `key` is found where the key stands first: where no entry
/// from `from` up to `at` is keyed `key` and the entry at `at` is.
proof fn lemma_lookup_at(entries: Seq<(Seq<char>, serde_json::Value)>, key: Seq<char>, from: int, at: int)
    requires
        0 <= from <= at < entries.len(),
        entries[at].0 == key,
        forall|k: int| from <= k < at ==> (#[trigger] entries[k]).0 != key,
    ensures
        lookup(entries, key, from) == Some(entries[at].1),
    decreases at - from,
{
    if from < at {
        lemma_lookup_at(entries, key, from + 1, at);
    }
}

/// Where every name from `from` on has an entry, none is found missing.
proof fn lemma_none_missing(entries: Seq<(Seq<char>, serde_json::Value)>, names: Seq<Seq<char>>, from: int)
    requires
        0 <= from,
        forall|i: int| from <= i < names.len() ==> lookup(entries, #[trigger] names[i], 0) is Some,
    ensures
        first_missing(entries, names, from) == names.len(),
    decreases names.len() - from,
{
    if from < names.len() {
        lemma_none_missing(entries, names, from + 1);
    }
}

/// Where the key of every entry from `from` on is one of the names, none is
/// found unknown.
proof fn lemma_none_unknown(entries: Seq<(Seq<char>, serde_json::Value)>, names: Seq<Seq<char>>, from: int)
    requires
        0 <= from,
        forall|j: int| from <= j < entries.len() ==> names.contains((#[trigger] entries[j]).0),
    ensures
        first_unknown(entries, names, from) == entries.len(),
    decreases entries.len() - from,
{
    if from < entries.len() {
        lemma_none_unknown(entries, names, from + 1);
    }
}

/// Whether `entries` hold `value` under `key`.
pub open spec fn has_entry(entries: Seq<(Seq<char>, serde_json::Value)>, key: Seq<char>, value: serde_json::Value) -> bool {
    exists|j: int| 0 <= j < entries.len() && #[trigger] entries[j] == (key, value)
}

/// Parameters that are supplied by name reach the arguments that they are named
/// after: where no two arguments have the same name, reading the object that
/// holds the value of each argument under its name gives those values in the
/// order of the declaration, in strict mode or not and whatever the order of
/// the entries.
pub proof fn lemma_by_name(
    entries: Seq<(Seq<char>, serde_json::Value)>,
    names: Seq<Seq<char>>,
    values: Seq<serde_json::Value>,
    strict: bool,
)
    requires
        names.len() == values.len(),
        forall|i: int, j: int| 0 <= i < j < names.len() ==> names[i] != names[j],
        entries.len() == names.len(),
        forall|j: int, k: int| 0 <= j < k < entries.len() ==> (#[trigger] entries[j]).0 != (#[trigger] entries[k]).0,
        forall|i: int| 0 <= i < names.len() ==> #[trigger] has_entry(entries, names[i], values[i]),
    ensures
        decoded(RawParamsView::Keyed(entries), names, strict) == Ok::<TypedArgsView, ParamErrorView>(
            typed(values),
        ),
{
    assert forall|i: int| 0 <= i < names.len() implies lookup(entries, #[trigger] names[i], 0) == Some(
        values[i],
    ) by {
        assert(has_entry(entries, names[i], values[i]));
        let j = choose|j: int| 0 <= j < entries.len() && #[trigger] entries[j] == (names[i], values[i]);
        lemma_lookup_at(entries, names[i], 0, j);
    }
    lemma_none_missing(entries, names, 0);
    assert(picked(entries, names) =~= values);
    assert forall|j: int| 0 <= j < entries.len() implies names.contains((#[trigger] entries[j]).0) by {
        lemma_key_is_declared(entries, names, values, j);
    }
    lemma_none_unknown(entries, names, 0);
}

/// Among as many entries with distinct keys as there are names, each name
/// keying one of them, every key is a name.
proof fn lemma_key_is_declared(
    entries: Seq<(Seq<char>, serde_json::Value)>,
    names: Seq<Seq<char>>,
    values: Seq<serde_json::Value>,
    at: int,
)
    requires
        0 <= at < entries.len(),
        names.len() == values.len(),
        entries.len() == names.len(),
        forall|i: int, j: int| 0 <= i < j < names.len() ==> names[i] != names[j],
        forall|j: int, k: int| 0 <= j < k < entries.len() ==> (#[trigger] entries[j]).0 != (#[trigger] entries[k]).0,
        forall|i: int| 0 <= i < names.len() ==> #[trigger] has_entry(entries, names[i], values[i]),
    ensures
        names.contains(entries[at].0),
{
    // The map from a name to the entry that it keys is injective, from the
    // positions of the names into those of the entries, which are as many: it
    // reaches every entry.
    let home = |i: int| choose|j: int| 0 <= j < entries.len() && #[trigger] entries[j] == (names[i], values[i]);
    let positions = Set::new(|i: int| 0 <= i < names.len());
    let reached = positions.map(home);
    vstd::set_lib::lemma_int_range(0, names.len() as int);
    assert(positions =~= vstd::set_lib::set_int_range(0, names.len() as int));
    assert forall|a: int, b: int| positions.contains(a) && positions.contains(b) && home(a) == home(b) implies a
        == b by {
        if a != b {
            assert(has_entry(entries, names[a], values[a]));
            assert(has_entry(entries, names[b], values[b]));
            assert(entries[home(a)] == (names[a], values[a]));
            assert(entries[home(b)] == (names[b], values[b]));
        }
    }
    vstd::set_lib::lemma_map_size(positions, reached, home);
    let all = vstd::set_lib::set_int_range(0, entries.len() as int);
    vstd::set_lib::lemma_int_range(0, entries.len() as int);
    assert forall|j: int| reached.contains(j) implies all.contains(j) by {
        let i = choose|i: int| positions.contains(i) && home(i) == j;
        assert(has_entry(entries, names[i], values[i]));
        assert(entries[home(i)] == (names[i], values[i]));
    }
    assert(reached.subset_of(all));
    vstd::set_lib::lemma_subset_equality(reached, all);
    assert(reached.contains(at));
    let i = choose|i: int| positions.contains(i) && home(i) == at;
    assert(has_entry(entries, names[i], values[i]));
    assert(entries[home(i)] == (names[i], values[i]));
    assert(names[i] == entries[at].0);
}

/// What `serde_json` reads of `text` as the parameters of a call: nothing for
/// `null`, the values of a list, the entries of an object, the value itself for
/// anything else; and no parameters at all where `text` is not one JSON value.
pub uninterp spec fn json_params(text: Seq<char>) -> Option<RawParamsView>;

/// Calls `serde_json::from_str` for a `serde_json::Value` and hands on what the
/// value holds, by the variant that it is. The result depends on `text` alone.
#[verifier::external_body]
fn read_params(text: &str) -> (raw: Option<RawParams>)
    ensures
        match raw {
            Some(r) => json_params(text@) == Some(r@),
            None => json_params(text@) is None,
        },
{
    match serde_json::from_str::<serde_json::Value>(text) {
        Err(_) => None,
        Ok(serde_json::Value::Null) => Some(RawParams::Absent),
        Ok(serde_json::Value::Array(items)) => Some(RawParams::Positional(items)),
        Ok(serde_json::Value::Object(entries)) => Some(RawParams::Keyed(entries.into_iter().collect())),
        Ok(serde_json::Value::Bool(flag)) => Some(RawParams::Scalar(serde_json::Value::Bool(flag))),
        Ok(serde_json::Value::Number(number)) => Some(RawParams::Scalar(serde_json::Value::Number(number))),
        Ok(serde_json::Value::String(string)) => Some(RawParams::Scalar(serde_json::Value::String(string))),
    }
}

/// The arguments that the parameters read of `text` make, or why they make
/// none. What is read of a text that is not one JSON value is of no type.
pub open spec fn parsed_params(read: Option<RawParamsView>, names: Seq<Seq<char>>, strict: bool) -> Result<
    TypedArgsView,
    ParamErrorView,
> {
    match read {
        Some(raw) => decoded(raw, names, strict),
        None => Err(
            ParamErrorView::TypeMismatch {
                position: 0,
                name: if names.len() > 0 {
                    names[0]
                } else {
                    Seq::empty()
                },
            },
        ),
    }
}

/// What was read, over `Seq`.
pub open spec fn read_view(read: Option<RawParams>) -> Option<RawParamsView> {
    match read {
        Some(raw) => Some(raw@),
        None => None,
    }
}

/// The arguments of [`parse`] for what was read of the text of the parameters.
pub fn parse_read(read: Option<RawParams>, names: &Vec<String>, strict: bool) -> (args: Result<
    TypedArgs,
    ParamError,
>)
    ensures
        match args {
            Ok(a) => parsed_params(read_view(read), names.deep_view(), strict) == Ok::<
                TypedArgsView,
                ParamErrorView,
            >(a@),
            Err(e) => parsed_params(read_view(read), names.deep_view(), strict) == Err::<
                TypedArgsView,
                ParamErrorView,
            >(e@),
        },
        args matches Ok(a) ==> a@.well_formed(),
{
    match read {
        Some(raw) => decode(raw, names, strict),
        None => Err(ParamError::TypeMismatch { position: 0, name: name_at(names, 0) }),
    }
}

/// Reads the arguments of a method whose arguments are named `names` from the
/// text of the parameters of a call, or from their absence.
pub fn parse(raw_params: Option<&str>, names: &Vec<String>, strict: bool) -> (args: Result<
    TypedArgs,
    ParamError,
>)
    ensures
        match args {
            Ok(a) => parsed_params(params_read(raw_params), names.deep_view(), strict) == Ok::<
                TypedArgsView,
                ParamErrorView,
            >(a@),
            Err(e) => parsed_params(params_read(raw_params), names.deep_view(), strict) == Err::<
                TypedArgsView,
                ParamErrorView,
            >(e@),
        },
        args matches Ok(a) ==> a@.well_formed(),
{
    let read = match raw_params {
        None => Some(RawParams::Absent),
        Some(text) => read_params(text),
    };
    parse_read(read, names, strict)
}

/// What is read of the text of the parameters of a call: no parameters where
/// there is no text.
pub open spec fn params_read(raw_params: Option<&str>) -> Option<RawParamsView> {
    match raw_params {
        None => Some(RawParamsView::Absent),
        Some(text) => json_params(text@),
    }
}

} // verus!
