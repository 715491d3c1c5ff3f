//! What this library takes from other crates: the types of theirs that its
//! values hold or hand on, and the calls into them.
//!
//! Verus sees nothing inside a value of a declared type: such a value is
//! carried, compared in contracts, and copied. The contracts in this file are
//! believed, not proved; each says in its comment what it claims of the code
//! that it stands for.
use vstd::prelude::*;

verus! {

#[verifier::external_type_specification]
#[verifier::external_body]
pub struct ExSchema(schemars::Schema);

#[verifier::external_type_specification]
#[verifier::external_body]
pub struct ExJsonValue(serde_json::Value);

#[verifier::external_type_specification]
#[verifier::external_body]
#[verifier::reject_recursive_types(Context)]
pub struct ExRpcModule<Context>(jsonrpsee::RpcModule<Context>);

#[verifier::external_type_specification]
#[verifier::external_body]
pub struct ExRegisterMethodError(jsonrpsee::core::RegisterMethodError);

#[verifier::external_type_specification]
#[verifier::external_body]
pub struct ExParams<'a>(jsonrpsee::types::Params<'a>);

#[verifier::external_type_specification]
#[verifier::external_body]
pub struct ExExtensions(jsonrpsee::Extensions);

#[verifier::external_type_specification]
#[verifier::external_body]
pub struct ExErrorObject<'a>(jsonrpsee::types::ErrorObject<'a>);

/// `<schemars::Schema as Clone>::clone` is derived over the one JSON value that a
/// schema wraps: the copy equals the value it was made from.
pub assume_specification[ <schemars::Schema as Clone>::clone ](schema: &schemars::Schema) -> (copy:
    schemars::Schema)
    ensures
        copy == *schema,
;

/// `<serde_json::Value as Clone>::clone` is derived, variant by variant: the copy
/// equals the value it was made from.
pub assume_specification[ <serde_json::Value as Clone>::clone ](value: &serde_json::Value) -> (copy:
    serde_json::Value)
    ensures
        copy == *value,
;

/// What `heck` makes of a name in upper camel case. The name is split into
/// words at every character that is neither a letter nor a digit, before an
/// upper case letter that follows a lower case one, and before the last of
/// several upper case letters where a lower case letter follows it. Each word is
/// written with its first letter in upper case and the rest in lower case, and
/// the words are written together.
pub uninterp spec fn upper_camel_case(name: Seq<char>) -> Seq<char>;

/// Calls `heck::AsUpperCamelCase` on `name` and collects what it displays. The
/// conversion reads nothing but `name`, so its result is named after `name`
/// alone.
#[verifier::external_body]
pub(crate) fn to_upper_camel_case(name: &str) -> (converted: String)
    ensures
        converted@ == upper_camel_case(name@),
{
    heck::AsUpperCamelCase(name).to_string()
}

/// Calls `std::sync::Arc::clone`: one more handle to the value that `handle`
/// points to.
#[verifier::external_body]
pub(crate) fn share<Context>(handle: &std::sync::Arc<Context>) -> (shared: std::sync::Arc<Context>)
    ensures
        *shared == **handle,
{
    std::sync::Arc::clone(handle)
}

/// The transport module of jsonrpsee, beside the names of the methods that it
/// holds. The module is a collection of callbacks keyed by name; nothing else of
/// it is seen here. Only the three functions below make or change one, so that
/// the names stand for what the module holds.
#[verifier::reject_recursive_types(Context)]
pub struct Transport<Context> {
    module: jsonrpsee::RpcModule<Context>,
    names: Ghost<Set<Seq<char>>>,
}

impl<Context> Transport<Context> {
    /// The names of the methods that the module holds.
    pub closed spec fn names(&self) -> Set<Seq<char>> {
        self.names@
    }

    /// The module itself.
    pub closed spec fn module(&self) -> jsonrpsee::RpcModule<Context> {
        self.module
    }

    /// Calls `jsonrpsee::RpcModule::from_arc`, which makes a module over
    /// `context` with an empty collection of methods: it holds no name.
    #[verifier::external_body]
    pub(crate) fn over(context: std::sync::Arc<Context>) -> (transport: Self)
        ensures
            transport.names() == Set::<Seq<char>>::empty(),
    {
        Transport { module: jsonrpsee::RpcModule::from_arc(context), names: Ghost(Set::empty()) }
    }

    /// Hands out the module.
    pub(crate) fn into_module(self) -> (module: jsonrpsee::RpcModule<Context>)
        ensures
            module == self.module(),
    {
        self.module
    }
}

impl<Context: Send + Sync + 'static> Transport<Context> {
    /// Calls `jsonrpsee::RpcModule::register_method` and drops the reference
    /// that it returns on success. The module looks the name up among those
    /// that it holds: where it holds the name already it answers with an error
    /// and is left as it was, and in every other case it takes the callback
    /// under the name.
    #[verifier::external_body]
    pub(crate) fn register_method<R, F>(&mut self, method_name: &'static str, callback: F) -> (outcome: Result<
        (),
        jsonrpsee::core::RegisterMethodError,
    >) where
        R: jsonrpsee::IntoResponse + 'static,
        F: Fn(jsonrpsee::types::Params, &Context, &jsonrpsee::Extensions) -> R + Send + Sync + 'static,

        ensures
            outcome is Ok <==> !old(self).names().contains(method_name@),
            final(self).names() == if outcome is Ok {
                old(self).names().insert(method_name@)
            } else {
                old(self).names()
            },
    {
        self.module.register_method(method_name, callback).map(|_| ())
    }

    /// Calls `jsonrpsee::RpcModule::register_async_method` and drops the
    /// reference that it returns on success. The module treats the name as
    /// [`Transport::register_method`] says.
    #[verifier::external_body]
    pub(crate) fn register_async_method<R, Fun, Fut>(&mut self, method_name: &'static str, callback: Fun) -> (outcome:
        Result<(), jsonrpsee::core::RegisterMethodError>) where
        R: jsonrpsee::IntoResponse + 'static,
        Fut: std::future::Future<Output = R> + Send,
        Fun: (Fn(jsonrpsee::types::Params<'static>, std::sync::Arc<Context>, jsonrpsee::Extensions) -> Fut)
            + Clone + Send + Sync + 'static,

        ensures
            outcome is Ok <==> !old(self).names().contains(method_name@),
            final(self).names() == if outcome is Ok {
                old(self).names().insert(method_name@)
            } else {
                old(self).names()
            },
    {
        self.module.register_async_method(method_name, callback).map(|_| ())
    }
}

} // verus!
