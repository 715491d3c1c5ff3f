//! The model of an OpenRPC document.
//!
//! A value of [`OpenRpcSpec`] stands for a whole document. How it is stored or
//! written out is not this module's business.
use std::collections::HashMap;
use vstd::prelude::*;
use vstd::string::StringExecFns;

verus! {

/// The version of the OpenRPC format that documents of this library follow.
pub open spec fn openrpc_version() -> Seq<char> {
    "1.3.2"@
}

/// The root object of an OpenRPC document, format version **1.3.2**.
#[derive(Debug, Clone)]
pub struct OpenRpcSpec {
    /// REQUIRED. The semantic version number of the OpenRPC format that the
    /// document uses. This is not related to the API `info.version`.
    pub openrpc: String,
    /// REQUIRED. Provides metadata about the API.
    pub info: Info,
    /// An array of Server Objects, which provide connectivity information to a
    /// target server.
    pub servers: Option<Vec<Server>>,
    /// REQUIRED. The available methods for the API. The array may be empty.
    pub methods: Vec<Method>,
    /// An element to hold various schemas for the document.
    pub components: Option<Components>,
    /// Additional external documentation.
    pub external_docs: Option<ExternalDocumentation>,
}

/// Provides metadata about the API.
#[derive(Debug, Clone)]
pub struct Info {
    /// REQUIRED. The title of the application.
    pub title: String,
    /// A verbose description of the application. Markdown syntax MAY be used.
    pub description: Option<String>,
    /// A URL to the Terms of Service for the API.
    pub terms_of_service: Option<String>,
    /// The contact information for the exposed API.
    pub contact: Option<Contact>,
    /// The license information for the exposed API.
    pub license: Option<License>,
    /// REQUIRED. The version of the OpenRPC document (distinct from the format
    /// version and from the version of the API implementation).
    pub version: String,
}

/// Contact information for the exposed API.
#[derive(Debug, Clone)]
pub struct Contact {
    /// The identifying name of the contact person/organization.
    pub name: Option<String>,
    /// The URL pointing to the contact information.
    pub url: Option<String>,
    /// The email address of the contact person/organization.
    pub email: Option<String>,
}

/// License information for the exposed API.
#[derive(Debug, Clone)]
pub struct License {
    /// REQUIRED. The license name used for the API.
    pub name: String,
    /// A URL to the license used for the API.
    pub url: Option<String>,
}

/// An object representing a Server.
#[derive(Debug)]
pub struct Server {
    /// REQUIRED. A name to be used as the canonical name for the server.
    pub name: String,
    /// REQUIRED. A URL to the target host. May contain Server Variables and MAY
    /// be relative.
    pub url: String,
    /// A short summary of what the server is.
    pub summary: Option<String>,
    /// An optional string describing the host designated by the URL.
    pub description: Option<String>,
    /// A map between a variable name and its value for URL template substitution.
    pub variables: Option<HashMap<String, ServerVariable>>,
}

/// An object representing a Server Variable for server URL template substitution.
#[derive(Debug, Clone)]
pub struct ServerVariable {
    /// An enumeration of string values to be used if the substitution options
    /// are from a limited set.
    pub enumeration: Option<Vec<String>>,
    /// REQUIRED. The default value to use for substitution if an alternate value
    /// is not supplied.
    pub default: String,
    /// An optional description for the server variable.
    pub description: Option<String>,
}

/// Describes the interface for a given method name.
/// The method name is used as the `method` field of the JSON-RPC body.
#[derive(Debug)]
pub struct Method {
    /// REQUIRED. The canonical name for the method. Must be unique.
    pub name: String,
    /// A list of tags for API documentation control.
    pub tags: Option<Vec<Tag>>,
    /// A short summary of what the method does.
    pub summary: Option<String>,
    /// A verbose explanation of the method behavior.
    pub description: Option<String>,
    /// Additional external documentation for this method.
    pub external_docs: Option<ExternalDocumentation>,
    /// REQUIRED. A list of parameters applicable for this method.
    pub params: Vec<ContentDescriptor>,
    /// The description of the result returned by the method.
    pub result: Option<ContentDescriptor>,
    /// Declares this method to be deprecated. Default is false.
    pub deprecated: Option<bool>,
    /// An alternative servers array to service this method.
    pub servers: Option<Vec<Server>>,
    /// A list of custom application-defined errors that MAY be returned.
    pub errors: Option<Vec<Error>>,
    /// A list of possible links from this method call.
    pub links: Option<Vec<Link>>,
    /// The expected format of the parameters. Defaults to "either".
    pub param_structure: Option<String>,
    /// Example params-to-result pairings.
    pub examples: Option<Vec<ExamplePairing>>,
}

/// Describes content for parameters or results. Must have a schema.
#[derive(Debug)]
pub struct ContentDescriptor {
    /// REQUIRED. Name of the content (also used as param key when by-name).
    pub name: String,
    /// A short summary of the content.
    pub summary: Option<String>,
    /// A verbose explanation of the content descriptor behavior.
    pub description: Option<String>,
    /// Determines if the content is required. Default = false.
    pub required: Option<bool>,
    /// REQUIRED. Schema that describes the content.
    pub schema: schemars::Schema,
    /// Specifies that the content is deprecated.
    pub deprecated: Option<bool>,
}

/// An example object intended to match the schema of a given Content Descriptor.
#[derive(Debug)]
pub struct Example {
    pub name: Option<String>,
    pub summary: Option<String>,
    pub description: Option<String>,
    pub value: Option<serde_json::Value>,
    pub external_value: Option<String>,
}

/// An example pairing of params and results.
#[derive(Debug)]
pub struct ExamplePairing {
    pub name: String,
    pub description: Option<String>,
    pub summary: Option<String>,
    pub params: Vec<Example>,
    pub result: Option<Example>,
}

/// Represents a possible design-time link for a result.
#[derive(Debug)]
pub struct Link {
    pub name: String,
    pub description: Option<String>,
    pub summary: Option<String>,
    pub method: String,
    pub params: Option<HashMap<String, serde_json::Value>>,
    pub server: Option<Server>,
}

/// Defines an application level error.
#[derive(Debug)]
pub struct Error {
    pub code: i32,
    pub message: String,
    pub data: Option<serde_json::Value>,
}

/// Holds a set of reusable objects.
#[derive(Debug, Clone)]
pub struct Components {
    pub content_descriptors: Option<HashMap<String, ContentDescriptor>>,
    pub schemas: Option<HashMap<String, schemars::Schema>>,
    pub examples: Option<HashMap<String, Example>>,
    pub links: Option<HashMap<String, Link>>,
    pub errors: Option<HashMap<String, Error>>,
    pub example_pairing_objects: Option<HashMap<String, ExamplePairing>>,
    pub tags: Option<HashMap<String, Tag>>,
}

/// Metadata for a tag.
#[derive(Debug)]
pub struct Tag {
    pub name: String,
    pub summary: Option<String>,
    pub description: Option<String>,
    pub external_docs: Option<ExternalDocumentation>,
}

/// Allows referencing an external resource for extended documentation.
#[derive(Debug)]
pub struct ExternalDocumentation {
    pub description: Option<String>,
    pub url: String,
}

/// A content descriptor over `Seq`: what contracts say of a [`ContentDescriptor`].
pub struct ContentDescriptorView {
    pub name: Seq<char>,
    pub summary: Option<Seq<char>>,
    pub description: Option<Seq<char>>,
    pub required: Option<bool>,
    pub schema: schemars::Schema,
    pub deprecated: Option<bool>,
}

impl DeepView for ContentDescriptor {
    type V = ContentDescriptorView;

    open spec fn deep_view(&self) -> ContentDescriptorView {
        ContentDescriptorView {
            name: self.name@,
            summary: self.summary.deep_view(),
            description: self.description.deep_view(),
            required: self.required,
            schema: self.schema,
            deprecated: self.deprecated,
        }
    }
}

/// External documentation over `Seq`.
pub struct ExternalDocumentationView {
    pub description: Option<Seq<char>>,
    pub url: Seq<char>,
}

impl DeepView for ExternalDocumentation {
    type V = ExternalDocumentationView;

    open spec fn deep_view(&self) -> ExternalDocumentationView {
        ExternalDocumentationView { description: self.description.deep_view(), url: self.url@ }
    }
}

/// A tag over `Seq`.
pub struct TagView {
    pub name: Seq<char>,
    pub summary: Option<Seq<char>>,
    pub description: Option<Seq<char>>,
    pub external_docs: Option<ExternalDocumentationView>,
}

impl DeepView for Tag {
    type V = TagView;

    open spec fn deep_view(&self) -> TagView {
        TagView {
            name: self.name@,
            summary: self.summary.deep_view(),
            description: self.description.deep_view(),
            external_docs: self.external_docs.deep_view(),
        }
    }
}

/// What a map holds, where there is one.
pub open spec fn entries_of<V>(map: Option<HashMap<String, V>>) -> Option<Map<String, V>> {
    match map {
        Some(entries) => Some(entries@),
        None => None,
    }
}

/// A server over `Seq` and `Map`.
pub struct ServerView {
    pub name: Seq<char>,
    pub url: Seq<char>,
    pub summary: Option<Seq<char>>,
    pub description: Option<Seq<char>>,
    pub variables: Option<Map<String, ServerVariable>>,
}

impl DeepView for Server {
    type V = ServerView;

    open spec fn deep_view(&self) -> ServerView {
        ServerView {
            name: self.name@,
            url: self.url@,
            summary: self.summary.deep_view(),
            description: self.description.deep_view(),
            variables: entries_of(self.variables),
        }
    }
}

/// An application level error over `Seq`.
pub struct ErrorView {
    pub code: i32,
    pub message: Seq<char>,
    pub data: Option<serde_json::Value>,
}

impl DeepView for Error {
    type V = ErrorView;

    open spec fn deep_view(&self) -> ErrorView {
        ErrorView { code: self.code, message: self.message@, data: self.data }
    }
}

/// An example over `Seq`.
pub struct ExampleView {
    pub name: Option<Seq<char>>,
    pub summary: Option<Seq<char>>,
    pub description: Option<Seq<char>>,
    pub value: Option<serde_json::Value>,
    pub external_value: Option<Seq<char>>,
}

impl DeepView for Example {
    type V = ExampleView;

    open spec fn deep_view(&self) -> ExampleView {
        ExampleView {
            name: self.name.deep_view(),
            summary: self.summary.deep_view(),
            description: self.description.deep_view(),
            value: self.value,
            external_value: self.external_value.deep_view(),
        }
    }
}

/// An example pairing over `Seq`.
pub struct ExamplePairingView {
    pub name: Seq<char>,
    pub description: Option<Seq<char>>,
    pub summary: Option<Seq<char>>,
    pub params: Seq<ExampleView>,
    pub result: Option<ExampleView>,
}

impl DeepView for ExamplePairing {
    type V = ExamplePairingView;

    open spec fn deep_view(&self) -> ExamplePairingView {
        ExamplePairingView {
            name: self.name@,
            description: self.description.deep_view(),
            summary: self.summary.deep_view(),
            params: self.params.deep_view(),
            result: self.result.deep_view(),
        }
    }
}

/// A link over `Seq` and `Map`.
pub struct LinkView {
    pub name: Seq<char>,
    pub description: Option<Seq<char>>,
    pub summary: Option<Seq<char>>,
    pub method: Seq<char>,
    pub params: Option<Map<String, serde_json::Value>>,
    pub server: Option<ServerView>,
}

impl DeepView for Link {
    type V = LinkView;

    open spec fn deep_view(&self) -> LinkView {
        LinkView {
            name: self.name@,
            description: self.description.deep_view(),
            summary: self.summary.deep_view(),
            method: self.method@,
            params: entries_of(self.params),
            server: self.server.deep_view(),
        }
    }
}

/// The description of a method over `Seq` and `Map`: what contracts say of a
/// [`Method`].
pub struct MethodView {
    pub name: Seq<char>,
    pub tags: Option<Seq<TagView>>,
    pub summary: Option<Seq<char>>,
    pub description: Option<Seq<char>>,
    pub external_docs: Option<ExternalDocumentationView>,
    pub params: Seq<ContentDescriptorView>,
    pub result: Option<ContentDescriptorView>,
    pub deprecated: Option<bool>,
    pub servers: Option<Seq<ServerView>>,
    pub errors: Option<Seq<ErrorView>>,
    pub links: Option<Seq<LinkView>>,
    pub param_structure: Option<Seq<char>>,
    pub examples: Option<Seq<ExamplePairingView>>,
}

impl DeepView for Method {
    type V = MethodView;

    open spec fn deep_view(&self) -> MethodView {
        MethodView {
            name: self.name@,
            tags: self.tags.deep_view(),
            summary: self.summary.deep_view(),
            description: self.description.deep_view(),
            external_docs: self.external_docs.deep_view(),
            params: self.params.deep_view(),
            result: self.result.deep_view(),
            deprecated: self.deprecated,
            servers: self.servers.deep_view(),
            errors: self.errors.deep_view(),
            links: self.links.deep_view(),
            param_structure: self.param_structure.deep_view(),
            examples: self.examples.deep_view(),
        }
    }
}

impl Clone for ExternalDocumentation {
    /// A copy that says what this documentation says.
    fn clone(&self) -> (copy: ExternalDocumentation)
        ensures
            copy.deep_view() == self.deep_view(),
    {
        ExternalDocumentation { description: self.description.clone(), url: self.url.clone() }
    }
}

impl Clone for Tag {
    /// A copy that says what this tag says.
    fn clone(&self) -> (copy: Tag)
        ensures
            copy.deep_view() == self.deep_view(),
    {
        Tag {
            name: self.name.clone(),
            summary: self.summary.clone(),
            description: self.description.clone(),
            external_docs: self.external_docs.clone(),
        }
    }
}

impl Clone for Server {
    /// A copy that says what this server says.
    fn clone(&self) -> (copy: Server)
        ensures
            copy.deep_view() == self.deep_view(),
    {
        Server {
            name: self.name.clone(),
            url: self.url.clone(),
            summary: self.summary.clone(),
            description: self.description.clone(),
            variables: self.variables.clone(),
        }
    }
}

impl Clone for Error {
    /// A copy that says what this error says.
    fn clone(&self) -> (copy: Error)
        ensures
            copy.deep_view() == self.deep_view(),
    {
        Error { code: self.code, message: self.message.clone(), data: self.data.clone() }
    }
}

impl Clone for Example {
    /// A copy that says what this example says.
    fn clone(&self) -> (copy: Example)
        ensures
            copy.deep_view() == self.deep_view(),
    {
        Example {
            name: self.name.clone(),
            summary: self.summary.clone(),
            description: self.description.clone(),
            value: self.value.clone(),
            external_value: self.external_value.clone(),
        }
    }
}

impl Clone for ExamplePairing {
    /// A copy that says what this pairing says.
    fn clone(&self) -> (copy: ExamplePairing)
        ensures
            copy.deep_view() == self.deep_view(),
    {
        let params = self.params.clone();
        assert(params.deep_view() =~= self.params.deep_view());
        ExamplePairing {
            name: self.name.clone(),
            description: self.description.clone(),
            summary: self.summary.clone(),
            params,
            result: self.result.clone(),
        }
    }
}

impl Clone for Link {
    /// A copy that says what this link says.
    fn clone(&self) -> (copy: Link)
        ensures
            copy.deep_view() == self.deep_view(),
    {
        Link {
            name: self.name.clone(),
            description: self.description.clone(),
            summary: self.summary.clone(),
            method: self.method.clone(),
            params: self.params.clone(),
            server: self.server.clone(),
        }
    }
}

impl Clone for ContentDescriptor {
    /// A copy that says what this descriptor says.
    fn clone(&self) -> (copy: ContentDescriptor)
        ensures
            copy.deep_view() == self.deep_view(),
    {
        ContentDescriptor {
            name: self.name.clone(),
            summary: self.summary.clone(),
            description: self.description.clone(),
            required: self.required,
            schema: self.schema.clone(),
            deprecated: self.deprecated,
        }
    }
}

/// A copy of `list`, where there is one, that says what `list` says.
fn clone_list<T: Clone + DeepView>(list: &Option<Vec<T>>) -> (copy: Option<Vec<T>>)
    requires
        forall|own: T, other: T| call_ensures(T::clone, (&own,), other) ==> other.deep_view() == own.deep_view(),
    ensures
        copy.deep_view() == list.deep_view(),
{
    match list {
        Some(items) => {
            let copies = items.clone();
            assert(copies.deep_view() =~= items.deep_view());
            Some(copies)
        },
        None => None,
    }
}

impl Clone for Method {
    /// A copy that says what this description says.
    fn clone(&self) -> (copy: Method)
        ensures
            copy.deep_view() == self.deep_view(),
    {
        let params = self.params.clone();
        assert(params.deep_view() =~= self.params.deep_view());
        Method {
            name: self.name.clone(),
            tags: clone_list(&self.tags),
            summary: self.summary.clone(),
            description: self.description.clone(),
            external_docs: self.external_docs.clone(),
            params,
            result: self.result.clone(),
            deprecated: self.deprecated,
            servers: clone_list(&self.servers),
            errors: clone_list(&self.errors),
            links: clone_list(&self.links),
            param_structure: self.param_structure.clone(),
            examples: clone_list(&self.examples),
        }
    }
}

impl Info {
    /// Metadata with the two required fields set and every optional one absent.
    pub fn new(title: String, version: String) -> (info: Info)
        ensures
            info.title == title,
            info.version == version,
            info.description is None,
            info.terms_of_service is None,
            info.contact is None,
            info.license is None,
    {
        Info {
            title,
            description: None,
            terms_of_service: None,
            contact: None,
            license: None,
            version,
        }
    }
}

impl OpenRpcSpec {
    /// An empty document about `info`: no method, no server, no component and
    /// no external documentation.
    pub fn new(info: Info) -> (document: OpenRpcSpec)
        ensures
            document.openrpc@ == openrpc_version(),
            document.info == info,
            document.servers is None,
            document.methods@.len() == 0,
            document.components is None,
            document.external_docs is None,
    {
        OpenRpcSpec {
            openrpc: String::from_str("1.3.2"),
            info,
            servers: None,
            methods: Vec::new(),
            components: None,
            external_docs: None,
        }
    }
}

impl Contact {
    /// Contact information with every field absent.
    pub fn new() -> (contact: Contact)
        ensures
            contact.name is None,
            contact.url is None,
            contact.email is None,
    {
        Contact { name: None, url: None, email: None }
    }
}

impl License {
    /// The license named `name`, without a URL.
    pub fn new(name: String) -> (license: License)
        ensures
            license.name == name,
            license.url is None,
    {
        License { name, url: None }
    }
}

impl Server {
    /// The server named `name` at `url`, with every optional field absent.
    pub fn new(name: String, url: String) -> (server: Server)
        ensures
            server.name == name,
            server.url == url,
            server.summary is None,
            server.description is None,
            server.variables is None,
    {
        Server { name, url, summary: None, description: None, variables: None }
    }
}

impl ServerVariable {
    /// A variable that stands for `default` where nothing else is supplied.
    pub fn new(default: String) -> (variable: ServerVariable)
        ensures
            variable.default == default,
            variable.enumeration is None,
            variable.description is None,
    {
        ServerVariable { enumeration: None, default, description: None }
    }
}

impl Method {
    /// The method named `name` with the parameters `params`, and every optional
    /// field absent.
    pub fn new(name: String, params: Vec<ContentDescriptor>) -> (method: Method)
        ensures
            method.name == name,
            method.params == params,
            method.tags is None,
            method.summary is None,
            method.description is None,
            method.external_docs is None,
            method.result is None,
            method.deprecated is None,
            method.servers is None,
            method.errors is None,
            method.links is None,
            method.param_structure is None,
            method.examples is None,
    {
        Method {
            name,
            tags: None,
            summary: None,
            description: None,
            external_docs: None,
            params,
            result: None,
            deprecated: None,
            servers: None,
            errors: None,
            links: None,
            param_structure: None,
            examples: None,
        }
    }
}

impl ContentDescriptor {
    /// The content named `name` that `schema` describes, with every optional
    /// field absent.
    pub fn new(name: String, schema: schemars::Schema) -> (content: ContentDescriptor)
        ensures
            content.name == name,
            content.schema == schema,
            content.summary is None,
            content.description is None,
            content.required is None,
            content.deprecated is None,
    {
        ContentDescriptor { name, summary: None, description: None, required: None, schema, deprecated: None }
    }
}

impl Example {
    /// An example with every field absent.
    pub fn new() -> (example: Example)
        ensures
            example.name is None,
            example.summary is None,
            example.description is None,
            example.value is None,
            example.external_value is None,
    {
        Example { name: None, summary: None, description: None, value: None, external_value: None }
    }
}

impl ExamplePairing {
    /// The pairing named `name` of the parameters `params`, without a result.
    pub fn new(name: String, params: Vec<Example>) -> (pairing: ExamplePairing)
        ensures
            pairing.name == name,
            pairing.params == params,
            pairing.description is None,
            pairing.summary is None,
            pairing.result is None,
    {
        ExamplePairing { name, description: None, summary: None, params, result: None }
    }
}

impl Link {
    /// The link named `name` to the method `method`, with every optional field
    /// absent.
    pub fn new(name: String, method: String) -> (link: Link)
        ensures
            link.name == name,
            link.method == method,
            link.description is None,
            link.summary is None,
            link.params is None,
            link.server is None,
    {
        Link { name, description: None, summary: None, method, params: None, server: None }
    }
}

impl Error {
    /// The error with the code `code` and the message `message`, without data.
    pub fn new(code: i32, message: String) -> (error: Error)
        ensures
            error.code == code,
            error.message == message,
            error.data is None,
    {
        Error { code, message, data: None }
    }
}

impl Components {
    /// No reusable object of any kind.
    pub fn new() -> (components: Components)
        ensures
            components.content_descriptors is None,
            components.schemas is None,
            components.examples is None,
            components.links is None,
            components.errors is None,
            components.example_pairing_objects is None,
            components.tags is None,
    {
        Components {
            content_descriptors: None,
            schemas: None,
            examples: None,
            links: None,
            errors: None,
            example_pairing_objects: None,
            tags: None,
        }
    }
}

impl Tag {
    /// The tag named `name`, with every optional field absent.
    pub fn new(name: String) -> (tag: Tag)
        ensures
            tag.name == name,
            tag.summary is None,
            tag.description is None,
            tag.external_docs is None,
    {
        Tag { name, summary: None, description: None, external_docs: None }
    }
}

impl ExternalDocumentation {
    /// The documentation at `url`, without a description.
    pub fn new(url: String) -> (docs: ExternalDocumentation)
        ensures
            docs.url == url,
            docs.description is None,
    {
        ExternalDocumentation { description: None, url }
    }
}

} // verus!
