use crate::text::{join2, text_of};
use vstd::prelude::*;

verus! {

/// The error type of the `url` crate's parser, carried through unread.
#[verifier::external_type_specification]
#[verifier::external_body]
pub struct ExParseError(url::ParseError);

/// The serialization of the URL that `url::Url::parse` reads from `text`, or
/// `None` where the parser rejects `text`.
pub uninterp spec fn url_parsed(text: Seq<char>) -> Option<Seq<char>>;

/// The serialization of the URL that `url::Url::join` resolves `reference` to
/// against the URL read from `base`, or `None` where the reference is rejected.
pub uninterp spec fn url_joined(base: Seq<char>, reference: Seq<char>) -> Option<Seq<char>>;

/// Calls `url::Url::parse` and hands back the parsed URL in its serialized
/// form. The contract only gives the outcome its name, `url_parsed`: the
/// parser is run, not described.
#[verifier::external_body]
fn parse_url(text: &str) -> (r: Result<String, url::ParseError>)
    ensures
        match r {
            Ok(s) => url_parsed(text@) == Some(s@),
            Err(_) => url_parsed(text@) is None,
        },
{
    match url::Url::parse(text) {
        Ok(u) => Ok(String::from(u)),
        Err(e) => Err(e),
    }
}

/// Calls `url::Url::join` on the URL that `base` parses to and hands back the
/// resolved URL in its serialized form. The contract only gives the outcome
/// its name, `url_joined`; a base that does not parse is left out.
#[verifier::external_body]
fn join_url(base: &str, reference: &str) -> (r: Result<String, url::ParseError>)
    requires
        url_parsed(base@) is Some,
    ensures
        match r {
            Ok(s) => url_joined(base@, reference@) == Some(s@),
            Err(_) => url_joined(base@, reference@) is None,
        },
{
    match url::Url::parse(base) {
        Ok(b) => match b.join(reference) {
            Ok(u) => Ok(String::from(u)),
            Err(e) => Err(e),
        },
        Err(e) => Err(e),
    }
}

/// Why no server reference could be built.
#[derive(Clone, Copy, Debug, PartialEq, Eq, Structural)]
pub enum ResolveError {
    /// The text that should name the server is not a URL.
    MalformedUri,
    /// The host did not say where the plugin is installed.
    MissingInstallUri,
}

impl ResolveError {
    /// A line of text for the host's diagnostic channel.
    pub fn message(&self) -> (r: String)
        ensures
            r@ == spec_error_message(*self),
    {
        match self {
            ResolveError::MalformedUri => String::from_str("the server location is not a valid URL"),
            ResolveError::MissingInstallUri => String::from_str(
                "the plugin's installation directory is not known",
            ),
        }
    }
}

/// The diagnostic text of each error.
pub open spec fn spec_error_message(e: ResolveError) -> Seq<char> {
    match e {
        ResolveError::MalformedUri => "the server location is not a valid URL"@,
        ResolveError::MissingInstallUri => "the plugin's installation directory is not known"@,
    }
}

/// A rule that says to which documents a language server applies.
#[derive(Clone, Debug)]
pub struct DocumentFilter {
    pub language: Option<String>,
    pub scheme: Option<String>,
    pub pattern: Option<String>,
}

/// A document filter as plain text.
pub struct DocumentFilterView {
    pub language: Option<Seq<char>>,
    pub scheme: Option<Seq<char>>,
    pub pattern: Option<Seq<char>>,
}

/// A language server as the host is told to start it: where it is, and the
/// documents it serves.
#[derive(Clone, Debug)]
pub struct ServerReference {
    pub uri: String,
    pub filter: DocumentFilter,
}

/// A server reference as plain text.
pub struct ServerReferenceView {
    pub uri: Seq<char>,
    pub filter: DocumentFilterView,
}

impl View for DocumentFilter {
    type V = DocumentFilterView;

    open spec fn view(&self) -> DocumentFilterView {
        DocumentFilterView {
            language: text_of(self.language),
            scheme: text_of(self.scheme),
            pattern: text_of(self.pattern),
        }
    }
}

impl View for ServerReference {
    type V = ServerReferenceView;

    open spec fn view(&self) -> ServerReferenceView {
        ServerReferenceView { uri: self.uri@, filter: self.filter@ }
    }
}

/// The filter for Rust documents: language `rust`, any scheme, any path.
pub open spec fn spec_rust_filter() -> DocumentFilterView {
    DocumentFilterView { language: Some("rust"@), scheme: None, pattern: None }
}

/// The reference to a server at `uri` that serves Rust documents.
pub open spec fn spec_rust_server(uri: Seq<char>) -> ServerReferenceView {
    ServerReferenceView { uri, filter: spec_rust_filter() }
}

/// A URI that the parser accepted, or the error for one that it rejected.
pub open spec fn accepted(uri: Option<Seq<char>>) -> Result<Seq<char>, ResolveError> {
    match uri {
        Some(u) => Ok(u),
        None => Err(ResolveError::MalformedUri),
    }
}

/// The text that names a command found on the search path: `urn:<command>`.
pub open spec fn spec_command_uri_text(command: Seq<char>) -> Seq<char> {
    "urn:"@ + command
}

/// The URI of a server that is started by its command name.
pub open spec fn spec_command_uri(command: Seq<char>) -> Result<Seq<char>, ResolveError> {
    accepted(url_parsed(spec_command_uri_text(command)))
}

/// The URI of a file named `name` in the plugin's installation directory.
pub open spec fn spec_installed_uri(install_uri: Option<Seq<char>>, name: Seq<char>) -> Result<
    Seq<char>,
    ResolveError,
> {
    match install_uri {
        None => Err(ResolveError::MissingInstallUri),
        Some(base) => if url_parsed(base) is Some {
            accepted(url_joined(base, name))
        } else {
            Err(ResolveError::MalformedUri)
        },
    }
}

/// The reference to a server for Rust documents at a URI, where there is one.
pub open spec fn spec_reference(uri: Result<Seq<char>, ResolveError>) -> Result<
    ServerReferenceView,
    ResolveError,
> {
    match uri {
        Ok(u) => Ok(spec_rust_server(u)),
        Err(e) => Err(e),
    }
}

/// An outcome of building a server reference, as plain text.
pub open spec fn reference_view(r: Result<ServerReference, ResolveError>) -> Result<
    ServerReferenceView,
    ResolveError,
> {
    match r {
        Ok(x) => Ok(x@),
        Err(e) => Err(e),
    }
}

/// The filter for Rust documents.
pub fn rust_filter() -> (r: DocumentFilter)
    ensures
        r@ == spec_rust_filter(),
{
    DocumentFilter { language: Some(String::from_str("rust")), scheme: None, pattern: None }
}

/// The text that names a command found on the search path.
pub fn command_uri_text(command: &str) -> (r: String)
    ensures
        r@ == spec_command_uri_text(command@),
{
    join2("urn:", command)
}

/// Turns the outcome of reading a URL into a server reference for Rust
/// documents, or into the library's own error.
pub fn reference_from(parsed: Result<String, url::ParseError>) -> (r: Result<
    ServerReference,
    ResolveError,
>)
    ensures
        match parsed {
            Ok(s) => reference_view(r) == Ok::<ServerReferenceView, ResolveError>(
                spec_rust_server(s@),
            ),
            Err(_) => r == Err::<ServerReference, ResolveError>(ResolveError::MalformedUri),
        },
{
    match parsed {
        Ok(uri) => Ok(ServerReference { uri, filter: rust_filter() }),
        Err(_) => Err(ResolveError::MalformedUri),
    }
}

/// The reference to a server that is started by its command name.
pub fn command_reference(command: &str) -> (r: Result<ServerReference, ResolveError>)
    ensures
        reference_view(r) == spec_reference(spec_command_uri(command@)),
{
    let text = command_uri_text(command);
    reference_from(parse_url(text.as_str()))
}

/// The reference to a server stored as `name` in the plugin's installation
/// directory, which the host may or may not have named.
pub fn installed_reference(install_uri: &Option<String>, name: &str) -> (r: Result<
    ServerReference,
    ResolveError,
>)
    ensures
        reference_view(r) == spec_reference(spec_installed_uri(text_of(*install_uri), name@)),
{
    match install_uri {
        None => Err(ResolveError::MissingInstallUri),
        Some(base) => match parse_url(base.as_str()) {
            Ok(_) => reference_from(join_url(base.as_str(), name)),
            Err(_) => Err(ResolveError::MalformedUri),
        },
    }
}

} // verus!
