use lapce_rust::uri::{
    command_reference, command_uri_text, installed_reference, reference_from, rust_filter,
    ResolveError,
};

#[test]
fn rust_filter_names_the_language_only() {
    let f = rust_filter();
    assert_eq!(f.language, Some("rust".to_string()));
    assert_eq!(f.scheme, None);
    assert_eq!(f.pattern, None);
}

#[test]
fn command_text_is_a_urn() {
    assert_eq!(command_uri_text("rust-analyzer"), "urn:rust-analyzer");
    assert_eq!(command_uri_text("/usr/local/bin/ra"), "urn:/usr/local/bin/ra");
    assert_eq!(command_uri_text(""), "urn:");
}

#[test]
fn command_reference_is_the_parsed_urn() {
    let r = command_reference("rust-analyzer").unwrap();
    assert_eq!(r.uri, "urn:rust-analyzer");
    assert_eq!(r.uri, url::Url::parse("urn:rust-analyzer").unwrap().as_str());
    assert_eq!(r.filter.language, Some("rust".to_string()));
    assert_eq!(r.filter.scheme, None);
    assert_eq!(r.filter.pattern, None);
}

#[test]
fn command_reference_is_what_the_parser_reads() {
    let r = command_reference("ra\n").unwrap();
    assert_eq!(r.uri, "urn:ra");
    assert_ne!(r.uri, command_uri_text("ra\n"));
    assert_eq!(r.uri, url::Url::parse("urn:ra\n").unwrap().as_str());
}

#[test]
fn installed_reference_is_what_the_parser_reads() {
    let base = Some("FILE:///plugins/rust/".to_string());
    let r = installed_reference(&base, "a/../rust-analyzer-x86_64-unknown-linux-gnu").unwrap();
    assert_eq!(r.uri, "file:///plugins/rust/rust-analyzer-x86_64-unknown-linux-gnu");
}

#[test]
fn command_reference_keeps_a_path() {
    let r = command_reference("/home/me/.cargo/bin/rust-analyzer").unwrap();
    assert_eq!(r.uri, "urn:/home/me/.cargo/bin/rust-analyzer");
}

#[test]
fn installed_reference_joins_the_name_to_the_directory() {
    let base = Some("file:///home/me/.lapce/plugins/rust/".to_string());
    let r = installed_reference(&base, "rust-analyzer-x86_64-unknown-linux-gnu").unwrap();
    assert_eq!(
        r.uri,
        "file:///home/me/.lapce/plugins/rust/rust-analyzer-x86_64-unknown-linux-gnu"
    );
    assert_eq!(r.filter.language, Some("rust".to_string()));
}

#[test]
fn installed_reference_replaces_the_last_segment() {
    let base = Some("file:///plugins/rust/volt.toml".to_string());
    let r = installed_reference(&base, "rust-analyzer-aarch64-apple-darwin").unwrap();
    assert_eq!(r.uri, "file:///plugins/rust/rust-analyzer-aarch64-apple-darwin");
}

#[test]
fn installed_reference_needs_the_directory() {
    let r = installed_reference(&None, "rust-analyzer-x86_64-unknown-linux-gnu");
    assert_eq!(r.err(), Some(ResolveError::MissingInstallUri));
}

#[test]
fn installed_reference_refuses_a_directory_that_is_no_uri() {
    let base = Some("plugins/rust".to_string());
    let r = installed_reference(&base, "rust-analyzer-x86_64-unknown-linux-gnu");
    assert_eq!(r.err(), Some(ResolveError::MalformedUri));
}

#[test]
fn installed_reference_refuses_a_base_that_cannot_be_joined() {
    let base = Some("urn:plugins".to_string());
    let r = installed_reference(&base, "rust-analyzer-x86_64-unknown-linux-gnu");
    assert_eq!(r.err(), Some(ResolveError::MalformedUri));
}

#[test]
fn reference_from_an_accepted_uri() {
    let r = reference_from(Ok("urn:ra".to_string())).unwrap();
    assert_eq!(r.uri, "urn:ra");
    assert_eq!(r.filter.language, Some("rust".to_string()));
    assert_eq!(r.filter.scheme, None);
    assert_eq!(r.filter.pattern, None);
}

#[test]
fn reference_from_a_rejected_uri() {
    let r = reference_from(Err(url::ParseError::RelativeUrlWithoutBase));
    assert_eq!(r.err(), Some(ResolveError::MalformedUri));
    let r = reference_from(Err(url::ParseError::EmptyHost));
    assert_eq!(r.err(), Some(ResolveError::MalformedUri));
}

#[test]
fn errors_have_their_messages() {
    assert_eq!(ResolveError::MalformedUri.message(), "the server location is not a valid URL");
    assert_eq!(
        ResolveError::MissingInstallUri.message(),
        "the plugin's installation directory is not known"
    );
}
