use crate::target::{default_command, spec_default_command, spec_parse_target, Target};
use crate::text::text_of;
use vstd::prelude::*;

verus! {

/// A JSON value of `serde_json`, carried through unread.
#[verifier::external_type_specification]
#[verifier::external_body]
pub struct ExValue(serde_json::Value);

/// What a JSON value holds as text: for an object, its members whose values
/// are strings, by key; for any other value, nothing.
pub uninterp spec fn json_string_members(v: serde_json::Value) -> Map<Seq<char>, Seq<char>>;

/// Calls `serde_json::Value::get` with a string key and `Value::as_str` on
/// what it finds. The contract claims that the text comes back exactly where
/// the value is an object with a string under `key`, and nothing otherwise.
#[verifier::external_body]
fn string_member(v: &serde_json::Value, key: &str) -> (r: Option<String>)
    ensures
        match r {
            Some(s) => json_string_members(*v).contains_key(key@) && json_string_members(*v)[key@]
                == s@,
            None => !json_string_members(*v).contains_key(key@),
        },
{
    match v.get(key) {
        Some(m) => match m.as_str() {
            Some(s) => Some(s.to_string()),
            None => None,
        },
        None => None,
    }
}

/// What the editor hands a plugin for one language: the language's
/// identifier and the options that the user set for it.
#[derive(Debug, Clone)]
pub struct Configuration {
    pub language_id: String,
    pub options: Option<serde_json::Value>,
}

/// What the host tells a plugin about where it runs, with its configuration.
#[derive(Debug, Clone)]
pub struct PluginInfo {
    pub arch: String,
    pub os: String,
    pub configuration: Configuration,
}

/// A setting counts only where it is present and not empty.
pub open spec fn spec_non_empty(found: Option<Seq<char>>) -> Option<Seq<char>> {
    match found {
        Some(t) => if t.len() > 0 {
            Some(t)
        } else {
            None
        },
        None => None,
    }
}

/// The string stored under `key` in the options, if there is one.
pub open spec fn spec_string_option(options: Option<serde_json::Value>, key: Seq<char>) -> Option<
    Seq<char>,
> {
    match options {
        Some(v) => if json_string_members(v).contains_key(key) {
            Some(json_string_members(v)[key])
        } else {
            None
        },
        None => None,
    }
}

/// The server path that the options set: the string under `serverPath`,
/// unless it is missing or empty.
pub open spec fn spec_server_path(options: Option<serde_json::Value>) -> Option<Seq<char>> {
    spec_non_empty(spec_string_option(options, "serverPath"@))
}

/// Keeps a setting that was found only where it is not empty.
pub fn non_empty(found: Option<String>) -> (r: Option<String>)
    ensures
        text_of(r) == spec_non_empty(text_of(found)),
{
    match found {
        Some(t) => {
            if t.as_str().is_empty() {
                None
            } else {
                Some(t)
            }
        },
        None => None,
    }
}

impl Configuration {
    /// The configuration of a language with the options set for it.
    pub fn new(language_id: String, options: Option<serde_json::Value>) -> (r: Configuration)
        ensures
            r.language_id == language_id,
            r.options == options,
    {
        Configuration { language_id, options }
    }

    /// The server path that the user configured, if any: the string option
    /// `serverPath`, unless it is empty.
    pub fn server_path(&self) -> (r: Option<String>)
        ensures
            text_of(r) == spec_server_path(self.options),
    {
        match &self.options {
            Some(v) => non_empty(string_member(v, "serverPath")),
            None => None,
        }
    }
}

impl PluginInfo {
    /// What the host reports: its architecture and system identifiers, and
    /// the configuration.
    pub fn new(arch: String, os: String, configuration: Configuration) -> (r: PluginInfo)
        ensures
            r.arch == arch,
            r.os == os,
            r.configuration == configuration,
    {
        PluginInfo { arch, os, configuration }
    }

    /// The release target of the host, where its identifiers are known ones.
    pub fn target(&self) -> (r: Option<Target>)
        ensures
            r == spec_parse_target(self.arch@, self.os@),
    {
        Target::from_host(self.arch.as_str(), self.os.as_str())
    }

    /// The command looked up on the search path when none is configured.
    pub fn default_command(&self) -> (r: String)
        ensures
            r@ == spec_default_command(self.os@),
    {
        default_command(self.os.as_str())
    }
}

} // verus!
