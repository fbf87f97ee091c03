use crate::archive::{extract_server, spec_extract_server};
use crate::config::{spec_server_path, Configuration, PluginInfo};
use crate::target::{
    spec_archive_kind, spec_archive_name, spec_binary_name, spec_default_command,
    spec_download_url, spec_parse_target, Target,
};
use crate::text::text_of;
use crate::uri::{
    command_reference, installed_reference, reference_view, spec_command_uri, spec_installed_uri,
    spec_reference, ResolveError, ServerReference, ServerReferenceView,
};
use vstd::prelude::*;

verus! {

/// How loudly a message is shown to the user.
#[derive(Clone, Copy, Debug, PartialEq, Eq, Structural)]
pub enum Severity {
    Error,
    Warning,
}

/// Where the search for a server stands.
#[derive(Clone, Copy, Debug, PartialEq, Eq, Structural)]
pub enum Stage {
    /// Nothing has happened yet.
    Start,
    /// The default command is being tried on the search path.
    Probing,
    /// The plugin's directory is being searched for a stored executable.
    Checking,
    /// The release archive is being fetched.
    Fetching,
    /// The fetched archive is being written to disk.
    StoringArchive,
    /// The executable taken out of the archive is being written to disk.
    StoringBinary,
    /// The archive is being deleted.
    RemovingArchive,
    /// The host has been told the outcome.
    Finished,
}

/// What the outside world reports back.
#[derive(Debug)]
pub enum Event {
    /// The host asks the plugin to initialize.
    Initialize,
    /// Whether the probed command could be run.
    Probed { runnable: bool },
    /// Whether the executable is already stored.
    BinaryChecked { exists: bool },
    /// The body of the answer to the fetch, or `None` where it failed.
    Fetched { body: Option<Vec<u8>> },
    /// Whether the file was written.
    Written { ok: bool },
    /// Whether the file was deleted.
    Removed { ok: bool },
}

/// An event as plain values.
pub enum EventView {
    Initialize,
    Probed { runnable: bool },
    BinaryChecked { exists: bool },
    Fetched { body: Option<Seq<u8>> },
    Written { ok: bool },
    Removed { ok: bool },
}

/// What is to be done next on the library's behalf.
#[derive(Debug)]
pub enum Action {
    /// Run the command with its version flag and report `Probed`.
    Probe { command: String },
    /// Look for the file in the plugin's directory and report `BinaryChecked`.
    CheckBinary { name: String },
    /// Fetch the address once and report `Fetched`.
    Fetch { url: String },
    /// Write the file into the plugin's directory and report `Written`.
    WriteFile { name: String, data: Vec<u8> },
    /// Delete the file from the plugin's directory and report `Removed`.
    RemoveFile { name: String },
    /// Tell the host to start the language server. Nothing follows.
    StartLsp { server: ServerReference, args: Vec<String>, options: Option<serde_json::Value> },
    /// Show the user a message. Nothing follows.
    ShowMessage { severity: Severity, text: String },
    /// Report an internal error on the host's diagnostic channel. Nothing
    /// follows.
    Fail { error: ResolveError },
    /// The event was not expected at this stage; nothing is to be done.
    Ignore,
}

/// An action as plain values.
pub enum ActionView {
    Probe { command: Seq<char> },
    CheckBinary { name: Seq<char> },
    Fetch { url: Seq<char> },
    WriteFile { name: Seq<char>, data: Seq<u8> },
    RemoveFile { name: Seq<char> },
    StartLsp { server: ServerReferenceView, args: Seq<String>, options: Option<serde_json::Value> },
    ShowMessage { severity: Severity, text: Seq<char> },
    Fail { error: ResolveError },
    Ignore,
}

/// The search for a language server: what the host reported, how far the
/// search has come, and the archive while it is being unpacked.
#[derive(Debug)]
pub struct Resolver {
    pub info: PluginInfo,
    pub install_uri: Option<String>,
    pub stage: Stage,
    pub archive: Vec<u8>,
}

/// A resolver as plain values.
pub struct ResolverView {
    pub arch: Seq<char>,
    pub os: Seq<char>,
    pub language_id: Seq<char>,
    pub options: Option<serde_json::Value>,
    pub install_uri: Option<Seq<char>>,
    pub stage: Stage,
    pub archive: Seq<u8>,
}

impl View for Event {
    type V = EventView;

    open spec fn view(&self) -> EventView {
        match *self {
            Event::Initialize => EventView::Initialize,
            Event::Probed { runnable } => EventView::Probed { runnable },
            Event::BinaryChecked { exists } => EventView::BinaryChecked { exists },
            Event::Fetched { body } => EventView::Fetched { body: text_bytes(body) },
            Event::Written { ok } => EventView::Written { ok },
            Event::Removed { ok } => EventView::Removed { ok },
        }
    }
}

impl View for Action {
    type V = ActionView;

    open spec fn view(&self) -> ActionView {
        match *self {
            Action::Probe { command } => ActionView::Probe { command: command@ },
            Action::CheckBinary { name } => ActionView::CheckBinary { name: name@ },
            Action::Fetch { url } => ActionView::Fetch { url: url@ },
            Action::WriteFile { name, data } => ActionView::WriteFile { name: name@, data: data@ },
            Action::RemoveFile { name } => ActionView::RemoveFile { name: name@ },
            Action::StartLsp { server, args, options } => ActionView::StartLsp {
                server: server@,
                args: args@,
                options,
            },
            Action::ShowMessage { severity, text } => ActionView::ShowMessage {
                severity,
                text: text@,
            },
            Action::Fail { error } => ActionView::Fail { error },
            Action::Ignore => ActionView::Ignore,
        }
    }
}

impl View for Resolver {
    type V = ResolverView;

    open spec fn view(&self) -> ResolverView {
        ResolverView {
            arch: self.info.arch@,
            os: self.info.os@,
            language_id: self.info.configuration.language_id@,
            options: self.info.configuration.options,
            install_uri: text_of(self.install_uri),
            stage: self.stage,
            archive: self.archive@,
        }
    }
}

/// The bytes of an optional body.
pub open spec fn text_bytes(body: Option<Vec<u8>>) -> Option<Seq<u8>> {
    match body {
        Some(b) => Some(b@),
        None => None,
    }
}

/// What the user is told when no server can be had.
pub open spec fn spec_warning_text() -> Seq<char> {
    "can't download rust-analyzer, please configure serverPath in settings"@
}

/// The state at the start of a search.
pub open spec fn spec_start(
    arch: Seq<char>,
    os: Seq<char>,
    language_id: Seq<char>,
    options: Option<serde_json::Value>,
    install_uri: Option<Seq<char>>,
) -> ResolverView {
    ResolverView {
        arch,
        os,
        language_id,
        options,
        install_uri,
        stage: Stage::Start,
        archive: Seq::empty(),
    }
}

/// The state with the search moved on to another stage.
pub open spec fn at_stage(s: ResolverView, stage: Stage) -> ResolverView {
    ResolverView { stage, ..s }
}

/// The state once the host has been told the outcome: nothing is kept of
/// the archive.
pub open spec fn finished(s: ResolverView) -> ResolverView {
    ResolverView { stage: Stage::Finished, archive: Seq::empty(), ..s }
}

/// The search ends without a server: the user gets one warning.
pub open spec fn spec_give_up(s: ResolverView) -> (ResolverView, ActionView) {
    (
        finished(s),
        ActionView::ShowMessage { severity: Severity::Warning, text: spec_warning_text() },
    )
}

/// The search ends with a server's URI or with an error. With a URI the
/// host is told to start the server, with no extra arguments, for Rust
/// documents, and with the options as they came in, which move on to it.
pub open spec fn spec_launch(s: ResolverView, uri: Result<Seq<char>, ResolveError>) -> (
    ResolverView,
    ActionView,
) {
    spec_conclude(s, spec_reference(uri))
}

/// The search ends with a server reference or with an error.
pub open spec fn spec_conclude(
    s: ResolverView,
    reference: Result<ServerReferenceView, ResolveError>,
) -> (ResolverView, ActionView) {
    match reference {
        Ok(server) => (
            ResolverView { options: None, ..finished(s) },
            ActionView::StartLsp { server, args: Seq::empty(), options: s.options },
        ),
        Err(error) => (finished(s), ActionView::Fail { error }),
    }
}

/// The search ends with the executable stored in the plugin's directory.
pub open spec fn spec_launch_installed(s: ResolverView, target: Target) -> (
    ResolverView,
    ActionView,
) {
    spec_launch(s, spec_installed_uri(s.install_uri, spec_binary_name(target)))
}

/// First, the configured server path: where one is set, it is used as it
/// stands and nothing else is tried. Otherwise the default command is
/// probed.
pub open spec fn spec_on_initialize(s: ResolverView) -> (ResolverView, ActionView) {
    match spec_server_path(s.options) {
        Some(path) => spec_launch(s, spec_command_uri(path)),
        None => (
            at_stage(s, Stage::Probing),
            ActionView::Probe { command: spec_default_command(s.os) },
        ),
    }
}

/// Second, the default command: where it runs, it is the server. Otherwise
/// the stored executable is looked for, where releases exist for the host.
pub open spec fn spec_on_probed(s: ResolverView, runnable: bool) -> (ResolverView, ActionView) {
    if runnable {
        spec_launch(s, spec_command_uri(spec_default_command(s.os)))
    } else {
        match spec_parse_target(s.arch, s.os) {
            Some(target) => (
                at_stage(s, Stage::Checking),
                ActionView::CheckBinary { name: spec_binary_name(target) },
            ),
            None => spec_give_up(s),
        }
    }
}

/// Third, the release: an executable stored earlier is the server.
/// Otherwise the release archive is fetched.
pub open spec fn spec_on_checked(s: ResolverView, target: Target, exists: bool) -> (
    ResolverView,
    ActionView,
) {
    if exists {
        spec_launch_installed(s, target)
    } else {
        (at_stage(s, Stage::Fetching), ActionView::Fetch { url: spec_download_url(target) })
    }
}

/// The fetched archive is kept and written to disk under its release name.
pub open spec fn spec_on_fetched(s: ResolverView, target: Target, body: Option<Seq<u8>>) -> (
    ResolverView,
    ActionView,
) {
    match body {
        Some(bytes) => (
            ResolverView { stage: Stage::StoringArchive, archive: bytes, ..s },
            ActionView::WriteFile { name: spec_archive_name(target), data: bytes },
        ),
        None => spec_give_up(s),
    }
}

/// The executable is taken out of the archive and written to disk under its
/// release name.
pub open spec fn spec_on_archive_written(s: ResolverView, target: Target, ok: bool) -> (
    ResolverView,
    ActionView,
) {
    if ok {
        match spec_extract_server(spec_archive_kind(target), s.archive) {
            Ok(data) => (
                ResolverView { stage: Stage::StoringBinary, archive: Seq::empty(), ..s },
                ActionView::WriteFile { name: spec_binary_name(target), data },
            ),
            Err(_) => spec_give_up(s),
        }
    } else {
        spec_give_up(s)
    }
}

/// With the executable stored, the archive is deleted.
pub open spec fn spec_on_binary_written(s: ResolverView, target: Target, ok: bool) -> (
    ResolverView,
    ActionView,
) {
    if ok {
        (
            at_stage(s, Stage::RemovingArchive),
            ActionView::RemoveFile { name: spec_archive_name(target) },
        )
    } else {
        spec_give_up(s)
    }
}

/// With the archive deleted, the stored executable is the server.
pub open spec fn spec_on_removed(s: ResolverView, target: Target, ok: bool) -> (
    ResolverView,
    ActionView,
) {
    if ok {
        spec_launch_installed(s, target)
    } else {
        spec_give_up(s)
    }
}

/// The steps that work on a release, for a host that has one.
pub open spec fn spec_release_step(s: ResolverView, target: Target, e: EventView) -> (
    ResolverView,
    ActionView,
) {
    match (s.stage, e) {
        (Stage::Checking, EventView::BinaryChecked { exists }) => spec_on_checked(
            s,
            target,
            exists,
        ),
        (Stage::Fetching, EventView::Fetched { body }) => spec_on_fetched(s, target, body),
        (Stage::StoringArchive, EventView::Written { ok }) => spec_on_archive_written(
            s,
            target,
            ok,
        ),
        (Stage::StoringBinary, EventView::Written { ok }) => spec_on_binary_written(s, target, ok),
        (Stage::RemovingArchive, EventView::Removed { ok }) => spec_on_removed(s, target, ok),
        _ => (s, ActionView::Ignore),
    }
}

/// One step of the search: the state after an event, and what is to be done
/// next. An event that the stage does not wait for changes nothing.
pub open spec fn spec_step(s: ResolverView, e: EventView) -> (ResolverView, ActionView) {
    match (s.stage, e) {
        (Stage::Start, EventView::Initialize) => spec_on_initialize(s),
        (Stage::Probing, EventView::Probed { runnable }) => spec_on_probed(s, runnable),
        (Stage::Start, _) | (Stage::Probing, _) | (Stage::Finished, _) => (s, ActionView::Ignore),
        _ => match spec_parse_target(s.arch, s.os) {
            Some(target) => spec_release_step(s, target, e),
            None => (s, ActionView::Ignore),
        },
    }
}

/// A step's result as plain values.
pub open spec fn outcome(r: (Resolver, Action)) -> (ResolverView, ActionView) {
    (r.0@, r.1@)
}

impl Resolver {
    /// A search that has not begun, for a host that reported `info` and, if
    /// it did, the URI of the plugin's installation directory.
    pub fn new(info: PluginInfo, install_uri: Option<String>) -> (r: Resolver)
        ensures
            r.info == info,
            r.install_uri == install_uri,
            r@ == spec_start(
                info.arch@,
                info.os@,
                info.configuration.language_id@,
                info.configuration.options,
                text_of(install_uri),
            ),
    {
        Resolver { info, install_uri, stage: Stage::Start, archive: Vec::new() }
    }

    /// Whether the host has been told the outcome.
    pub fn is_finished(&self) -> (r: bool)
        ensures
            r == (self.stage == Stage::Finished),
    {
        match self.stage {
            Stage::Finished => true,
            _ => false,
        }
    }

    fn ignore(self) -> (r: (Resolver, Action))
        ensures
            outcome(r) == (self@, ActionView::Ignore),
    {
        (self, Action::Ignore)
    }

    fn move_to(self, stage: Stage, action: Action) -> (r: (Resolver, Action))
        ensures
            outcome(r) == (at_stage(self@, stage), action@),
    {
        let Resolver { info, install_uri, stage: _, archive } = self;
        (Resolver { info, install_uri, stage, archive }, action)
    }

    fn give_up(self) -> (r: (Resolver, Action))
        ensures
            outcome(r) == spec_give_up(self@),
    {
        let Resolver { info, install_uri, stage: _, archive: _ } = self;
        (
            Resolver { info, install_uri, stage: Stage::Finished, archive: Vec::new() },
            Action::ShowMessage {
                severity: Severity::Warning,
                text: String::from_str(
                    "can't download rust-analyzer, please configure serverPath in settings",
                ),
            },
        )
    }

    fn conclude(self, reference: Result<ServerReference, ResolveError>) -> (r: (Resolver, Action))
        ensures
            outcome(r) == spec_conclude(self@, reference_view(reference)),
    {
        let Resolver { info, install_uri, stage: _, archive: _ } = self;
        match reference {
            Ok(server) => {
                let PluginInfo { arch, os, configuration } = info;
                let Configuration { language_id, options } = configuration;
                let kept = PluginInfo {
                    arch,
                    os,
                    configuration: Configuration { language_id, options: None },
                };
                (
                    Resolver {
                        info: kept,
                        install_uri,
                        stage: Stage::Finished,
                        archive: Vec::new(),
                    },
                    Action::StartLsp { server, args: Vec::new(), options },
                )
            },
            Err(error) => (
                Resolver { info, install_uri, stage: Stage::Finished, archive: Vec::new() },
                Action::Fail { error },
            ),
        }
    }

    fn launch_installed(self, target: Target) -> (r: (Resolver, Action))
        ensures
            outcome(r) == spec_launch_installed(self@, target),
    {
        let name = target.binary_name();
        let reference = installed_reference(&self.install_uri, name.as_str());
        self.conclude(reference)
    }

    fn on_initialize(self) -> (r: (Resolver, Action))
        ensures
            outcome(r) == spec_on_initialize(self@),
    {
        match self.info.configuration.server_path() {
            Some(path) => {
                let reference = command_reference(path.as_str());
                self.conclude(reference)
            },
            None => {
                let command = self.info.default_command();
                self.move_to(Stage::Probing, Action::Probe { command })
            },
        }
    }

    fn on_probed(self, runnable: bool) -> (r: (Resolver, Action))
        ensures
            outcome(r) == spec_on_probed(self@, runnable),
    {
        if runnable {
            let command = self.info.default_command();
            let reference = command_reference(command.as_str());
            self.conclude(reference)
        } else {
            match self.info.target() {
                Some(target) => {
                    let name = target.binary_name();
                    self.move_to(Stage::Checking, Action::CheckBinary { name })
                },
                None => self.give_up(),
            }
        }
    }

    fn on_checked(self, target: Target, exists: bool) -> (r: (Resolver, Action))
        ensures
            outcome(r) == spec_on_checked(self@, target, exists),
    {
        if exists {
            self.launch_installed(target)
        } else {
            let url = target.download_url();
            self.move_to(Stage::Fetching, Action::Fetch { url })
        }
    }

    fn on_fetched(self, target: Target, body: Option<Vec<u8>>) -> (r: (Resolver, Action))
        ensures
            outcome(r) == spec_on_fetched(self@, target, text_bytes(body)),
    {
        match body {
            Some(bytes) => {
                let data = bytes.clone();
                let Resolver { info, install_uri, stage: _, archive: _ } = self;
                (
                    Resolver { info, install_uri, stage: Stage::StoringArchive, archive: bytes },
                    Action::WriteFile { name: target.archive_name(), data },
                )
            },
            None => self.give_up(),
        }
    }

    fn on_archive_written(self, target: Target, ok: bool) -> (r: (Resolver, Action))
        ensures
            outcome(r) == spec_on_archive_written(self@, target, ok),
    {
        if ok {
            match extract_server(target.archive_kind(), &self.archive) {
                Ok(data) => {
                    let Resolver { info, install_uri, stage: _, archive: _ } = self;
                    (
                        Resolver {
                            info,
                            install_uri,
                            stage: Stage::StoringBinary,
                            archive: Vec::new(),
                        },
                        Action::WriteFile { name: target.binary_name(), data },
                    )
                },
                Err(_) => self.give_up(),
            }
        } else {
            self.give_up()
        }
    }

    fn on_binary_written(self, target: Target, ok: bool) -> (r: (Resolver, Action))
        ensures
            outcome(r) == spec_on_binary_written(self@, target, ok),
    {
        if ok {
            let name = target.archive_name();
            self.move_to(Stage::RemovingArchive, Action::RemoveFile { name })
        } else {
            self.give_up()
        }
    }

    fn on_removed(self, target: Target, ok: bool) -> (r: (Resolver, Action))
        ensures
            outcome(r) == spec_on_removed(self@, target, ok),
    {
        if ok {
            self.launch_installed(target)
        } else {
            self.give_up()
        }
    }

    fn release_step(self, target: Target, event: Event) -> (r: (Resolver, Action))
        ensures
            outcome(r) == spec_release_step(self@, target, event@),
    {
        match self.stage {
            Stage::Checking => match event {
                Event::BinaryChecked { exists } => self.on_checked(target, exists),
                _ => self.ignore(),
            },
            Stage::Fetching => match event {
                Event::Fetched { body } => self.on_fetched(target, body),
                _ => self.ignore(),
            },
            Stage::StoringArchive => match event {
                Event::Written { ok } => self.on_archive_written(target, ok),
                _ => self.ignore(),
            },
            Stage::StoringBinary => match event {
                Event::Written { ok } => self.on_binary_written(target, ok),
                _ => self.ignore(),
            },
            Stage::RemovingArchive => match event {
                Event::Removed { ok } => self.on_removed(target, ok),
                _ => self.ignore(),
            },
            _ => self.ignore(),
        }
    }

    /// Takes one step of the search: hands back the resolver as it is after
    /// the event, and what is to be done next. After `StartLsp`,
    /// `ShowMessage` and `Fail` the search is finished.
    pub fn step(self, event: Event) -> (r: (Resolver, Action))
        ensures
            outcome(r) == spec_step(self@, event@),
    {
        match self.stage {
            Stage::Start => match event {
                Event::Initialize => self.on_initialize(),
                _ => self.ignore(),
            },
            Stage::Probing => match event {
                Event::Probed { runnable } => self.on_probed(runnable),
                _ => self.ignore(),
            },
            Stage::Finished => self.ignore(),
            _ => match self.info.target() {
                Some(target) => self.release_step(target, event),
                None => self.ignore(),
            },
        }
    }
}

} // verus!
