use crate::archive::{spec_extract_server, ExtractError};
use crate::config::{json_string_members, spec_server_path};
use crate::resolver::{
    at_stage, spec_give_up, spec_launch, spec_launch_installed, spec_step, ActionView, EventView,
    ResolverView, Severity, Stage,
};
use crate::target::{
    spec_archive_kind, spec_archive_name, spec_binary_name, spec_default_command,
    spec_parse_target, Target,
};
use crate::uri::{spec_command_uri, spec_rust_server, url_parsed};
use vstd::prelude::*;

verus! {

/// What is to be done, in order, as a search takes one event after another.
pub open spec fn spec_run(s: ResolverView, events: Seq<EventView>) -> Seq<ActionView>
    decreases events.len(),
{
    if events.len() == 0 {
        Seq::empty()
    } else {
        seq![spec_step(s, events[0]).1] + spec_run(spec_step(s, events[0]).0, events.drop_first())
    }
}

/// An action that tells the host something: to start the server, to show a
/// message, or that the plugin failed.
pub open spec fn is_host_call(a: ActionView) -> bool {
    a is StartLsp || a is ShowMessage || a is Fail
}

/// The actions that tell the host something, in order.
pub open spec fn host_calls(actions: Seq<ActionView>) -> Seq<ActionView>
    decreases actions.len(),
{
    if actions.len() == 0 {
        Seq::empty()
    } else if is_host_call(actions[0]) {
        seq![actions[0]] + host_calls(actions.drop_first())
    } else {
        host_calls(actions.drop_first())
    }
}

proof fn run_one_more(s: ResolverView, e: EventView, rest: Seq<EventView>)
    ensures
        spec_run(s, seq![e] + rest) == seq![spec_step(s, e).1] + spec_run(spec_step(s, e).0, rest),
{
    assert((seq![e] + rest).drop_first() =~= rest);
}

proof fn host_calls_one_more(a: ActionView, rest: Seq<ActionView>)
    ensures
        host_calls(seq![a] + rest) == if is_host_call(a) {
            seq![a] + host_calls(rest)
        } else {
            host_calls(rest)
        },
{
    assert((seq![a] + rest).drop_first() =~= rest);
}

proof fn finished_search_ignores_events(s: ResolverView, events: Seq<EventView>)
    requires
        s.stage == Stage::Finished,
    ensures
        host_calls(spec_run(s, events)) == Seq::<ActionView>::empty(),
    decreases events.len(),
{
    if events.len() > 0 {
        finished_search_ignores_events(s, events.drop_first());
        host_calls_one_more(ActionView::Ignore, spec_run(s, events.drop_first()));
    }
}

/// A step either tells the host nothing, or tells it one thing and finishes
/// the search.
pub proof fn host_call_finishes_search(s: ResolverView, e: EventView)
    ensures
        is_host_call(spec_step(s, e).1) ==> spec_step(s, e).0.stage == Stage::Finished,
{
}

/// The ways to a server are tried in their order. The default command is
/// probed only at the start and only where no server path is configured;
/// the plugin's directory is searched only after the probe has failed; and
/// the release is fetched only after that search has found nothing.
pub proof fn ways_are_tried_in_order(s: ResolverView, e: EventView)
    ensures
        spec_step(s, e).1 is Probe ==> s.stage == Stage::Start && e is Initialize
            && spec_server_path(s.options) is None,
        spec_step(s, e).1 is CheckBinary ==> s.stage == Stage::Probing && e
            == (EventView::Probed { runnable: false }),
        spec_step(s, e).1 is Fetch ==> s.stage == Stage::Checking && e
            == (EventView::BinaryChecked { exists: false }),
{
}

/// Whatever events come in, and from whatever state, the host is told at
/// most one thing: it is never asked twice to start a server, and never
/// shown a message beside a start.
pub proof fn host_is_told_at_most_once(s: ResolverView, events: Seq<EventView>)
    ensures
        host_calls(spec_run(s, events)).len() <= 1,
    decreases events.len(),
{
    if events.len() > 0 {
        let next = spec_step(s, events[0]);
        let rest = events.drop_first();
        host_calls_one_more(next.1, spec_run(next.0, rest));
        if is_host_call(next.1) {
            finished_search_ignores_events(next.0, rest);
        } else {
            host_is_told_at_most_once(next.0, rest);
        }
    }
}

/// A server path that is set in the options and not empty is used as it
/// stands: the first step hands the parser `urn:` followed by exactly that
/// path, tries nothing else, and starts the server at the URI that comes
/// back, with the options as they came in.
pub proof fn configured_path_is_used_as_it_stands(
    s: ResolverView,
    options: serde_json::Value,
    path: Seq<char>,
)
    requires
        s.stage == Stage::Start,
        s.options == Some(options),
        json_string_members(options).contains_key("serverPath"@),
        json_string_members(options)["serverPath"@] == path,
        path.len() > 0,
    ensures
        spec_server_path(s.options) == Some(path),
        spec_step(s, EventView::Initialize) == spec_launch(s, spec_command_uri(path)),
        url_parsed("urn:"@ + path) matches Some(uri) ==> spec_step(s, EventView::Initialize).1
            == (ActionView::StartLsp {
            server: spec_rust_server(uri),
            args: Seq::empty(),
            options: s.options,
        }),
        url_parsed("urn:"@ + path) is None ==> spec_step(s, EventView::Initialize).1 is Fail,
{
}

/// Without a server path in the options, or with an empty one, the command
/// that is tried is exactly `rust-analyzer`, or exactly `rust-analyzer.exe`
/// where the host reports Windows; where it runs, the server is started
/// under that name.
pub proof fn default_command_is_rust_analyzer(s: ResolverView)
    requires
        s.stage == Stage::Start,
        spec_server_path(s.options) is None,
    ensures
        spec_step(s, EventView::Initialize) == (
            at_stage(s, Stage::Probing),
            ActionView::Probe { command: spec_default_command(s.os) },
        ),
        s.os == "windows"@ ==> spec_default_command(s.os) == "rust-analyzer.exe"@,
        s.os != "windows"@ ==> spec_default_command(s.os) == "rust-analyzer"@,
        spec_step(at_stage(s, Stage::Probing), EventView::Probed { runnable: true }) == spec_launch(
            at_stage(s, Stage::Probing),
            spec_command_uri(spec_default_command(s.os)),
        ),
{
}

/// Where no server path is set, the default command does not run, and no
/// release exists for the host, the host is never asked to start a server,
/// whatever events follow, and the user is shown exactly one warning.
pub proof fn without_server_one_warning(s: ResolverView, later: Seq<EventView>)
    requires
        s.stage == Stage::Start,
        spec_server_path(s.options) is None,
        spec_parse_target(s.arch, s.os) is None,
    ensures
        host_calls(
            spec_run(
                s,
                seq![EventView::Initialize, EventView::Probed { runnable: false }] + later,
            ),
        ) == seq![spec_give_up(s).1],
        spec_give_up(s).1 is ShowMessage,
        spec_give_up(s).1->severity == Severity::Warning,
{
    let e0 = EventView::Initialize;
    let e1 = EventView::Probed { runnable: false };
    let s1 = spec_step(s, e0).0;
    let s2 = spec_step(s1, e1).0;
    assert(seq![e0, e1] + later =~= seq![e0] + (seq![e1] + later));
    run_one_more(s, e0, seq![e1] + later);
    run_one_more(s1, e1, later);
    finished_search_ignores_events(s2, later);
    host_calls_one_more(spec_step(s1, e1).1, spec_run(s2, later));
    host_calls_one_more(spec_step(s, e0).1, spec_run(s1, seq![e1] + later));
}

/// The events of a fetch in which every part succeeds.
pub open spec fn fetch_events(body: Seq<u8>) -> Seq<EventView> {
    seq![
        EventView::Fetched { body: Some(body) },
        EventView::Written { ok: true },
        EventView::Written { ok: true },
        EventView::Removed { ok: true },
    ]
}

/// What a fetch in which every part succeeds asks for, one after another.
pub open spec fn fetch_actions(
    s: ResolverView,
    target: Target,
    body: Seq<u8>,
    binary: Seq<u8>,
) -> Seq<ActionView> {
    seq![
        ActionView::WriteFile { name: spec_archive_name(target), data: body },
        ActionView::WriteFile { name: spec_binary_name(target), data: binary },
        ActionView::RemoveFile { name: spec_archive_name(target) },
        spec_launch_installed(s, target).1,
    ]
}

/// When the release archive has been fetched and holds the executable, the
/// executable is written under the release's name for the host's target,
/// then the archive is deleted, and only then is the server started from
/// the plugin's directory.
pub proof fn fetched_release_is_stored_under_its_name(
    s: ResolverView,
    target: Target,
    body: Seq<u8>,
    binary: Seq<u8>,
)
    requires
        s.stage == Stage::Fetching,
        spec_parse_target(s.arch, s.os) == Some(target),
        spec_extract_server(spec_archive_kind(target), body) == Ok::<Seq<u8>, ExtractError>(binary),
    ensures
        spec_run(s, fetch_events(body)) == fetch_actions(s, target, body, binary),
{
    let e0 = EventView::Fetched { body: Some(body) };
    let e1 = EventView::Written { ok: true };
    let e2 = EventView::Removed { ok: true };
    let s1 = spec_step(s, e0).0;
    let s2 = spec_step(s1, e1).0;
    let s3 = spec_step(s2, e1).0;
    assert(fetch_events(body) =~= seq![e0] + (seq![e1] + (seq![e1] + (seq![e2]
        + Seq::<EventView>::empty()))));
    run_one_more(s, e0, seq![e1] + (seq![e1] + (seq![e2] + Seq::<EventView>::empty())));
    run_one_more(s1, e1, seq![e1] + (seq![e2] + Seq::<EventView>::empty()));
    run_one_more(s2, e1, seq![e2] + Seq::<EventView>::empty());
    run_one_more(s3, e2, Seq::<EventView>::empty());
    assert(spec_run(s, fetch_events(body)) =~= fetch_actions(s, target, body, binary));
}

/// The events of a search that has to fetch the release, and succeeds.
pub open spec fn first_run_events(body: Seq<u8>) -> Seq<EventView> {
    seq![
        EventView::Initialize,
        EventView::Probed { runnable: false },
        EventView::BinaryChecked { exists: false },
    ] + fetch_events(body)
}

/// The events of a search that finds the executable already stored.
pub open spec fn second_run_events() -> Seq<EventView> {
    seq![
        EventView::Initialize,
        EventView::Probed { runnable: false },
        EventView::BinaryChecked { exists: true },
    ]
}

/// A search that fetches the release and a later one, with the same
/// configuration, that finds the executable stored tell the host the same:
/// one call, for the same server, with the same options.
pub proof fn second_run_tells_the_host_the_same(
    s: ResolverView,
    target: Target,
    body: Seq<u8>,
    binary: Seq<u8>,
)
    requires
        s.stage == Stage::Start,
        spec_server_path(s.options) is None,
        spec_parse_target(s.arch, s.os) == Some(target),
        spec_extract_server(spec_archive_kind(target), body) == Ok::<Seq<u8>, ExtractError>(binary),
    ensures
        host_calls(spec_run(s, first_run_events(body))) == host_calls(
            spec_run(s, second_run_events()),
        ),
        host_calls(spec_run(s, second_run_events())) == seq![spec_launch_installed(s, target).1],
{
    let e0 = EventView::Initialize;
    let e1 = EventView::Probed { runnable: false };
    let e2 = EventView::BinaryChecked { exists: false };
    let e3 = EventView::BinaryChecked { exists: true };
    let s1 = spec_step(s, e0).0;
    let s2 = spec_step(s1, e1).0;
    let s3 = spec_step(s2, e2).0;
    let call = spec_launch_installed(s, target).1;
    let none = Seq::<ActionView>::empty();

    // The later search.
    assert(second_run_events() =~= seq![e0] + (seq![e1] + (seq![e3] + Seq::<EventView>::empty())));
    run_one_more(s, e0, seq![e1] + (seq![e3] + Seq::<EventView>::empty()));
    run_one_more(s1, e1, seq![e3] + Seq::<EventView>::empty());
    run_one_more(s2, e3, Seq::<EventView>::empty());
    let end = spec_run(spec_step(s2, e3).0, Seq::<EventView>::empty());
    host_calls_one_more(call, end);
    host_calls_one_more(spec_step(s1, e1).1, seq![call] + end);
    host_calls_one_more(spec_step(s, e0).1, seq![spec_step(s1, e1).1] + (seq![call] + end));

    // The search that fetches.
    fetched_release_is_stored_under_its_name(s3, target, body, binary);
    let fetch = fetch_actions(s3, target, body, binary);
    assert(first_run_events(body) =~= seq![e0] + (seq![e1] + (seq![e2] + fetch_events(body))));
    run_one_more(s, e0, seq![e1] + (seq![e2] + fetch_events(body)));
    run_one_more(s1, e1, seq![e2] + fetch_events(body));
    run_one_more(s2, e2, fetch_events(body));
    assert(fetch =~= seq![fetch[0]] + (seq![fetch[1]] + (seq![fetch[2]] + (seq![call] + none))));
    host_calls_one_more(call, none);
    host_calls_one_more(fetch[2], seq![call] + none);
    host_calls_one_more(fetch[1], seq![fetch[2]] + (seq![call] + none));
    host_calls_one_more(fetch[0], seq![fetch[1]] + (seq![fetch[2]] + (seq![call] + none)));
    host_calls_one_more(spec_step(s2, e2).1, fetch);
    host_calls_one_more(spec_step(s1, e1).1, seq![spec_step(s2, e2).1] + fetch);
    host_calls_one_more(
        spec_step(s, e0).1,
        seq![spec_step(s1, e1).1] + (seq![spec_step(s2, e2).1] + fetch),
    );
}

} // verus!
