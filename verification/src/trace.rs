use crate::builder::install_failure_message;
use crate::builder::install_from;
use crate::builder::on_settings;
use crate::builder::start_of;
use crate::builder::step_of;
use crate::builder::ActionView;
use crate::builder::BuilderView;
use crate::builder::EventView;
use crate::builder::PhaseView;
use crate::builder::SettingsLookupView;
use crate::error::CommandErrorView;
use crate::layout::LayoutView;
use crate::settings::validated;
use crate::settings::SettingsFieldsView;
use crate::variant::DependencyView;
use crate::variant::ServerVariantView;
use vstd::prelude::*;

verus! {

/// The actions that a builder asks for, one for each event that reaches it
/// before the construction has ended.
pub open spec fn run(b: BuilderView, events: Seq<EventView>) -> Seq<ActionView>
    decreases events.len(),
{
    if events.len() == 0 || b.phase is Finished {
        seq![]
    } else {
        let next = step_of(b, events[0]);
        seq![next.1] + run(next.0, events.drop_first())
    }
}

/// The installations of the dependencies from `index` on, in their order.
pub open spec fn installs(dependencies: Seq<DependencyView>, index: int) -> Seq<ActionView> {
    Seq::new(
        if index < dependencies.len() {
            (dependencies.len() - index) as nat
        } else {
            0
        },
        |k: int|
            ActionView::InstallPackage(
                dependencies[index + k].name,
                dependencies[index + k].version,
            ),
    )
}

/// `count` reports of success.
pub open spec fn completions(count: nat) -> Seq<EventView> {
    Seq::new(count, |k: int| EventView::Completed)
}

/// The events of a construction that finds no server file, when every write
/// and every installation succeeds: the first look, the answers to the
/// writing of an entry file that the variant brings, the look for the
/// manifest, the answer to its writing where none was found, one report for
/// each dependency, and the second look.
pub open spec fn installation_events(
    variant: ServerVariantView,
    manifest_found: bool,
    found_afterwards: bool,
) -> Seq<EventView> {
    seq![EventView::Exists(false)] + (if variant.embedded_script is Some {
        seq![EventView::Completed, EventView::Completed]
    } else {
        seq![]
    }) + seq![EventView::Exists(manifest_found)] + (if manifest_found {
        seq![]
    } else {
        seq![EventView::Completed]
    }) + completions(variant.dependencies.len()) + seq![EventView::Exists(found_afterwards)]
}

/// The actions that answer [`installation_events`]: the entry file is written
/// where the variant brings one, the manifest where none was found, each
/// dependency is installed once and in order, the server file is looked for
/// once more, and the Node.js binary is asked for only where it was found.
pub open spec fn installation_actions(
    b: BuilderView,
    manifest_found: bool,
    found_afterwards: bool,
) -> Seq<ActionView> {
    (if b.variant.embedded_script is Some {
        seq![
            ActionView::CreateDirectory(b.layout.server_dir),
            ActionView::WriteFile(b.layout.server_file, b.variant.embedded_script.unwrap()),
        ]
    } else {
        seq![]
    }) + seq![ActionView::CheckExists(b.layout.manifest_file)] + (if manifest_found {
        seq![]
    } else {
        seq![ActionView::WriteFile(b.layout.manifest_file, b.variant.manifest)]
    }) + installs(b.variant.dependencies, 0) + seq![
        ActionView::CheckExists(b.layout.server_file),
        if found_afterwards {
            ActionView::LookupNode
        } else {
            ActionView::Finish(Err(CommandErrorView::Installation(install_failure_message(b))))
        },
    ]
}

/// One event in front of the others is answered by one action in front of
/// the actions that answer the others.
pub proof fn lemma_run_first(b: BuilderView, event: EventView, rest: Seq<EventView>)
    requires
        !(b.phase is Finished),
    ensures
        run(b, seq![event] + rest) == seq![step_of(b, event).1] + run(step_of(b, event).0, rest),
{
    let events = seq![event] + rest;
    assert(events[0] == event);
    assert(events.drop_first() =~= rest);
}

/// After the end of a construction no action is asked for.
pub proof fn lemma_run_finished(b: BuilderView, events: Seq<EventView>)
    requires
        b.phase is Finished,
    ensures
        run(b, events) == Seq::<ActionView>::empty(),
{
}

/// From the installation of the dependency `index` on, as many reports of
/// success as dependencies are left lead through their installations, each
/// once and in order, to the second look for the server file.
pub proof fn lemma_run_installs(b: BuilderView, index: int, rest: Seq<EventView>)
    requires
        0 <= index <= b.variant.dependencies.len(),
    ensures
        seq![install_from(b, index).1] + run(
            install_from(b, index).0,
            completions((b.variant.dependencies.len() - index) as nat) + rest,
        ) == installs(b.variant.dependencies, index) + seq![
            ActionView::CheckExists(b.layout.server_file),
        ] + run(BuilderView { phase: PhaseView::AwaitRecheck, ..b }, rest),
    decreases b.variant.dependencies.len() - index,
{
    let deps = b.variant.dependencies;
    let left = (deps.len() - index) as nat;
    let after = BuilderView { phase: PhaseView::AwaitRecheck, ..b };
    let check = ActionView::CheckExists(b.layout.server_file);
    if index == deps.len() {
        assert(completions(left) + rest =~= rest);
        assert(installs(deps, index) =~= Seq::<ActionView>::empty());
        assert(seq![check] + run(after, rest) =~= installs(deps, index) + seq![check] + run(
            after,
            rest,
        ));
    } else {
        let waiting = install_from(b, index).0;
        let first = install_from(b, index).1;
        let fewer = completions((left - 1) as nat) + rest;
        assert(completions(left) + rest =~= seq![EventView::Completed] + fewer);
        lemma_run_first(waiting, EventView::Completed, fewer);
        assert(step_of(waiting, EventView::Completed) == install_from(waiting, index + 1));
        lemma_run_installs(waiting, index + 1, rest);
        assert(BuilderView { phase: PhaseView::AwaitRecheck, ..waiting } == after);
        assert(installs(deps, index) =~= seq![first] + installs(deps, index + 1));
        assert(seq![first] + (installs(deps, index + 1) + seq![check] + run(after, rest))
            =~= installs(deps, index) + seq![check] + run(after, rest));
    }
}

/// A project without settings for the server, a settings object with a field
/// of the wrong type, and a settings object without the key or with an empty
/// one all end the construction at once with a configuration error: no
/// action was asked for that changes anything on disk.
pub proof fn lemma_rejected_settings_change_nothing(
    variant: ServerVariantView,
    layout: LayoutView,
    lookup: SettingsLookupView,
    events: Seq<EventView>,
)
    requires
        events.len() > 0,
        events[0] == EventView::Settings(lookup),
        lookup is NotConfigured || lookup is Malformed || (lookup matches SettingsLookupView::Present(
            fields,
        ) && (fields.resend_api_key is None || fields.resend_api_key == Some(
            Seq::<char>::empty(),
        ))),
    ensures
        run(start_of(variant, layout), events).len() == 1,
        run(start_of(variant, layout), events)[0] matches ActionView::Finish(Err(error))
            && error is Configuration,
        forall|k: int|
            0 <= k < run(start_of(variant, layout), events).len() ==> !(#[trigger] run(
                start_of(variant, layout),
                events,
            )[k]).changes_disk(),
{
    let b = start_of(variant, layout);
    let next = step_of(b, events[0]);
    assert(next.0.phase is Finished);
    lemma_run_finished(next.0, events.drop_first());
    assert(run(b, events) =~= seq![next.1]);
}

/// Where the first look finds the server file, nothing is written and
/// nothing is installed, whatever events follow: the Node.js binary is asked
/// for, and its answer ends the construction.
pub proof fn lemma_present_server_is_left_alone(
    variant: ServerVariantView,
    layout: LayoutView,
    fields: SettingsFieldsView,
    events: Seq<EventView>,
)
    requires
        validated(fields) is Ok,
        events.len() >= 2,
        events[0] == EventView::Settings(SettingsLookupView::Present(fields)),
        events[1] == EventView::Exists(true),
    ensures
        run(start_of(variant, layout), events).len() <= 3,
        run(start_of(variant, layout), events)[0] == ActionView::CheckExists(layout.server_file),
        run(start_of(variant, layout), events)[1] == ActionView::LookupNode,
        forall|k: int|
            0 <= k < run(start_of(variant, layout), events).len() ==> !(#[trigger] run(
                start_of(variant, layout),
                events,
            )[k]).changes_disk(),
{
    let b0 = start_of(variant, layout);
    let s1 = step_of(b0, events[0]);
    let e1 = events.drop_first();
    assert(run(b0, events) == seq![s1.1] + run(s1.0, e1));
    assert(e1[0] == events[1]);
    let s2 = step_of(s1.0, e1[0]);
    let e2 = e1.drop_first();
    assert(run(s1.0, e1) == seq![s2.1] + run(s2.0, e2));
    assert(s2.0.phase is AwaitNode);
    if e2.len() == 0 {
        assert(run(s2.0, e2) =~= Seq::<ActionView>::empty());
    } else {
        let s3 = step_of(s2.0, e2[0]);
        assert(s3.0.phase is Finished);
        assert(s3.1 is Finish);
        lemma_run_finished(s3.0, e2.drop_first());
        assert(run(s2.0, e2) =~= seq![s3.1]);
    }
}

/// From the first look at the disk on: where it finds no server file and
/// every write and every installation succeeds, each dependency of the
/// variant is installed exactly once, in order, and the server file is then
/// looked for exactly once more. Where it is still absent the construction
/// ends with an installation error whose message ends in the path of the
/// server file.
pub proof fn lemma_installation_after_first_look(
    b: BuilderView,
    manifest_found: bool,
    found_afterwards: bool,
)
    requires
        b.phase is AwaitServerCheck,
    ensures
        run(b, installation_events(b.variant, manifest_found, found_afterwards))
            == installation_actions(b, manifest_found, found_afterwards),
        install_failure_message(b).subrange(
            install_failure_message(b).len() - b.layout.server_file.len(),
            install_failure_message(b).len() as int,
        ) == b.layout.server_file,
{
    let count = b.variant.dependencies.len();
    let last = seq![EventView::Exists(found_afterwards)];
    let rechecking = BuilderView { phase: PhaseView::AwaitRecheck, ..b };
    let closing = step_of(rechecking, EventView::Exists(found_afterwards));
    // The second look and what follows it.
    assert(run(rechecking, last) =~= seq![closing.1]) by {
        lemma_run_first(rechecking, EventView::Exists(found_afterwards), Seq::empty());
        assert(seq![EventView::Exists(found_afterwards)] + Seq::<EventView>::empty() =~= last);
        assert(run(closing.0, Seq::<EventView>::empty()) =~= Seq::<ActionView>::empty());
    }
    assert(install_failure_message(rechecking) == install_failure_message(b));
    // The installations.
    lemma_run_installs(b, 0, last);
    let installing = completions(count) + last;
    let from_install = seq![install_from(b, 0).1] + run(install_from(b, 0).0, installing);
    // The manifest.
    let checking = BuilderView { phase: PhaseView::AwaitManifestCheck, ..b };
    let manifest_events = seq![EventView::Exists(manifest_found)] + (if manifest_found {
        seq![]
    } else {
        seq![EventView::Completed]
    }) + installing;
    let from_manifest = run(checking, manifest_events);
    assert(from_manifest == (if manifest_found {
        Seq::<ActionView>::empty()
    } else {
        seq![ActionView::WriteFile(b.layout.manifest_file, b.variant.manifest)]
    }) + from_install) by {
        if manifest_found {
            assert(manifest_events =~= seq![EventView::Exists(true)] + installing);
            lemma_run_first(checking, EventView::Exists(true), installing);
            assert(install_from(checking, 0) == install_from(b, 0));
            assert(from_manifest =~= Seq::<ActionView>::empty() + from_install);
        } else {
            let writing = BuilderView { phase: PhaseView::AwaitManifest, ..b };
            let written = seq![EventView::Completed] + installing;
            assert(manifest_events =~= seq![EventView::Exists(false)] + written);
            lemma_run_first(checking, EventView::Exists(false), written);
            lemma_run_first(writing, EventView::Completed, installing);
            assert(install_from(writing, 0) == install_from(b, 0));
            assert(from_manifest =~= seq![
                ActionView::WriteFile(b.layout.manifest_file, b.variant.manifest),
            ] + from_install);
        }
    }
    // The entry file.
    let events = installation_events(b.variant, manifest_found, found_afterwards);
    if b.variant.embedded_script is Some {
        let making = BuilderView { phase: PhaseView::AwaitDirectory, ..b };
        let scripting = BuilderView { phase: PhaseView::AwaitScript, ..b };
        let after_script = seq![EventView::Completed] + manifest_events;
        let after_first = seq![EventView::Completed] + after_script;
        assert(events =~= seq![EventView::Exists(false)] + after_first);
        lemma_run_first(b, EventView::Exists(false), after_first);
        lemma_run_first(making, EventView::Completed, after_script);
        lemma_run_first(scripting, EventView::Completed, manifest_events);
        assert(run(b, events) =~= installation_actions(b, manifest_found, found_afterwards));
    } else {
        assert(events =~= seq![EventView::Exists(false)] + manifest_events);
        lemma_run_first(b, EventView::Exists(false), manifest_events);
        assert(run(b, events) =~= installation_actions(b, manifest_found, found_afterwards));
    }
    assert(install_failure_message(b).subrange(
        install_failure_message(b).len() - b.layout.server_file.len(),
        install_failure_message(b).len() as int,
    ) =~= b.layout.server_file);
}

/// No more actions are asked for than events have come in.
pub proof fn lemma_run_length(b: BuilderView, events: Seq<EventView>)
    ensures
        run(b, events).len() <= events.len(),
    decreases events.len(),
{
    if events.len() > 0 && !(b.phase is Finished) {
        lemma_run_length(step_of(b, events[0]).0, events.drop_first());
    }
}

/// Where the action with index `at` hands out a launch command, the builder
/// was, that many events earlier, as far from the look at the server file as
/// the index says.
proof fn lemma_launch_needs_confirmation(b: BuilderView, events: Seq<EventView>, at: int)
    requires
        0 <= at < run(b, events).len(),
        run(b, events)[at] matches ActionView::Finish(Ok(_)),
    ensures
        at == 0 ==> b.phase is AwaitNode,
        at == 1 ==> (b.phase is AwaitServerCheck || b.phase is AwaitRecheck) && events[0]
            == EventView::Exists(true) && run(b, events)[0] == ActionView::LookupNode,
        at >= 2 ==> events[at - 1] == EventView::Exists(true) && run(b, events)[at - 2]
            == ActionView::CheckExists(b.layout.server_file) && run(b, events)[at - 1]
            == ActionView::LookupNode,
        run(b, events)[at] matches ActionView::Finish(Ok(command)) && command.args == seq![
            b.layout.server_file,
        ],
    decreases events.len(),
{
    let next = step_of(b, events[0]);
    let rest = events.drop_first();
    assert(run(b, events) == seq![next.1] + run(next.0, rest));
    assert(next.0.layout == b.layout);
    lemma_run_length(next.0, rest);
    if at >= 1 {
        assert(run(b, events)[at] == run(next.0, rest)[at - 1]);
        lemma_launch_needs_confirmation(next.0, rest, at - 1);
        if at >= 2 {
            assert(events[at - 1] == rest[at - 2]);
            assert(run(b, events)[at - 1] == run(next.0, rest)[at - 2]);
            if at >= 3 {
                assert(run(b, events)[at - 2] == run(next.0, rest)[at - 3]);
            }
        }
    }
}

/// A launch command is handed out only after the server file has been looked
/// for and found: the two actions before it are that look and the request for
/// the Node.js binary, the look was answered with "it exists", and the file
/// that was found is the one argument of the command.
pub proof fn lemma_launch_only_after_confirmation(
    variant: ServerVariantView,
    layout: LayoutView,
    events: Seq<EventView>,
    at: int,
)
    requires
        0 <= at < run(start_of(variant, layout), events).len(),
        run(start_of(variant, layout), events)[at] matches ActionView::Finish(Ok(_)),
    ensures
        at >= 2,
        run(start_of(variant, layout), events)[at - 2] == ActionView::CheckExists(
            layout.server_file,
        ),
        events[at - 1] == EventView::Exists(true),
        run(start_of(variant, layout), events)[at - 1] == ActionView::LookupNode,
        run(start_of(variant, layout), events)[at] matches ActionView::Finish(Ok(command))
            && command.args == seq![layout.server_file],
{
    lemma_launch_needs_confirmation(start_of(variant, layout), events, at);
}

/// A whole construction with settings that validate, whose first look finds
/// no server file and whose writes and installations all succeed: after the
/// look at the server file come the actions of the installation, with each
/// dependency installed exactly once and the server file looked for exactly
/// once more, and nothing else.
pub proof fn lemma_absent_server_is_installed_once(
    variant: ServerVariantView,
    layout: LayoutView,
    fields: SettingsFieldsView,
    manifest_found: bool,
    found_afterwards: bool,
)
    requires
        validated(fields) is Ok,
    ensures
        run(
            start_of(variant, layout),
            seq![EventView::Settings(SettingsLookupView::Present(fields))] + installation_events(
                variant,
                manifest_found,
                found_afterwards,
            ),
        ) == seq![ActionView::CheckExists(layout.server_file)] + installation_actions(
            on_settings(start_of(variant, layout), SettingsLookupView::Present(fields)).0,
            manifest_found,
            found_afterwards,
        ),
{
    let first = EventView::Settings(SettingsLookupView::Present(fields));
    let settled = on_settings(start_of(variant, layout), SettingsLookupView::Present(fields)).0;
    lemma_run_first(
        start_of(variant, layout),
        first,
        installation_events(variant, manifest_found, found_afterwards),
    );
    lemma_installation_after_first_look(settled, manifest_found, found_afterwards);
}

/// How far a construction has come: every answer moves it on, and the end
/// is as far as it gets.
pub open spec fn progress(b: BuilderView) -> int {
    match b.phase {
        PhaseView::AwaitSettings => 0int,
        PhaseView::AwaitServerCheck => 1int,
        PhaseView::AwaitDirectory => 2int,
        PhaseView::AwaitScript => 3int,
        PhaseView::AwaitManifestCheck => 4int,
        PhaseView::AwaitManifest => 5int,
        PhaseView::AwaitInstall(index) => 6int + index,
        PhaseView::AwaitRecheck => 6int + b.variant.dependencies.len(),
        PhaseView::AwaitNode => 7int + b.variant.dependencies.len(),
        PhaseView::Finished => 8int + b.variant.dependencies.len(),
    }
}

/// Every event moves a construction forward and keeps the builder well
/// formed: no phase is entered twice, so nothing is asked for again. An
/// installation is asked for only on entering the phase that waits for it,
/// so no dependency is installed a second time.
pub proof fn lemma_step_advances(b: BuilderView, event: EventView)
    requires
        b.wf(),
        !(b.phase is Finished),
    ensures
        step_of(b, event).0.wf(),
        step_of(b, event).0.variant == b.variant,
        step_of(b, event).0.layout == b.layout,
        progress(b) < progress(step_of(b, event).0) <= 8 + b.variant.dependencies.len(),
        step_of(b, event).1 is InstallPackage ==> (step_of(b, event).0.phase matches PhaseView::AwaitInstall(
            index,
        ) && step_of(b, event).1 == ActionView::InstallPackage(
            b.variant.dependencies[index].name,
            b.variant.dependencies[index].version,
        )),
{
}

/// A construction ends: whatever the events are, a builder asks for no more
/// actions than the phases that lie before it.
pub proof fn lemma_construction_ends(b: BuilderView, events: Seq<EventView>)
    requires
        b.wf(),
    ensures
        run(b, events).len() <= 8 + b.variant.dependencies.len() - progress(b),
    decreases events.len(),
{
    if events.len() > 0 && !(b.phase is Finished) {
        lemma_step_advances(b, events[0]);
        lemma_construction_ends(step_of(b, events[0]).0, events.drop_first());
    }
}

/// The installation of the dependency with this index.
pub open spec fn install_of(dependencies: Seq<DependencyView>, index: int) -> ActionView {
    ActionView::InstallPackage(dependencies[index].name, dependencies[index].version)
}

/// An installation that a builder asks for is that of a dependency whose
/// phase still lies before the builder. The index of the dependency is
/// returned.
proof fn lemma_install_lies_ahead(b: BuilderView, events: Seq<EventView>, at: int) -> (index: int)
    requires
        b.wf(),
        0 <= at < run(b, events).len(),
        run(b, events)[at] is InstallPackage,
    ensures
        0 <= index < b.variant.dependencies.len(),
        progress(b) < 6 + index,
        run(b, events)[at] == install_of(b.variant.dependencies, index),
    decreases events.len(),
{
    let next = step_of(b, events[0]);
    let rest = events.drop_first();
    assert(run(b, events) == seq![next.1] + run(next.0, rest));
    lemma_step_advances(b, events[0]);
    if at == 0 {
        next.0.phase->AwaitInstall_0
    } else {
        assert(run(b, events)[at] == run(next.0, rest)[at - 1]);
        lemma_install_lies_ahead(next.0, rest, at - 1)
    }
}

/// Of two installations in one construction the later one is that of a
/// later dependency: whatever the events are, no dependency is installed
/// twice, and none before one that stands in front of it. The indices of the
/// two dependencies are returned.
pub proof fn lemma_installs_in_order(
    b: BuilderView,
    events: Seq<EventView>,
    earlier: int,
    later: int,
) -> (indices: (int, int))
    requires
        b.wf(),
        0 <= earlier < later < run(b, events).len(),
        run(b, events)[earlier] is InstallPackage,
        run(b, events)[later] is InstallPackage,
    ensures
        0 <= indices.0 < indices.1 < b.variant.dependencies.len(),
        run(b, events)[earlier] == install_of(b.variant.dependencies, indices.0),
        run(b, events)[later] == install_of(b.variant.dependencies, indices.1),
    decreases events.len(),
{
    let next = step_of(b, events[0]);
    let rest = events.drop_first();
    assert(run(b, events) == seq![next.1] + run(next.0, rest));
    lemma_step_advances(b, events[0]);
    assert(run(b, events)[later] == run(next.0, rest)[later - 1]);
    if earlier == 0 {
        let first = next.0.phase->AwaitInstall_0;
        let second = lemma_install_lies_ahead(next.0, rest, later - 1);
        (first, second)
    } else {
        assert(run(b, events)[earlier] == run(next.0, rest)[earlier - 1]);
        lemma_installs_in_order(next.0, rest, earlier - 1, later - 1)
    }
}

} // verus!
