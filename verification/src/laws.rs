//! Pipeline-wide guarantees, proved over the transition relation
//! [`spec_step`]: the runtime precondition precedes every filesystem
//! mutation, the probe outcome never changes the pipeline's course,
//! an empty API URL is rejected before any fetch work, the mode alone
//! selects the compose definition, and every mutation of the
//! installation tree is preceded by the clean-slate directory
//! preparation.

use vstd::prelude::*;

verus! {

use crate::Mode;
use crate::commands::compose_up_args;
use crate::pipeline::ActionView;
use crate::pipeline::Event;
use crate::pipeline::InstallError;
use crate::pipeline::Pipeline;
use crate::pipeline::Stage;
use crate::pipeline::spec_init;
use crate::pipeline::spec_step;
use crate::pipeline::subdirectory_name;
use crate::probe::ProbeOutcome;

/// Actions that mutate the filesystem: recreating the installation
/// directory, running a command inside it (every such command writes
/// to it), writing a file, or moving entries. Precondition queries,
/// prompts, probes and listings mutate nothing.
pub open spec fn is_tree_mutating(a: ActionView) -> bool {
    match a {
        ActionView::RunInDir { .. } => true,
        ActionView::PrepareDirectory { .. } => true,
        ActionView::WriteFileInDir { .. } => true,
        ActionView::RelocateEntries { .. } => true,
        _ => false,
    }
}

/// Whether `a` is the clean-slate directory preparation.
pub open spec fn is_directory_preparation(a: ActionView) -> bool {
    a matches ActionView::PrepareDirectory { .. }
}

/// Stages only reachable once both runtime precondition queries have
/// succeeded.
pub open spec fn is_past_runtime_check(st: Stage) -> bool {
    match st {
        Stage::ResolvingInstallDir => false,
        Stage::CheckingRuntimeVersion => false,
        Stage::CheckingRuntimeDaemon => false,
        Stage::Failed => false,
        _ => true,
    }
}

/// Stages only reachable once the directory preparation action has
/// been emitted.
pub open spec fn is_past_directory_preparation(st: Stage) -> bool {
    match st {
        Stage::ResolvingInstallDir => false,
        Stage::CheckingRuntimeVersion => false,
        Stage::CheckingRuntimeDaemon => false,
        Stage::AwaitingApiUrl => false,
        Stage::Probing => false,
        Stage::Failed => false,
        _ => true,
    }
}

/// The state after feeding `events` to a pipeline in state `s`.
pub open spec fn run_state(s: Pipeline, events: Seq<Event>) -> Pipeline
    decreases events.len(),
{
    if events.len() == 0 {
        s
    } else {
        spec_step(run_state(s, events.drop_last()), events.last()).0
    }
}

/// The action emitted when the `i`-th event of `events` is consumed.
pub open spec fn emitted_action(s: Pipeline, events: Seq<Event>, i: int) -> ActionView {
    spec_step(run_state(s, events.take(i)), events[i]).1
}

/// A single step emits a filesystem-mutating action only from a stage
/// that lies past the successful runtime check.
pub proof fn lemma_mutation_only_past_runtime_check(s: Pipeline, e: Event)
    ensures
        is_tree_mutating(spec_step(s, e).1) ==> is_past_runtime_check(s.stage),
{
}

/// A single step emits a mutating action other than the directory
/// preparation only from a stage past the directory preparation.
pub proof fn lemma_other_mutation_past_preparation(s: Pipeline, e: Event)
    ensures
        is_tree_mutating(spec_step(s, e).1) && !is_directory_preparation(spec_step(s, e).1)
            ==> is_past_directory_preparation(s.stage),
{
}

/// Reaching a stage past the runtime check requires a successful
/// daemon-status event somewhere in the consumed prefix.
proof fn lemma_past_runtime_has_daemon_ok(s: Pipeline, events: Seq<Event>)
    requires
        !is_past_runtime_check(s.stage),
    ensures
        is_past_runtime_check(run_state(s, events).stage) ==> exists|j: int|
            0 <= j < events.len() && events[j] == Event::RuntimeDaemonChecked(true),
    decreases events.len(),
{
    if events.len() == 0 {
    } else {
        lemma_past_runtime_has_daemon_ok(s, events.drop_last());
        let prev = run_state(s, events.drop_last());
        if is_past_runtime_check(run_state(s, events).stage) {
            if is_past_runtime_check(prev.stage) {
                let j = choose|j: int|
                    0 <= j < events.drop_last().len() && events.drop_last()[j]
                        == Event::RuntimeDaemonChecked(true);
                assert(events[j] == Event::RuntimeDaemonChecked(true));
            } else {
                assert(events.last() == Event::RuntimeDaemonChecked(true));
                assert(events[events.len() - 1] == Event::RuntimeDaemonChecked(true));
            }
        }
    }
}

/// Reaching a stage past the directory preparation requires the
/// preparation action to have been emitted in the consumed prefix.
proof fn lemma_past_preparation_has_prepare_action(s: Pipeline, events: Seq<Event>)
    requires
        !is_past_directory_preparation(s.stage),
    ensures
        is_past_directory_preparation(run_state(s, events).stage) ==> exists|j: int|
            0 <= j < events.len() && is_directory_preparation(emitted_action(s, events, j)),
    decreases events.len(),
{
    if events.len() == 0 {
    } else {
        lemma_past_preparation_has_prepare_action(s, events.drop_last());
        let prev = run_state(s, events.drop_last());
        if is_past_directory_preparation(run_state(s, events).stage) {
            if is_past_directory_preparation(prev.stage) {
                let j = choose|j: int|
                    0 <= j < events.drop_last().len() && is_directory_preparation(
                        emitted_action(s, events.drop_last(), j),
                    );
                assert(events.drop_last().take(j) =~= events.take(j));
                assert(events[j] == events.drop_last()[j]);
                assert(is_directory_preparation(emitted_action(s, events, j)));
            } else {
                let n = events.len() - 1;
                assert(events.take(n) =~= events.drop_last());
                assert(events[n] == events.last());
                assert(is_directory_preparation(emitted_action(s, events, n)));
            }
        }
    }
}

/// Law: the runtime precondition fails fast. No filesystem-mutating
/// action — in particular no deletion of a prior installation — is
/// ever emitted before the runtime daemon check has reported success.
pub proof fn lemma_runtime_checked_before_any_mutation(
    mode: Mode,
    api_url: Option<String>,
    events: Seq<Event>,
    i: int,
)
    requires
        0 <= i < events.len(),
        is_tree_mutating(emitted_action(spec_init(mode, api_url), events, i)),
    ensures
        exists|j: int| 0 <= j < i && events[j] == Event::RuntimeDaemonChecked(true),
{
    let s0 = spec_init(mode, api_url);
    lemma_mutation_only_past_runtime_check(run_state(s0, events.take(i)), events[i]);
    lemma_past_runtime_has_daemon_ok(s0, events.take(i));
    let j = choose|j: int|
        0 <= j < events.take(i).len() && events.take(i)[j] == Event::RuntimeDaemonChecked(true);
    assert(events[j] == Event::RuntimeDaemonChecked(true));
}

/// Law: the probe never aborts the pipeline. Whatever the outcome,
/// the successor state is the same and the pipeline proceeds to the
/// directory preparation.
pub proof fn lemma_probe_outcome_never_aborts(s: Pipeline, o1: ProbeOutcome, o2: ProbeOutcome)
    requires
        s.stage is Probing,
    ensures
        spec_step(s, Event::ProbeCompleted(o1)).0.stage is PreparingDirectory,
        spec_step(s, Event::ProbeCompleted(o1)).0 == spec_step(s, Event::ProbeCompleted(o2)).0,
        spec_step(s, Event::ProbeCompleted(o1)).1 == spec_step(s, Event::ProbeCompleted(o2)).1,
{
}

/// Law: an API URL supplied empty is rejected as soon as the runtime
/// check completes, before any further step.
pub proof fn lemma_empty_supplied_url_rejected(s: Pipeline)
    requires
        s.stage is CheckingRuntimeDaemon,
        s.api_url matches Some(u) && u@.len() == 0,
    ensures
        spec_step(s, Event::RuntimeDaemonChecked(true)).0.stage is Failed,
        spec_step(s, Event::RuntimeDaemonChecked(true)).1 == ActionView::Fail(
            InstallError::EmptyApiUrl,
        ),
{
}

/// Law: an API URL entered empty at the prompt is rejected likewise.
pub proof fn lemma_empty_entered_url_rejected(s: Pipeline, url: String)
    requires
        s.stage is AwaitingApiUrl,
        url@.len() == 0,
    ensures
        spec_step(s, Event::ApiUrlEntered(url)).0.stage is Failed,
        spec_step(s, Event::ApiUrlEntered(url)).1 == ActionView::Fail(InstallError::EmptyApiUrl),
{
}

/// With an empty supplied URL the pipeline never leaves the
/// precondition stages.
proof fn lemma_empty_url_confines(mode: Mode, url: String, events: Seq<Event>)
    requires
        url@.len() == 0,
    ensures
        ({
            let s = run_state(spec_init(mode, Some(url)), events);
            &&& s.api_url == Some(url)
            &&& (s.stage is ResolvingInstallDir || s.stage is CheckingRuntimeVersion
                || s.stage is CheckingRuntimeDaemon || s.stage is Failed)
        }),
    decreases events.len(),
{
    if events.len() == 0 {
    } else {
        lemma_empty_url_confines(mode, url, events.drop_last());
    }
}

/// Law: with an empty supplied URL, no fetch step — indeed no
/// filesystem mutation at all — is ever performed.
pub proof fn lemma_empty_supplied_url_never_fetches(
    mode: Mode,
    url: String,
    events: Seq<Event>,
    i: int,
)
    requires
        url@.len() == 0,
        0 <= i < events.len(),
    ensures
        !is_tree_mutating(emitted_action(spec_init(mode, Some(url)), events, i)),
{
    let s0 = spec_init(mode, Some(url));
    lemma_empty_url_confines(mode, url, events.take(i));
    lemma_mutation_only_past_runtime_check(run_state(s0, events.take(i)), events[i]);
}

/// Law: the sparse-checkout specification written for the fetched
/// subdirectory is exactly its name followed by `/*` and a newline.
pub proof fn lemma_sparse_spec_exact(s: Pipeline, diagnostic: String)
    requires
        s.stage is EnablingSparseCheckout,
    ensures
        ({
            let a = spec_step(s, Event::CommandFinished { success: true, diagnostic }).1;
            a matches ActionView::WriteFileInDir { relative_path, contents, .. }
                && relative_path == ".git/info/sparse-checkout"@ && contents == "web/*\n"@
        }),
{
    reveal_strlit("web");
    reveal_strlit("/*\n");
    reveal_strlit("web/*\n");
    assert(subdirectory_name() + "/*\n"@ =~= "web/*\n"@);
}

/// Law: the mode alone selects the compose definition passed to the
/// service launcher — the development filename in development mode,
/// the production filename otherwise.
pub proof fn lemma_mode_selects_compose_definition(s: Pipeline)
    requires
        s.stage is WritingConfig,
    ensures
        ({
            let a = spec_step(s, Event::EnvFileWritten(true)).1;
            &&& s.mode is Development ==> (a matches ActionView::RunInDir { args, .. } && args
                == compose_up_args("docker-compose.dev.yml"@))
            &&& s.mode is Production ==> (a matches ActionView::RunInDir { args, .. } && args
                == compose_up_args("docker-compose.prod.yml"@))
        }),
{
}

/// Law: the flatten step moves exactly the fetched subdirectory
/// entries that do not collide with an entry already at the root —
/// the root keeps its version-control metadata, and nothing else of
/// the subdirectory is left behind.
pub proof fn lemma_relocation_moves_exactly_noncolliding(
    s: Pipeline,
    subdir_entries: Vec<String>,
    root_entries: Vec<String>,
)
    requires
        s.stage is ListingSubdirectory,
    ensures
        ({
            let e = Event::SubdirectoryListed { present: true, subdir_entries, root_entries };
            spec_step(s, e).1 matches ActionView::RelocateEntries { entries, .. }
                && (forall|x: Seq<char>|
                    #[trigger] entries.contains(x) <==> subdir_entries.deep_view().contains(x)
                        && !root_entries.deep_view().contains(x))
        }),
{
    crate::fetch::lemma_relocation_plan_exact(
        subdir_entries.deep_view(),
        root_entries.deep_view(),
    );
}

/// The directory an action works in: the prepared path, the working
/// directory of an in-directory command, the directory written into,
/// listed, or flattened.
pub open spec fn action_target(a: ActionView) -> Option<Seq<char>> {
    match a {
        ActionView::RunInDir { dir, .. } => Some(dir),
        ActionView::PrepareDirectory { path } => Some(path),
        ActionView::WriteFileInDir { dir, .. } => Some(dir),
        ActionView::ListSubdirectory { dir, .. } => Some(dir),
        ActionView::RelocateEntries { dir, .. } => Some(dir),
        _ => None,
    }
}

/// A single step only works in the directory the state holds.
pub proof fn lemma_target_is_stored_dir(s: Pipeline, e: Event)
    ensures
        action_target(spec_step(s, e).1) matches Some(t) ==> t
            == crate::pipeline::spec_install_dir_or_empty(s),
{
}

/// Once resolved, the installation directory never changes, and the
/// resolution stage is never revisited.
proof fn lemma_install_dir_stable(s: Pipeline, events: Seq<Event>)
    requires
        !(s.stage is ResolvingInstallDir),
    ensures
        run_state(s, events).install_dir == s.install_dir,
        !(run_state(s, events).stage is ResolvingInstallDir),
    decreases events.len(),
{
    if events.len() == 0 {
    } else {
        lemma_install_dir_stable(s, events.drop_last());
    }
}

/// Running a pipeline over a prepended event first consumes that
/// event.
proof fn lemma_run_state_prepend(s: Pipeline, e: Event, events: Seq<Event>)
    ensures
        run_state(s, seq![e] + events) == run_state(spec_step(s, e).0, events),
    decreases events.len(),
{
    if events.len() == 0 {
        assert(seq![e] + events =~= seq![e]);
        assert(seq![e].drop_last() =~= Seq::<Event>::empty());
        assert(seq![e].last() == e);
        assert(run_state(s, Seq::<Event>::empty()) == s);
        assert(run_state(s, seq![e]) == spec_step(s, e).0);
    } else {
        lemma_run_state_prepend(s, e, events.drop_last());
        assert((seq![e] + events).drop_last() =~= seq![e] + events.drop_last());
        assert((seq![e] + events).last() == events.last());
    }
}

/// Law: one installation directory. Every action that works in a
/// directory works in the one delivered by the initial resolution —
/// the fixed subdirectory of the user's home directory.
pub proof fn lemma_actions_target_resolved_directory(
    mode: Mode,
    api_url: Option<String>,
    dir: String,
    events: Seq<Event>,
    i: int,
)
    requires
        events.len() > 0,
        events[0] == Event::InstallDirResolved(Some(dir)),
        1 <= i < events.len(),
    ensures
        action_target(emitted_action(spec_init(mode, api_url), events, i)) matches Some(t) ==> t
            == dir@,
{
    let s0 = spec_init(mode, api_url);
    let s1 = spec_step(s0, events[0]).0;
    assert(s1.install_dir == Some(dir));
    let prefix = events.take(i);
    assert(prefix =~= seq![events[0]] + prefix.skip(1));
    lemma_run_state_prepend(s0, events[0], prefix.skip(1));
    lemma_install_dir_stable(s1, prefix.skip(1));
    lemma_target_is_stored_dir(run_state(s0, prefix), events[i]);
}

/// Law: every install is a clean reinstall. Any action that mutates
/// the installation tree, other than the preparation itself, is
/// preceded by the clean-slate directory preparation — so the
/// resulting tree never depends on what stood at the path before.
pub proof fn lemma_clean_slate_before_tree_mutation(
    mode: Mode,
    api_url: Option<String>,
    events: Seq<Event>,
    i: int,
)
    requires
        0 <= i < events.len(),
        is_tree_mutating(emitted_action(spec_init(mode, api_url), events, i)),
        !is_directory_preparation(emitted_action(spec_init(mode, api_url), events, i)),
    ensures
        exists|j: int|
            0 <= j < i && is_directory_preparation(
                emitted_action(spec_init(mode, api_url), events, j),
            ),
{
    let s0 = spec_init(mode, api_url);
    lemma_other_mutation_past_preparation(run_state(s0, events.take(i)), events[i]);
    lemma_past_preparation_has_prepare_action(s0, events.take(i));
    let j = choose|j: int|
        0 <= j < events.take(i).len() && is_directory_preparation(
            emitted_action(s0, events.take(i), j),
        );
    assert(events.take(i).take(j) =~= events.take(j));
    assert(events.take(i)[j] == events[j]);
    assert(is_directory_preparation(emitted_action(s0, events, j)));
}

} // verus!
