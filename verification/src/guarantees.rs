//! What holds of every startup, whatever the outside world reports.
use vstd::prelude::*;
use syntect::parsing::SyntaxSet;
use crate::error::StartupErrorView;
use crate::path::{spec_candidate, ConfiguredView};
use crate::registry::SyntaxesView;
use crate::startup::{spec_step, ActionView, EventView, PhaseView};

verus! {

/// The phase reached from `start` after `events`, taken in order.
pub open spec fn phase_after(start: PhaseView, events: Seq<EventView>) -> PhaseView
    decreases events.len(),
{
    if events.len() == 0 {
        start
    } else {
        spec_step(phase_after(start, events.drop_last()), events.last()).0
    }
}

/// The action that answers the event at index `i` of a run from `start`.
pub open spec fn action_at(start: PhaseView, events: Seq<EventView>, i: int) -> ActionView
    recommends
        0 <= i < events.len(),
{
    spec_step(phase_after(start, events.take(i)), events[i]).1
}

/// The place of a phase in the order in which a startup moves.
pub open spec fn progress(phase: PhaseView) -> nat {
    match phase {
        PhaseView::Unconfigured => 0,
        PhaseView::Locating { .. } => 1,
        PhaseView::PathResolved { .. } => 2,
        PhaseView::RegistryInstalled { .. } => 3,
        PhaseView::Ready { .. } => 4,
        PhaseView::StartupAborted => 5,
    }
}

/// A registry has been handed over for installation.
pub open spec fn published(phase: PhaseView) -> bool {
    phase is RegistryInstalled || phase is Ready
}

/// A startup that was abandoned, or that has reached readiness, stays as
/// it is and asks for nothing more.
pub proof fn lemma_final_phases(phase: PhaseView, event: EventView)
    requires
        phase is StartupAborted || phase is Ready,
    ensures
        spec_step(phase, event) == (phase, ActionView::Nothing),
{
}

/// No event takes a startup back to an earlier phase.
pub proof fn lemma_step_never_goes_back(phase: PhaseView, event: EventView)
    ensures
        progress(phase) <= progress(spec_step(phase, event).0),
{
}

/// A registry is handed over only when the definitions of the resolved
/// directory were loaded, and it holds exactly what was loaded, with that
/// directory.
pub proof fn lemma_install_needs_loaded_definitions(phase: PhaseView, event: EventView)
    requires
        spec_step(phase, event).1 is Install,
    ensures
        phase is PathResolved,
        event matches EventView::Loaded(Ok(definitions)) && spec_step(phase, event) == (
            PhaseView::RegistryInstalled { path: phase->PathResolved_path },
            ActionView::Install(SyntaxesView { definitions, path: phase->PathResolved_path }),
        ),
{
}

/// A startup is abandoned exactly when an awaited outcome is a failure,
/// and then the failure is reported.
pub proof fn lemma_abort_reports_the_failure(phase: PhaseView, event: EventView)
    requires
        !(phase is StartupAborted),
    ensures
        spec_step(phase, event).0 is StartupAborted <==> spec_step(phase, event).1 is Abort,
        spec_step(phase, event).1 is Abort <==> {
            ||| phase is Unconfigured && (event matches EventView::Configuration { value, .. }
                && value is Malformed)
            ||| phase is Locating && (event matches EventView::Normalized(Err(_)))
            ||| phase is PathResolved && (event matches EventView::Loaded(Err(_)))
        },
{
}

/// The phases of a run are those of its parts.
pub proof fn lemma_phase_after_take(start: PhaseView, events: Seq<EventView>, i: int)
    requires
        0 <= i < events.len(),
    ensures
        phase_after(start, events.take(i + 1)) == spec_step(
            phase_after(start, events.take(i)),
            events[i],
        ).0,
{
    assert(events.take(i + 1).drop_last() =~= events.take(i));
}

/// Along a run, the startup only moves forward.
pub proof fn lemma_run_never_goes_back(start: PhaseView, events: Seq<EventView>, i: int, j: int)
    requires
        0 <= i <= j <= events.len(),
    ensures
        progress(phase_after(start, events.take(i))) <= progress(
            phase_after(start, events.take(j)),
        ),
    decreases j - i,
{
    if i < j {
        lemma_run_never_goes_back(start, events, i, j - 1);
        lemma_phase_after_take(start, events, j - 1);
        lemma_step_never_goes_back(phase_after(start, events.take(j - 1)), events[j - 1]);
    }
}

/// In one run the registry is handed over at most once.
pub proof fn lemma_installs_at_most_once(
    start: PhaseView,
    events: Seq<EventView>,
    i: int,
    j: int,
)
    requires
        0 <= i < events.len(),
        0 <= j < events.len(),
        action_at(start, events, i) is Install,
        action_at(start, events, j) is Install,
    ensures
        i == j,
{
    lemma_install_needs_loaded_definitions(phase_after(start, events.take(i)), events[i]);
    lemma_install_needs_loaded_definitions(phase_after(start, events.take(j)), events[j]);
    if i < j {
        lemma_phase_after_take(start, events, i);
        lemma_run_never_goes_back(start, events, i + 1, j);
    } else if j < i {
        lemma_phase_after_take(start, events, j);
        lemma_run_never_goes_back(start, events, j + 1, i);
    }
}

/// Once a startup is abandoned, nothing that is reported later brings it
/// back: it stays abandoned, and no registry is ever handed over.
pub proof fn lemma_aborted_never_installs(later: Seq<EventView>, i: int)
    requires
        0 <= i < later.len(),
    ensures
        phase_after(PhaseView::StartupAborted, later) is StartupAborted,
        action_at(PhaseView::StartupAborted, later, i) is Nothing,
{
    lemma_aborted_stays(later);
    lemma_aborted_stays(later.take(i));
}

/// An abandoned startup stays abandoned.
pub proof fn lemma_aborted_stays(later: Seq<EventView>)
    ensures
        phase_after(PhaseView::StartupAborted, later) is StartupAborted,
    decreases later.len(),
{
    if later.len() > 0 {
        lemma_aborted_stays(later.drop_last());
    }
}

/// A directory that cannot be normalized ends the startup: the failure is
/// reported with the directory that was tried, and whatever follows, no
/// registry is handed over.
pub proof fn lemma_unreachable_directory_aborts(
    candidate: Seq<char>,
    cause: Seq<char>,
    later: Seq<EventView>,
    i: int,
)
    requires
        0 <= i < later.len(),
    ensures
        spec_step(PhaseView::Locating { candidate }, EventView::Normalized(Err(cause))) == (
            PhaseView::StartupAborted,
            ActionView::Abort(StartupErrorView::Normalization { path: candidate, cause }),
        ),
        phase_after(
            spec_step(PhaseView::Locating { candidate }, EventView::Normalized(Err(cause))).0,
            later,
        ) is StartupAborted,
        !(action_at(
            spec_step(PhaseView::Locating { candidate }, EventView::Normalized(Err(cause))).0,
            later,
            i,
        ) is Install),
{
    lemma_aborted_never_installs(later, i);
}

/// A directory that cannot be loaded as a whole ends the startup: the
/// failure is reported with the directory as it was chosen, and whatever
/// follows, no registry is handed over, not even of the definitions that
/// are sound.
pub proof fn lemma_unloadable_directory_aborts(
    candidate: Seq<char>,
    path: Seq<char>,
    cause: Seq<char>,
    later: Seq<EventView>,
    i: int,
)
    requires
        0 <= i < later.len(),
    ensures
        spec_step(PhaseView::PathResolved { candidate, path }, EventView::Loaded(Err(cause))) == (
            PhaseView::StartupAborted,
            ActionView::Abort(StartupErrorView::Parse { path: candidate, cause }),
        ),
        phase_after(
            spec_step(PhaseView::PathResolved { candidate, path }, EventView::Loaded(Err(cause))).0,
            later,
        ) is StartupAborted,
        !(action_at(
            spec_step(PhaseView::PathResolved { candidate, path }, EventView::Loaded(Err(cause))).0,
            later,
            i,
        ) is Install),
{
    lemma_aborted_never_installs(later, i);
}

/// Where the setting is not malformed, the chosen directory normalizes to
/// `path` and its definitions load, the startup asks in turn to normalize
/// the chosen directory, to load `path`, and to install exactly the loaded
/// definitions together with `path`.
pub proof fn lemma_sound_directory_installs(
    root: Seq<char>,
    value: ConfiguredView,
    path: Seq<char>,
    definitions: SyntaxSet,
)
    requires
        !(value is Malformed),
    ensures
        ({
            let events = seq![
                EventView::Configuration { root, value },
                EventView::Normalized(Ok(path)),
                EventView::Loaded(Ok(definitions)),
            ];
            &&& spec_candidate(root, value) matches Ok(chosen)
            &&& action_at(PhaseView::Unconfigured, events, 0) == (ActionView::Normalize {
                path: chosen,
            })
            &&& action_at(PhaseView::Unconfigured, events, 1) == (ActionView::Load { path })
            &&& action_at(PhaseView::Unconfigured, events, 2) == ActionView::Install(
                SyntaxesView { definitions, path },
            )
            &&& phase_after(PhaseView::Unconfigured, events) == (PhaseView::RegistryInstalled {
                path,
            })
        }),
{
    let events = seq![
        EventView::Configuration { root, value },
        EventView::Normalized(Ok(path)),
        EventView::Loaded(Ok(definitions)),
    ];
    let start = PhaseView::Unconfigured;
    assert(events.take(0) =~= Seq::<EventView>::empty());
    assert(phase_after(start, events.take(0)) == start);
    lemma_phase_after_take(start, events, 0);
    lemma_phase_after_take(start, events, 1);
    lemma_phase_after_take(start, events, 2);
    assert(events.take(3) =~= events);
}

/// The registry of a successful startup is made of the resolved directory
/// and of the definitions loaded from it, and of nothing else: two
/// startups that agree on these install the same registry, however each
/// was configured.
pub proof fn lemma_registry_depends_on_the_directory_alone(
    first: (Seq<char>, ConfiguredView),
    second: (Seq<char>, ConfiguredView),
    path: Seq<char>,
    definitions: SyntaxSet,
)
    requires
        !(first.1 is Malformed),
        !(second.1 is Malformed),
    ensures
        action_at(
            PhaseView::Unconfigured,
            seq![
                EventView::Configuration { root: first.0, value: first.1 },
                EventView::Normalized(Ok(path)),
                EventView::Loaded(Ok(definitions)),
            ],
            2,
        ) == action_at(
            PhaseView::Unconfigured,
            seq![
                EventView::Configuration { root: second.0, value: second.1 },
                EventView::Normalized(Ok(path)),
                EventView::Loaded(Ok(definitions)),
            ],
            2,
        ),
{
    lemma_sound_directory_installs(first.0, first.1, path, definitions);
    lemma_sound_directory_installs(second.0, second.1, path, definitions);
}

/// In a run from the beginning, a registry has been handed over exactly
/// when the startup has reached installation or readiness.
pub proof fn lemma_published_iff_installed(events: Seq<EventView>)
    ensures
        published(phase_after(PhaseView::Unconfigured, events)) <==> exists|i: int|
            0 <= i < events.len() && #[trigger] action_at(PhaseView::Unconfigured, events, i)
                is Install,
    decreases events.len(),
{
    let start = PhaseView::Unconfigured;
    if events.len() == 0 {
    } else {
        let n = events.len() - 1;
        let before = events.drop_last();
        lemma_published_iff_installed(before);
        assert(events.take(n) =~= before);
        assert forall|i: int| 0 <= i < n implies #[trigger] action_at(start, events, i)
            == action_at(start, before, i) by {
            assert(events.take(i) =~= before.take(i));
        }
        let prev = phase_after(start, before);
        lemma_step_never_goes_back(prev, events.last());
        if published(phase_after(start, events)) {
            if published(prev) {
                let i = choose|i: int|
                    0 <= i < before.len() && #[trigger] action_at(start, before, i) is Install;
                assert(action_at(start, events, i) is Install);
            } else {
                assert(action_at(start, events, n) is Install);
            }
        }
        if exists|i: int|
            0 <= i < events.len() && #[trigger] action_at(start, events, i) is Install {
            let i = choose|i: int|
                0 <= i < events.len() && #[trigger] action_at(start, events, i) is Install;
            if i < n {
                assert(action_at(start, before, i) is Install);
                assert(published(prev));
            }
        }
    }
}

} // verus!
