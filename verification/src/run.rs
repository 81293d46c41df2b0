//! Whole runs: what holds of the answers to any sequence of events, taken
//! from the start of a run.

use vstd::prelude::*;
use crate::config::settings_of;
use crate::endpoint::resolved_target;
use crate::payload::{display_name_of, path_display_name, FilePayloadView};
use crate::session::{
    lemma_exit_signal, lemma_step_leads_on, progress, step, truthful, ActionView, EventView,
    FatalView, PhaseView,
};
use crate::upload::UploadRequestView;

verus! {

/// The phase reached from `phase` once `events` have arrived, in order.
pub open spec fn phase_after(phase: PhaseView, events: Seq<EventView>) -> PhaseView
    decreases events.len(),
{
    if events.len() == 0 {
        phase
    } else {
        step(phase_after(phase, events.drop_last()), events.last()).0
    }
}

/// The action that answers the event at position `at` of a run that began in
/// `phase`.
pub open spec fn action_at(phase: PhaseView, events: Seq<EventView>, at: int) -> ActionView
    recommends
        0 <= at < events.len(),
{
    step(phase_after(phase, events.take(at)), events[at]).1
}

/// The phase after one more event is one step from the phase before it.
proof fn lemma_phase_after_next(phase: PhaseView, events: Seq<EventView>, at: int)
    requires
        0 <= at < events.len(),
    ensures
        phase_after(phase, events.take(at + 1)) == step(
            phase_after(phase, events.take(at)),
            events[at],
        ).0,
{
    assert(events.take(at + 1).drop_last() =~= events.take(at));
    assert(events.take(at + 1).last() == events[at]);
}

/// Progress never goes back over a run.
proof fn lemma_progress_monotone(phase: PhaseView, events: Seq<EventView>, from: int, to: int)
    requires
        0 <= from <= to <= events.len(),
    ensures
        progress(phase_after(phase, events.take(from))) <= progress(
            phase_after(phase, events.take(to)),
        ),
    decreases to - from,
{
    if from < to {
        lemma_progress_monotone(phase, events, from, to - 1);
        lemma_phase_after_next(phase, events, to - 1);
        lemma_step_leads_on(phase_after(phase, events.take(to - 1)), events[to - 1]);
    }
}

/// Once a run is over it stays over, with the same signal, whatever arrives.
proof fn lemma_done_stays(phase: PhaseView, events: Seq<EventView>, from: int, to: int)
    requires
        0 <= from <= to <= events.len(),
        phase_after(phase, events.take(from)) is Done,
    ensures
        phase_after(phase, events.take(to)) == phase_after(phase, events.take(from)),
    decreases to - from,
{
    if from < to {
        lemma_done_stays(phase, events, from, to - 1);
        lemma_phase_after_next(phase, events, to - 1);
    }
}

/// A run only moves forward: an event that is answered with anything but
/// `Ignore` leaves every later event a phase that is further on.
pub proof fn lemma_run_moves_forward(events: Seq<EventView>, earlier: int, later: int)
    requires
        0 <= earlier < later < events.len(),
        !(action_at(PhaseView::LoadingConfig, events, earlier) is Ignore),
    ensures
        progress(phase_after(PhaseView::LoadingConfig, events.take(earlier))) < progress(
            phase_after(PhaseView::LoadingConfig, events.take(later)),
        ),
{
    let start = PhaseView::LoadingConfig;
    lemma_step_leads_on(phase_after(start, events.take(earlier)), events[earlier]);
    lemma_phase_after_next(start, events, earlier);
    lemma_progress_monotone(start, events, earlier + 1, later);
}

/// A run sends at most one request, whatever events arrive and in whatever
/// order: two positions that are both answered with `Send` are the same.
pub proof fn lemma_at_most_one_request(events: Seq<EventView>, first: int, second: int)
    requires
        0 <= first < events.len(),
        0 <= second < events.len(),
        action_at(PhaseView::LoadingConfig, events, first) is Send,
        action_at(PhaseView::LoadingConfig, events, second) is Send,
    ensures
        first == second,
{
    let start = PhaseView::LoadingConfig;
    lemma_step_leads_on(phase_after(start, events.take(first)), events[first]);
    lemma_step_leads_on(phase_after(start, events.take(second)), events[second]);
    if first < second {
        lemma_run_moves_forward(events, first, second);
    } else if second < first {
        lemma_run_moves_forward(events, second, first);
    }
}

/// The log level is set once, before any other work: `Prepare` answers at
/// most one event of a run, and every other action that is not `Ignore` comes
/// after it.
pub proof fn lemma_log_level_set_once_and_first(events: Seq<EventView>, prepared: int, other: int)
    requires
        0 <= prepared < events.len(),
        0 <= other < events.len(),
        prepared != other,
        action_at(PhaseView::LoadingConfig, events, prepared) is Prepare,
        !(action_at(PhaseView::LoadingConfig, events, other) is Ignore),
    ensures
        prepared < other,
        !(action_at(PhaseView::LoadingConfig, events, other) is Prepare),
{
    let start = PhaseView::LoadingConfig;
    lemma_step_leads_on(phase_after(start, events.take(prepared)), events[prepared]);
    lemma_step_leads_on(phase_after(start, events.take(other)), events[other]);
    if other < prepared {
        lemma_run_moves_forward(events, other, prepared);
    } else {
        lemma_run_moves_forward(events, prepared, other);
    }
}

/// While the command line is awaited, the endpoint held is that of the
/// settings which followed from the configuration event that was taken.
proof fn lemma_settings_origin(events: Seq<EventView>, upto: int) -> (config_at: int)
    requires
        0 <= upto <= events.len(),
        phase_after(PhaseView::LoadingConfig, events.take(upto)) is AwaitingInvocation,
    ensures
        0 <= config_at < upto,
        events[config_at] matches EventView::ConfigLoaded(loaded) && phase_after(
            PhaseView::LoadingConfig,
            events.take(upto),
        ) == (PhaseView::AwaitingInvocation { endpoint: settings_of(loaded).endpoint }),
    decreases upto,
{
    let start = PhaseView::LoadingConfig;
    if upto == 0 {
        0
    } else {
        lemma_phase_after_next(start, events, upto - 1);
        if phase_after(start, events.take(upto - 1)) is LoadingConfig {
            upto - 1
        } else {
            lemma_settings_origin(events, upto - 1)
        }
    }
}

/// While the file is read, target and display name are those that followed
/// from the command line event that was taken and the settings before it.
proof fn lemma_target_origin(events: Seq<EventView>, upto: int) -> (found: (int, int))
    requires
        0 <= upto <= events.len(),
        phase_after(PhaseView::LoadingConfig, events.take(upto)) is ReadingFile,
    ensures
        0 <= found.0 < found.1 < upto,
        phase_after(PhaseView::LoadingConfig, events.take(found.1)) is AwaitingInvocation,
        events[found.0] matches EventView::ConfigLoaded(loaded) && events[found.1]
            matches EventView::Invoked { url, final_segment, .. } && phase_after(
            PhaseView::LoadingConfig,
            events.take(upto),
        ) == (PhaseView::ReadingFile {
            target: resolved_target(url, settings_of(loaded).endpoint),
            name: display_name_of(final_segment),
        }),
    decreases upto,
{
    let start = PhaseView::LoadingConfig;
    if upto == 0 {
        (0, 0)
    } else {
        lemma_phase_after_next(start, events, upto - 1);
        if phase_after(start, events.take(upto - 1)) is AwaitingInvocation {
            let config_at = lemma_settings_origin(events, upto - 1);
            (config_at, upto - 1)
        } else {
            lemma_target_origin(events, upto - 1)
        }
    }
}

/// Whatever is sent was fixed by what the run took in, before the network was
/// touched. Where a run sends a request, three events were taken in this
/// order: the configuration at `found.0`, the command line at `found.1`, and
/// the file's bytes at `at`. The request goes to the target resolved from the
/// command line's address and the endpoint of the settings, and carries those
/// bytes under the display name of the path's final segment.
pub proof fn lemma_request_is_derived(events: Seq<EventView>, at: int) -> (found: (int, int))
    requires
        0 <= at < events.len(),
        action_at(PhaseView::LoadingConfig, events, at) is Send,
    ensures
        0 <= found.0 < found.1 < at,
        events[found.0] matches EventView::ConfigLoaded(loaded) && events[found.1]
            matches EventView::Invoked { url, final_segment, .. } && events[at]
            matches EventView::FileRead(Ok(bytes)) && action_at(PhaseView::LoadingConfig, events, at)
            == ActionView::Send(
            UploadRequestView {
                url: resolved_target(url, settings_of(loaded).endpoint),
                payload: FilePayloadView { bytes, name: display_name_of(final_segment) },
            },
        ),
{
    lemma_step_leads_on(phase_after(PhaseView::LoadingConfig, events.take(at)), events[at]);
    lemma_target_origin(events, at)
}

/// The file that is sent is the file that was named, under its own name.
/// Where a run sends a request and the command line event it took, at
/// `invoked_at`, is truthful, the file that was then asked to be read is the
/// one at the command line's path, and the request carries the display name
/// of that very path: its final segment, or the fallback where it has none.
pub proof fn lemma_request_names_the_file(events: Seq<EventView>, at: int) -> (invoked_at: int)
    requires
        0 <= at < events.len(),
        action_at(PhaseView::LoadingConfig, events, at) is Send,
        forall|i: int| 0 <= i < events.len() ==> truthful(#[trigger] events[i]),
    ensures
        0 <= invoked_at < at,
        events[invoked_at] matches EventView::Invoked { file_path, .. } && action_at(
            PhaseView::LoadingConfig,
            events,
            at,
        ) matches ActionView::Send(request) && request.payload.name == path_display_name(file_path)
            && action_at(PhaseView::LoadingConfig, events, invoked_at) == (ActionView::ReadFile {
            path: file_path,
        }),
{
    lemma_step_leads_on(phase_after(PhaseView::LoadingConfig, events.take(at)), events[at]);
    let found = lemma_target_origin(events, at);
    assert(truthful(events[found.1]));
    found.1
}

/// A file that cannot be read ends the run with an I/O failure, and no request
/// is sent at any point of that run, before or after.
pub proof fn lemma_unreadable_file_sends_nothing(events: Seq<EventView>, failed_at: int, at: int)
    requires
        0 <= failed_at < events.len(),
        0 <= at < events.len(),
        phase_after(PhaseView::LoadingConfig, events.take(failed_at)) is ReadingFile,
        events[failed_at] matches EventView::FileRead(Err(_)),
    ensures
        !(action_at(PhaseView::LoadingConfig, events, at) is Send),
        events[failed_at] matches EventView::FileRead(Err(message)) && action_at(
            PhaseView::LoadingConfig,
            events,
            failed_at,
        ) == ActionView::Abort(FatalView::Io(message)),
        phase_after(PhaseView::LoadingConfig, events) == (PhaseView::Done { failed: true }),
{
    let start = PhaseView::LoadingConfig;
    let over = PhaseView::Done { failed: true };
    assert(phase_after(start, events.take(failed_at + 1)) == over) by {
        lemma_phase_after_next(start, events, failed_at);
    }
    assert(phase_after(start, events) == over) by {
        lemma_done_stays(start, events, failed_at + 1, events.len() as int);
        assert(events.take(events.len() as int) =~= events);
    }
    if at < failed_at {
        if action_at(start, events, at) is Send {
            lemma_run_moves_forward(events, at, failed_at);
            lemma_step_leads_on(phase_after(start, events.take(at)), events[at]);
        }
    } else if at > failed_at {
        assert(phase_after(start, events.take(at)) == over) by {
            lemma_done_stays(start, events, failed_at + 1, at);
        }
    }
}

/// A run that is over was ended by exactly one answer, at `ended_at`: by
/// `Abort` where it signals failure, by `Tell` where it does not. Whatever
/// arrived later was ignored.
pub proof fn lemma_run_end(events: Seq<EventView>) -> (ended_at: int)
    requires
        phase_after(PhaseView::LoadingConfig, events) is Done,
    ensures
        0 <= ended_at < events.len(),
        phase_after(PhaseView::LoadingConfig, events) == (PhaseView::Done { failed: true })
            <==> action_at(PhaseView::LoadingConfig, events, ended_at) is Abort,
        phase_after(PhaseView::LoadingConfig, events) == (PhaseView::Done { failed: false })
            <==> action_at(PhaseView::LoadingConfig, events, ended_at) is Tell,
        forall|later: int|
            ended_at < later < events.len() ==> #[trigger] action_at(
                PhaseView::LoadingConfig,
                events,
                later,
            ) is Ignore,
{
    let start = PhaseView::LoadingConfig;
    assert(events.take(events.len() as int) =~= events);
    let ended_at = lemma_end_position(events, events.len() as int);
    assert forall|later: int| ended_at < later < events.len() implies #[trigger] action_at(
        start,
        events,
        later,
    ) is Ignore by {
        lemma_done_stays(start, events, ended_at + 1, later);
    }
    ended_at
}

/// The position at which a run that is over after `upto` events was ended.
proof fn lemma_end_position(events: Seq<EventView>, upto: int) -> (ended_at: int)
    requires
        0 <= upto <= events.len(),
        phase_after(PhaseView::LoadingConfig, events.take(upto)) is Done,
    ensures
        0 <= ended_at < upto,
        !(phase_after(PhaseView::LoadingConfig, events.take(ended_at)) is Done),
        phase_after(PhaseView::LoadingConfig, events.take(ended_at + 1)) == phase_after(
            PhaseView::LoadingConfig,
            events.take(upto),
        ),
        phase_after(PhaseView::LoadingConfig, events.take(upto)) == (PhaseView::Done {
            failed: true,
        }) <==> action_at(PhaseView::LoadingConfig, events, ended_at) is Abort,
        phase_after(PhaseView::LoadingConfig, events.take(upto)) == (PhaseView::Done {
            failed: false,
        }) <==> action_at(PhaseView::LoadingConfig, events, ended_at) is Tell,
    decreases upto,
{
    let start = PhaseView::LoadingConfig;
    if upto == 0 {
        0
    } else {
        lemma_phase_after_next(start, events, upto - 1);
        if phase_after(start, events.take(upto - 1)) is Done {
            lemma_end_position(events, upto - 1)
        } else {
            lemma_exit_signal(phase_after(start, events.take(upto - 1)), events[upto - 1]);
            upto - 1
        }
    }
}

} // verus!
