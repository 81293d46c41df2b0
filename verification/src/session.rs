//! One run from start to end, as a machine: every outcome of work done
//! outside (loading the configuration, reading the command line and the file,
//! the network call) comes in as an event, and the machine answers with the
//! next thing to do.

use vstd::prelude::*;
use std::path::PathBuf;
use crate::config::{
    effective_settings, loaded_view, settings_of, ConfigUnavailable, Configuration,
    ConfigurationView, CONFIG_FILE_NAME,
};
use crate::endpoint::{resolve, resolved_target};
use crate::payload::{
    display_name, display_name_of, final_segment_of, path_final_segment, FilePayload,
    FilePayloadView,
};
use crate::report::{
    is_success_code, names_status, report, report_of, Report, ReportView, UploadOutcome,
    UploadOutcomeView,
};
use crate::upload::{UploadRequest, UploadRequestView};

verus! {

/// What the command line holds: the file to upload and, optionally, an
/// address that overrides every other.
#[derive(Debug, PartialEq, Eq)]
pub struct InvocationArgs {
    pub file_path: PathBuf,
    pub url: Option<String>,
}

/// Why a run was given up. Both are fatal.
#[derive(Debug, PartialEq, Eq)]
pub enum Fatal {
    /// The file could not be read in full.
    Io(String),
    /// The request could not be sent, or the response not received.
    Network(String),
}

/// Mathematical content of a [`Fatal`].
pub ghost enum FatalView {
    Io(Seq<char>),
    Network(Seq<char>),
}

impl View for Fatal {
    type V = FatalView;

    open spec fn view(&self) -> FatalView {
        match self {
            Fatal::Io(message) => FatalView::Io(message@),
            Fatal::Network(message) => FatalView::Network(message@),
        }
    }
}

/// Where a run stands.
#[derive(Debug, PartialEq, Eq)]
pub enum Phase {
    /// The configuration is being loaded.
    LoadingConfig,
    /// The settings are fixed; the command line has yet to be read.
    AwaitingInvocation { endpoint: Option<String> },
    /// Target and display name are fixed; the file is being read.
    ReadingFile { target: String, name: String },
    /// The one request of this run is under way.
    Uploading,
    /// The run is over.
    Done { failed: bool },
}

/// Mathematical content of a [`Phase`].
pub ghost enum PhaseView {
    LoadingConfig,
    AwaitingInvocation { endpoint: Option<Seq<char>> },
    ReadingFile { target: Seq<char>, name: Seq<char> },
    Uploading,
    Done { failed: bool },
}

impl View for Phase {
    type V = PhaseView;

    open spec fn view(&self) -> PhaseView {
        match self {
            Phase::LoadingConfig => PhaseView::LoadingConfig,
            Phase::AwaitingInvocation { endpoint } => PhaseView::AwaitingInvocation {
                endpoint: endpoint.deep_view(),
            },
            Phase::ReadingFile { target, name } => PhaseView::ReadingFile {
                target: target@,
                name: name@,
            },
            Phase::Uploading => PhaseView::Uploading,
            Phase::Done { failed } => PhaseView::Done { failed: *failed },
        }
    }
}

/// What happened outside.
#[derive(Debug, PartialEq, Eq)]
pub enum Event {
    /// The configuration was loaded, or found unavailable.
    ConfigLoaded(Result<Configuration, ConfigUnavailable>),
    /// The command line was read. `final_segment` is the last segment of
    /// `file_path` as text, if it has one.
    Invoked { file_path: PathBuf, final_segment: Option<String>, url: Option<String> },
    /// The file was read to its end, or reading failed with the given message.
    FileRead(Result<Vec<u8>, String>),
    /// Status and body were received in full, or the exchange failed with the
    /// given message.
    Responded(Result<UploadOutcome, String>),
}

/// Mathematical content of an [`Event`].
pub ghost enum EventView {
    ConfigLoaded(Result<ConfigurationView, ConfigUnavailable>),
    Invoked { file_path: PathBuf, final_segment: Option<Seq<char>>, url: Option<Seq<char>> },
    FileRead(Result<Seq<u8>, Seq<char>>),
    Responded(Result<UploadOutcomeView, Seq<char>>),
}

impl View for Event {
    type V = EventView;

    open spec fn view(&self) -> EventView {
        match self {
            Event::ConfigLoaded(loaded) => EventView::ConfigLoaded(loaded_view(*loaded)),
            Event::Invoked { file_path, final_segment, url } => EventView::Invoked {
                file_path: *file_path,
                final_segment: final_segment.deep_view(),
                url: url.deep_view(),
            },
            Event::FileRead(read) => EventView::FileRead(
                match read {
                    Ok(bytes) => Ok(bytes@),
                    Err(message) => Err(message@),
                },
            ),
            Event::Responded(response) => EventView::Responded(
                match response {
                    Ok(outcome) => Ok(outcome@),
                    Err(message) => Err(message@),
                },
            ),
        }
    }
}

/// What is to be done next outside.
#[derive(Debug, PartialEq, Eq)]
pub enum Action {
    /// Load the configuration from the named file in the working directory.
    LoadConfig { file_name: String },
    /// Write the warning, if there is one, to the error stream; set the log
    /// level, once and for the whole run; then read the command line.
    Prepare { log_level: String, warning: Option<String> },
    /// Read the file at `path` to its end.
    ReadFile { path: PathBuf },
    /// Post the request and wait for status and body.
    Send(UploadRequest),
    /// Tell the user what the server answered, and end the run successfully.
    Tell(Report),
    /// Give the run up and signal failure.
    Abort(Fatal),
    /// Nothing: the event was not the one awaited.
    Ignore,
}

/// Mathematical content of an [`Action`].
pub ghost enum ActionView {
    LoadConfig { file_name: Seq<char> },
    Prepare { log_level: Seq<char>, warning: Option<Seq<char>> },
    ReadFile { path: PathBuf },
    Send(UploadRequestView),
    Tell(ReportView),
    Abort(FatalView),
    Ignore,
}

impl View for Action {
    type V = ActionView;

    open spec fn view(&self) -> ActionView {
        match self {
            Action::LoadConfig { file_name } => ActionView::LoadConfig { file_name: file_name@ },
            Action::Prepare { log_level, warning } => ActionView::Prepare {
                log_level: log_level@,
                warning: warning.deep_view(),
            },
            Action::ReadFile { path } => ActionView::ReadFile { path: *path },
            Action::Send(request) => ActionView::Send(request@),
            Action::Tell(report) => ActionView::Tell(report@),
            Action::Abort(failure) => ActionView::Abort(failure@),
            Action::Ignore => ActionView::Ignore,
        }
    }
}

/// The phase that follows, and the action that is due, when `event` arrives
/// in `phase`. An event that the phase does not await changes nothing.
pub open spec fn step(phase: PhaseView, event: EventView) -> (PhaseView, ActionView) {
    match (phase, event) {
        (PhaseView::LoadingConfig, EventView::ConfigLoaded(loaded)) => {
            let settings = settings_of(loaded);
            (
                PhaseView::AwaitingInvocation { endpoint: settings.endpoint },
                ActionView::Prepare { log_level: settings.log_level, warning: settings.warning },
            )
        },
        (
            PhaseView::AwaitingInvocation { endpoint },
            EventView::Invoked { file_path, final_segment, url },
        ) => (
            PhaseView::ReadingFile {
                target: resolved_target(url, endpoint),
                name: display_name_of(final_segment),
            },
            ActionView::ReadFile { path: file_path },
        ),
        (PhaseView::ReadingFile { target, name }, EventView::FileRead(Ok(bytes))) => (
            PhaseView::Uploading,
            ActionView::Send(
                UploadRequestView { url: target, payload: FilePayloadView { bytes, name } },
            ),
        ),
        (PhaseView::ReadingFile { .. }, EventView::FileRead(Err(message))) => (
            PhaseView::Done { failed: true },
            ActionView::Abort(FatalView::Io(message)),
        ),
        (PhaseView::Uploading, EventView::Responded(Ok(outcome))) => (
            PhaseView::Done { failed: false },
            ActionView::Tell(report_of(outcome)),
        ),
        (PhaseView::Uploading, EventView::Responded(Err(message))) => (
            PhaseView::Done { failed: true },
            ActionView::Abort(FatalView::Network(message)),
        ),
        _ => (phase, ActionView::Ignore),
    }
}

/// The text in an optional string, borrowed.
fn borrowed(text: &Option<String>) -> (slice: Option<&str>)
    ensures
        slice.deep_view() == text.deep_view(),
{
    match text {
        Some(owned) => Some(owned.as_str()),
        None => None,
    }
}

/// Begins a run: the first thing to do is to load the configuration.
pub fn start() -> (first: (Phase, Action))
    ensures
        first.0@ == PhaseView::LoadingConfig,
        first.1@ == (ActionView::LoadConfig { file_name: CONFIG_FILE_NAME@ }),
{
    (Phase::LoadingConfig, Action::LoadConfig { file_name: String::from_str(CONFIG_FILE_NAME) })
}

/// Whether an event tells of the command line truthfully: where it is
/// `Invoked`, the final segment it holds is that of the path it holds.
pub open spec fn truthful(event: EventView) -> bool {
    event matches EventView::Invoked { file_path, final_segment, .. } ==> final_segment
        == final_segment_of(file_path)
}

/// The event for a command line that was read: path and address as given,
/// with the final segment of that path.
pub fn invoked(args: InvocationArgs) -> (event: Event)
    ensures
        event@ matches EventView::Invoked { file_path, final_segment, url } && file_path
            == args.file_path && url == args.url.deep_view() && final_segment == final_segment_of(
            args.file_path,
        ),
        truthful(event@),
{
    let final_segment = path_final_segment(&args.file_path);
    Event::Invoked { file_path: args.file_path, final_segment, url: args.url }
}

/// Takes the run one step further. Where the step reports a response whose
/// status is outside the 2xx class, the report names that status.
pub fn advance(phase: Phase, event: Event) -> (next: (Phase, Action))
    ensures
        (next.0@, next.1@) == step(phase@, event@),
        next.1@ matches ActionView::Tell(told) ==> event@ matches EventView::Responded(Ok(outcome))
            && (!is_success_code(outcome.status) ==> names_status(told, outcome.status)),
{
    match (phase, event) {
        (Phase::LoadingConfig, Event::ConfigLoaded(loaded)) => {
            let settings = effective_settings(loaded);
            (
                Phase::AwaitingInvocation { endpoint: settings.endpoint },
                Action::Prepare { log_level: settings.log_level, warning: settings.warning },
            )
        },
        (Phase::AwaitingInvocation { endpoint }, Event::Invoked { file_path, final_segment, url }) => {
            let target = resolve(borrowed(&url), borrowed(&endpoint));
            let name = display_name(borrowed(&final_segment));
            (Phase::ReadingFile { target, name }, Action::ReadFile { path: file_path })
        },
        (Phase::ReadingFile { target, name }, Event::FileRead(Ok(bytes))) => (
            Phase::Uploading,
            Action::Send(UploadRequest { url: target, payload: FilePayload { bytes, name } }),
        ),
        (Phase::ReadingFile { .. }, Event::FileRead(Err(message))) => (
            Phase::Done { failed: true },
            Action::Abort(Fatal::Io(message)),
        ),
        (Phase::Uploading, Event::Responded(Ok(outcome))) => (
            Phase::Done { failed: false },
            Action::Tell(report(&outcome)),
        ),
        (Phase::Uploading, Event::Responded(Err(message))) => (
            Phase::Done { failed: true },
            Action::Abort(Fatal::Network(message)),
        ),
        (phase, _) => (phase, Action::Ignore),
    }
}

/// How far a phase is from the start of a run.
pub open spec fn progress(phase: PhaseView) -> nat {
    match phase {
        PhaseView::LoadingConfig => 0,
        PhaseView::AwaitingInvocation { .. } => 1,
        PhaseView::ReadingFile { .. } => 2,
        PhaseView::Uploading => 3,
        PhaseView::Done { .. } => 4,
    }
}

/// A step never leads back; it leads on exactly when its action is not
/// `Ignore`, and then the action is the one that the phase calls for.
pub proof fn lemma_step_leads_on(phase: PhaseView, event: EventView)
    ensures
        progress(phase) <= progress(step(phase, event).0),
        step(phase, event).1 is Ignore <==> step(phase, event).0 == phase,
        step(phase, event).1 is Ignore <==> progress(step(phase, event).0) == progress(phase),
        step(phase, event).1 is Prepare <==> phase is LoadingConfig && event is ConfigLoaded,
        step(phase, event).1 is ReadFile <==> phase is AwaitingInvocation && event is Invoked,
        step(phase, event).1 is Send <==> phase is ReadingFile && event matches EventView::FileRead(
            Ok(_),
        ),
        step(phase, event).1 is Tell <==> phase is Uploading && event matches EventView::Responded(
            Ok(_),
        ),
        !(step(phase, event).1 is LoadConfig),
{
}

/// The process signals failure exactly when a step aborts: on a file that
/// could not be read, or on a network call that failed. A response with any
/// status, 2xx or not, ends the run without failure.
pub proof fn lemma_exit_signal(phase: PhaseView, event: EventView)
    ensures
        step(phase, event).1 is Abort <==> !(phase is Done) && step(phase, event).0
            == (PhaseView::Done { failed: true }),
        step(phase, event).1 is Tell <==> !(phase is Done) && step(phase, event).0
            == (PhaseView::Done { failed: false }),
        step(phase, event).1 is Abort <==> (phase is ReadingFile && event matches EventView::FileRead(
            Err(_),
        )) || (phase is Uploading && event matches EventView::Responded(Err(_))),
{
}

/// The target is resolved once, when the command line is read, from the
/// address given there and the settings' endpoint. While the file is read it
/// stays as it is, and the request that follows carries it unchanged.
pub proof fn lemma_target_fixed_once(phase: PhaseView, event: EventView)
    ensures
        step(phase, event).0 matches PhaseView::ReadingFile { target, name } ==> {
            ||| phase == step(phase, event).0
            ||| (phase matches PhaseView::AwaitingInvocation { endpoint } && event matches EventView::Invoked {
                url,
                final_segment,
                ..
            } && target == resolved_target(url, endpoint) && name == display_name_of(
                final_segment,
            ))
        },
        step(phase, event).1 matches ActionView::Send(request) ==> phase
            matches PhaseView::ReadingFile { target, name } && request.url == target
            && request.payload.name == name,
{
}

} // verus!
