//! The analysis pipeline as a state machine.
//!
//! One run goes through five stages in a fixed order: flatten the project,
//! resolve the credentials, estimate the cost, ask for the analysis, persist
//! the report. The work of four of them is done outside this library, by
//! whoever drives the machine: each [`Transition`] names the next piece of
//! work as an [`Action`] and the lines to show to the user, and the driver
//! answers with the [`Event`] that tells how the work ended. The estimate is
//! made here, between two actions.
//!
//! A failure of any stage but the last ends the run with a failing exit
//! status. A failure to persist does not: the report is printed instead.

use vstd::prelude::*;
use crate::cost::{cost_of, cost_text, estimate_cost, format_cost_estimate};
use crate::text::{decimal_string, decimal_text};

verus! {

/// The stages of a run, in their order.
#[derive(Clone, Copy, Debug, PartialEq, Eq, Structural)]
pub enum Stage {
    Flatten,
    ResolveCredentials,
    Estimate,
    Analyze,
    Persist,
}

/// Where a run goes after a stage has ended.
#[derive(Clone, Copy, Debug, PartialEq, Eq, Structural)]
pub enum Route {
    /// On to the given stage.
    Advance(Stage),
    /// The run is complete.
    Finish,
    /// The run ends here and the process fails.
    Halt,
    /// The run ends here, the result is printed, and the process does not
    /// fail.
    Fallback,
}

/// The routing rule. A stage that succeeds leads to the next one, the last
/// to the end. A stage that fails halts the run, with two exceptions: the
/// estimate is advisory and holds nothing up, and a failure to persist
/// falls back to printing.
pub open spec fn route(stage: Stage, failed: bool) -> Route {
    match stage {
        Stage::Flatten => if failed {
            Route::Halt
        } else {
            Route::Advance(Stage::ResolveCredentials)
        },
        Stage::ResolveCredentials => if failed {
            Route::Halt
        } else {
            Route::Advance(Stage::Estimate)
        },
        Stage::Estimate => Route::Advance(Stage::Analyze),
        Stage::Analyze => if failed {
            Route::Halt
        } else {
            Route::Advance(Stage::Persist)
        },
        Stage::Persist => if failed {
            Route::Fallback
        } else {
            Route::Finish
        },
    }
}

/// Applies the routing rule.
pub fn route_after(stage: Stage, failed: bool) -> (next: Route)
    ensures
        next == route(stage, failed),
{
    match stage {
        Stage::Flatten => if failed {
            Route::Halt
        } else {
            Route::Advance(Stage::ResolveCredentials)
        },
        Stage::ResolveCredentials => if failed {
            Route::Halt
        } else {
            Route::Advance(Stage::Estimate)
        },
        Stage::Estimate => Route::Advance(Stage::Analyze),
        Stage::Analyze => if failed {
            Route::Halt
        } else {
            Route::Advance(Stage::Persist)
        },
        Stage::Persist => if failed {
            Route::Fallback
        } else {
            Route::Finish
        },
    }
}

/// The failure of a stage, with the message of the error underneath.
#[derive(Debug, PartialEq, Eq)]
pub enum PipelineError {
    Flatten(String),
    Credentials(String),
    Analysis(String),
    Persist(String),
}

/// The mathematical content of a [`PipelineError`].
pub enum StageFailure {
    Flatten(Seq<char>),
    Credentials(Seq<char>),
    Analysis(Seq<char>),
    Persist(Seq<char>),
}

impl View for PipelineError {
    type V = StageFailure;

    open spec fn view(&self) -> StageFailure {
        match *self {
            PipelineError::Flatten(message) => StageFailure::Flatten(message@),
            PipelineError::Credentials(message) => StageFailure::Credentials(message@),
            PipelineError::Analysis(message) => StageFailure::Analysis(message@),
            PipelineError::Persist(message) => StageFailure::Persist(message@),
        }
    }
}

impl StageFailure {
    /// The stage that failed.
    pub open spec fn stage(self) -> Stage {
        match self {
            StageFailure::Flatten(_) => Stage::Flatten,
            StageFailure::Credentials(_) => Stage::ResolveCredentials,
            StageFailure::Analysis(_) => Stage::Analyze,
            StageFailure::Persist(_) => Stage::Persist,
        }
    }

    /// The line that reports the failure: it names the stage and gives the
    /// message.
    pub open spec fn report(self) -> Seq<char> {
        match self {
            StageFailure::Flatten(message) => "Error flattening contracts: "@ + message,
            StageFailure::Credentials(message) => "Error getting API credentials: "@ + message,
            StageFailure::Analysis(message) => "Error during Gemini analysis: "@ + message,
            StageFailure::Persist(message) => "Error saving report: "@ + message,
        }
    }
}

impl PipelineError {
    /// The stage that failed.
    pub fn stage(&self) -> (stage: Stage)
        ensures
            stage == self@.stage(),
    {
        match self {
            PipelineError::Flatten(_) => Stage::Flatten,
            PipelineError::Credentials(_) => Stage::ResolveCredentials,
            PipelineError::Analysis(_) => Stage::Analyze,
            PipelineError::Persist(_) => Stage::Persist,
        }
    }

    /// The line that reports the failure to the user.
    pub fn report(&self) -> (line: String)
        ensures
            line@ == self@.report(),
    {
        match self {
            PipelineError::Flatten(message) => labelled("Error flattening contracts: ", message),
            PipelineError::Credentials(message) => labelled(
                "Error getting API credentials: ",
                message,
            ),
            PipelineError::Analysis(message) => labelled("Error during Gemini analysis: ", message),
            PipelineError::Persist(message) => labelled("Error saving report: ", message),
        }
    }
}

/// The two channels that lines are shown on.
#[derive(Clone, Copy, Debug, PartialEq, Eq, Structural)]
pub enum Channel {
    /// Standard output: progress and results.
    Stdout,
    /// Standard error: failures.
    Stderr,
}

/// One line to show to the user. The text does not hold the line's end.
#[derive(Debug, PartialEq, Eq)]
pub struct ConsoleLine {
    pub channel: Channel,
    pub text: String,
}

/// The mathematical content of a [`ConsoleLine`].
pub struct Line {
    pub channel: Channel,
    pub text: Seq<char>,
}

impl View for ConsoleLine {
    type V = Line;

    open spec fn view(&self) -> Line {
        Line { channel: self.channel, text: self.text@ }
    }
}

/// The lines that a list of console lines stands for, in the same order.
pub open spec fn lines_of(lines: Seq<ConsoleLine>) -> Seq<Line> {
    Seq::new(lines.len(), |i: int| lines[i]@)
}

/// A line on standard output.
pub open spec fn out(text: Seq<char>) -> Line {
    Line { channel: Channel::Stdout, text }
}

/// A line on standard error.
pub open spec fn err(text: Seq<char>) -> Line {
    Line { channel: Channel::Stderr, text }
}

/// Where a run stands: what it waits for, and what it has gathered so far.
#[derive(Debug, PartialEq, Eq)]
pub enum PipelineState {
    /// The project is being flattened.
    Flattening { output_file: String },
    /// The credentials are being resolved.
    ResolvingCredentials { output_file: String, content: String, project_name: String },
    /// The analysis has been asked for.
    Analyzing { output_file: String },
    /// The report is being written.
    Persisting { output_file: String, report: String },
    /// The run is over. A failure to persist is kept here too, though the
    /// run did not fail on it.
    Finished { failure: Option<PipelineError> },
}

/// The mathematical content of a [`PipelineState`].
pub enum Phase {
    Flattening { output_file: Seq<char> },
    ResolvingCredentials { output_file: Seq<char>, content: Seq<char>, project_name: Seq<char> },
    Analyzing { output_file: Seq<char> },
    Persisting { output_file: Seq<char>, report: Seq<char> },
    Finished { failure: Option<StageFailure> },
}

impl View for PipelineState {
    type V = Phase;

    open spec fn view(&self) -> Phase {
        match *self {
            PipelineState::Flattening { output_file } => Phase::Flattening {
                output_file: output_file@,
            },
            PipelineState::ResolvingCredentials {
                output_file,
                content,
                project_name,
            } => Phase::ResolvingCredentials {
                output_file: output_file@,
                content: content@,
                project_name: project_name@,
            },
            PipelineState::Analyzing { output_file } => Phase::Analyzing {
                output_file: output_file@,
            },
            PipelineState::Persisting { output_file, report } => Phase::Persisting {
                output_file: output_file@,
                report: report@,
            },
            PipelineState::Finished { failure } => Phase::Finished {
                failure: match failure {
                    Some(error) => Some(error@),
                    None => None,
                },
            },
        }
    }
}

impl Phase {
    /// How far the run has come: the number of stages whose work is done or
    /// under way, and five once the run is over.
    pub open spec fn progress(self) -> nat {
        match self {
            Phase::Flattening { .. } => 1,
            Phase::ResolvingCredentials { .. } => 2,
            Phase::Analyzing { .. } => 3,
            Phase::Persisting { .. } => 4,
            Phase::Finished { .. } => 5,
        }
    }

    /// The stage whose end the run waits for, unless it is over.
    pub open spec fn awaited(self) -> Option<Stage> {
        match self {
            Phase::Flattening { .. } => Some(Stage::Flatten),
            Phase::ResolvingCredentials { .. } => Some(Stage::ResolveCredentials),
            Phase::Analyzing { .. } => Some(Stage::Analyze),
            Phase::Persisting { .. } => Some(Stage::Persist),
            Phase::Finished { .. } => None,
        }
    }
}

/// How a piece of outside work ended: with its result, or with the message
/// of its error.
#[derive(Debug, PartialEq, Eq)]
pub enum Event {
    Flattened { content: String, project_name: String },
    FlattenFailed(String),
    CredentialsResolved { api_key: String, model: String },
    CredentialsFailed(String),
    Analyzed { report: String },
    AnalysisFailed(String),
    Persisted,
    PersistFailed(String),
}

/// The mathematical content of an [`Event`].
pub enum Occurrence {
    Flattened { content: Seq<char>, project_name: Seq<char> },
    FlattenFailed(Seq<char>),
    CredentialsResolved { api_key: Seq<char>, model: Seq<char> },
    CredentialsFailed(Seq<char>),
    Analyzed { report: Seq<char> },
    AnalysisFailed(Seq<char>),
    Persisted,
    PersistFailed(Seq<char>),
}

impl View for Event {
    type V = Occurrence;

    open spec fn view(&self) -> Occurrence {
        match *self {
            Event::Flattened { content, project_name } => Occurrence::Flattened {
                content: content@,
                project_name: project_name@,
            },
            Event::FlattenFailed(message) => Occurrence::FlattenFailed(message@),
            Event::CredentialsResolved { api_key, model } => Occurrence::CredentialsResolved {
                api_key: api_key@,
                model: model@,
            },
            Event::CredentialsFailed(message) => Occurrence::CredentialsFailed(message@),
            Event::Analyzed { report } => Occurrence::Analyzed { report: report@ },
            Event::AnalysisFailed(message) => Occurrence::AnalysisFailed(message@),
            Event::Persisted => Occurrence::Persisted,
            Event::PersistFailed(message) => Occurrence::PersistFailed(message@),
        }
    }
}

impl Occurrence {
    /// The stage whose work ended.
    pub open spec fn stage(self) -> Stage {
        match self {
            Occurrence::Flattened { .. } | Occurrence::FlattenFailed(_) => Stage::Flatten,
            Occurrence::CredentialsResolved { .. }
            | Occurrence::CredentialsFailed(_) => Stage::ResolveCredentials,
            Occurrence::Analyzed { .. } | Occurrence::AnalysisFailed(_) => Stage::Analyze,
            Occurrence::Persisted | Occurrence::PersistFailed(_) => Stage::Persist,
        }
    }

    /// The failure that the occurrence reports, if it reports one.
    pub open spec fn failure(self) -> Option<StageFailure> {
        match self {
            Occurrence::FlattenFailed(message) => Some(StageFailure::Flatten(message)),
            Occurrence::CredentialsFailed(message) => Some(StageFailure::Credentials(message)),
            Occurrence::AnalysisFailed(message) => Some(StageFailure::Analysis(message)),
            Occurrence::PersistFailed(message) => Some(StageFailure::Persist(message)),
            _ => None,
        }
    }
}

/// The next piece of work for the driver.
#[derive(Debug, PartialEq, Eq)]
pub enum Action {
    /// Flatten the project under `root_path`.
    Flatten { root_path: String },
    /// Ask for the key and the model.
    PromptCredentials,
    /// Send the content to the service.
    Analyze { content: String, project_name: String, api_key: String, model: String },
    /// Write the report to `output_file`.
    Persist { output_file: String, report: String },
    /// End the process with `exit_status`.
    Stop { exit_status: u8 },
}

/// The mathematical content of an [`Action`].
pub enum Directive {
    Flatten { root_path: Seq<char> },
    PromptCredentials,
    Analyze { content: Seq<char>, project_name: Seq<char>, api_key: Seq<char>, model: Seq<char> },
    Persist { output_file: Seq<char>, report: Seq<char> },
    Stop { exit_status: u8 },
}

impl View for Action {
    type V = Directive;

    open spec fn view(&self) -> Directive {
        match *self {
            Action::Flatten { root_path } => Directive::Flatten { root_path: root_path@ },
            Action::PromptCredentials => Directive::PromptCredentials,
            Action::Analyze { content, project_name, api_key, model } => Directive::Analyze {
                content: content@,
                project_name: project_name@,
                api_key: api_key@,
                model: model@,
            },
            Action::Persist { output_file, report } => Directive::Persist {
                output_file: output_file@,
                report: report@,
            },
            Action::Stop { exit_status } => Directive::Stop { exit_status },
        }
    }
}

impl Directive {
    /// The stage that the work belongs to; none for the end of the process.
    pub open spec fn stage(self) -> Option<Stage> {
        match self {
            Directive::Flatten { .. } => Some(Stage::Flatten),
            Directive::PromptCredentials => Some(Stage::ResolveCredentials),
            Directive::Analyze { .. } => Some(Stage::Analyze),
            Directive::Persist { .. } => Some(Stage::Persist),
            Directive::Stop { .. } => None,
        }
    }
}

/// One move of the machine: the state it is in now, the lines to show, and
/// the work to do next.
#[derive(Debug, PartialEq, Eq)]
pub struct Transition {
    pub state: PipelineState,
    pub lines: Vec<ConsoleLine>,
    pub action: Action,
}

/// The mathematical content of a [`Transition`].
pub struct Step {
    pub phase: Phase,
    pub lines: Seq<Line>,
    pub directive: Directive,
}

impl View for Transition {
    type V = Step;

    open spec fn view(&self) -> Step {
        Step { phase: self.state@, lines: lines_of(self.lines@), directive: self.action@ }
    }
}

/// The exit status of a run that completed, also where it fell back to
/// printing the report.
pub const EXIT_COMPLETED: u8 = 0;

/// The exit status of a run that a failure halted.
pub const EXIT_FAILED: u8 = 1;

/// The first move: the banner, and the order to flatten the project.
pub open spec fn begun(root_path: Seq<char>, output_file: Seq<char>) -> Step {
    Step {
        phase: Phase::Flattening { output_file },
        lines: seq![
            out("Starting Gemini AI Analysis..."@),
            out("==============================="@),
            out("Flattening contracts from: "@ + root_path),
        ],
        directive: Directive::Flatten { root_path },
    }
}

/// The move after a failure that halts the run: the failure is reported on
/// standard error, kept in the final state, and the process is told to fail.
pub open spec fn halted(failure: StageFailure) -> Step {
    Step {
        phase: Phase::Finished { failure: Some(failure) },
        lines: seq![err(failure.report())],
        directive: Directive::Stop { exit_status: 1 },
    }
}

/// What is shown once the project is flattened.
pub open spec fn flattened_lines(project_name: Seq<char>, content: Seq<char>) -> Seq<Line> {
    seq![
        out("Found and flattened contracts for project: "@ + project_name),
        out("Total code size: "@ + decimal_text(content.len()) + " characters"@),
    ]
}

/// What is shown before the content is sent: the estimated cost for the
/// chosen model, and the notice that the request is on its way.
pub open spec fn sending_lines(content: Seq<char>, model: Seq<char>) -> Seq<Line> {
    seq![
        out("Estimated cost: "@ + cost_text(cost_of(content.len(), model))),
        out("\nSending code to Gemini AI for analysis..."@),
        out("This may take a few moments..."@),
    ]
}

/// What is shown once the report is written.
pub open spec fn saved_lines(output_file: Seq<char>) -> Seq<Line> {
    seq![
        out("Analysis complete!"@),
        out("Report saved to: "@ + output_file),
        out("Open the file to view detailed AI analysis results"@),
    ]
}

/// What is shown where the report could not be written: the failure on
/// standard error, then the whole report on standard output.
pub open spec fn fallback_lines(failure: StageFailure, report: Seq<char>) -> Seq<Line> {
    seq![err(failure.report()), err("Analysis content:"@), out(report)]
}

/// The machine: the move that follows from a phase and an occurrence, or
/// none where the phase does not wait for that occurrence.
pub open spec fn next(phase: Phase, occurrence: Occurrence) -> Option<Step> {
    match (phase, occurrence) {
        (Phase::Flattening { output_file }, Occurrence::Flattened { content, project_name }) => Some(
            Step {
                phase: Phase::ResolvingCredentials { output_file, content, project_name },
                lines: flattened_lines(project_name, content),
                directive: Directive::PromptCredentials,
            },
        ),
        (Phase::Flattening { .. }, Occurrence::FlattenFailed(message)) => Some(
            halted(StageFailure::Flatten(message)),
        ),
        (
            Phase::ResolvingCredentials { output_file, content, project_name },
            Occurrence::CredentialsResolved { api_key, model },
        ) => Some(
            Step {
                phase: Phase::Analyzing { output_file },
                lines: sending_lines(content, model),
                directive: Directive::Analyze { content, project_name, api_key, model },
            },
        ),
        (Phase::ResolvingCredentials { .. }, Occurrence::CredentialsFailed(message)) => Some(
            halted(StageFailure::Credentials(message)),
        ),
        (Phase::Analyzing { output_file }, Occurrence::Analyzed { report }) => Some(
            Step {
                phase: Phase::Persisting { output_file, report },
                lines: Seq::empty(),
                directive: Directive::Persist { output_file, report },
            },
        ),
        (Phase::Analyzing { .. }, Occurrence::AnalysisFailed(message)) => Some(
            halted(StageFailure::Analysis(message)),
        ),
        (Phase::Persisting { output_file, .. }, Occurrence::Persisted) => Some(
            Step {
                phase: Phase::Finished { failure: None },
                lines: saved_lines(output_file),
                directive: Directive::Stop { exit_status: 0 },
            },
        ),
        (Phase::Persisting { report, .. }, Occurrence::PersistFailed(message)) => Some(
            Step {
                phase: Phase::Finished { failure: Some(StageFailure::Persist(message)) },
                lines: fallback_lines(StageFailure::Persist(message), report),
                directive: Directive::Stop { exit_status: 0 },
            },
        ),
        _ => None,
    }
}

/// A text behind a label.
fn labelled(label: &str, text: &String) -> (line: String)
    ensures
        line@ == label@ + text@,
{
    let mut line = String::from_str(label);
    line.append(text.as_str());
    line
}

/// A line on standard output.
fn out_line(text: String) -> (line: ConsoleLine)
    ensures
        line@ == out(text@),
{
    ConsoleLine { channel: Channel::Stdout, text }
}

/// A line on standard error.
fn err_line(text: String) -> (line: ConsoleLine)
    ensures
        line@ == err(text@),
{
    ConsoleLine { channel: Channel::Stderr, text }
}

/// The move after a failure that halts the run.
fn halt(error: PipelineError) -> (transition: Transition)
    ensures
        transition@ == halted(error@),
{
    let mut lines: Vec<ConsoleLine> = Vec::new();
    lines.push(err_line(error.report()));
    assert(lines_of(lines@) =~= seq![err(error@.report())]);
    Transition {
        state: PipelineState::Finished { failure: Some(error) },
        lines,
        action: Action::Stop { exit_status: EXIT_FAILED },
    }
}

/// Starts a run on the project under `root_path`, with the report to go to
/// `output_file`: shows the banner and orders the project to be flattened.
pub fn start(root_path: String, output_file: String) -> (transition: Transition)
    ensures
        transition@ == begun(root_path@, output_file@),
{
    let mut lines: Vec<ConsoleLine> = Vec::new();
    lines.push(out_line(String::from_str("Starting Gemini AI Analysis...")));
    lines.push(out_line(String::from_str("===============================")));
    lines.push(out_line(labelled("Flattening contracts from: ", &root_path)));
    assert(lines_of(lines@) =~= begun(root_path@, output_file@).lines);
    Transition {
        state: PipelineState::Flattening { output_file },
        lines,
        action: Action::Flatten { root_path },
    }
}

/// Moves the machine: takes the state of the run and the event that ended
/// the work last ordered, and returns the new state, the lines to show and
/// the work to do next. Returns nothing where the state does not wait for
/// that event: no work is ordered twice, none out of order, and none after
/// the run is over.
pub fn step(state: PipelineState, event: Event) -> (moved: Option<Transition>)
    ensures
        match moved {
            Some(transition) => next(state@, event@) == Some(transition@),
            None => next(state@, event@) is None,
        },
{
    match (state, event) {
        (PipelineState::Flattening { output_file }, Event::Flattened { content, project_name }) => {
            let length: usize = content.as_str().unicode_len();
            let mut size = String::from_str("Total code size: ");
            size.append(decimal_string(length as u128).as_str());
            size.append(" characters");
            let mut lines: Vec<ConsoleLine> = Vec::new();
            lines.push(
                out_line(labelled("Found and flattened contracts for project: ", &project_name)),
            );
            lines.push(out_line(size));
            assert(lines_of(lines@) =~= flattened_lines(project_name@, content@));
            Some(
                Transition {
                    state: PipelineState::ResolvingCredentials {
                        output_file,
                        content,
                        project_name,
                    },
                    lines,
                    action: Action::PromptCredentials,
                },
            )
        },
        (PipelineState::Flattening { .. }, Event::FlattenFailed(message)) => Some(
            halt(PipelineError::Flatten(message)),
        ),
        (
            PipelineState::ResolvingCredentials { output_file, content, project_name },
            Event::CredentialsResolved { api_key, model },
        ) => {
            let length: usize = content.as_str().unicode_len();
            let cost = estimate_cost(length, model.as_str());
            let mut lines: Vec<ConsoleLine> = Vec::new();
            lines.push(out_line(labelled("Estimated cost: ", &format_cost_estimate(cost))));
            lines.push(out_line(String::from_str("\nSending code to Gemini AI for analysis...")));
            lines.push(out_line(String::from_str("This may take a few moments...")));
            assert(lines_of(lines@) =~= sending_lines(content@, model@));
            Some(
                Transition {
                    state: PipelineState::Analyzing { output_file },
                    lines,
                    action: Action::Analyze { content, project_name, api_key, model },
                },
            )
        },
        (PipelineState::ResolvingCredentials { .. }, Event::CredentialsFailed(message)) => Some(
            halt(PipelineError::Credentials(message)),
        ),
        (PipelineState::Analyzing { output_file }, Event::Analyzed { report }) => {
            let lines: Vec<ConsoleLine> = Vec::new();
            assert(lines_of(lines@) =~= Seq::<Line>::empty());
            Some(
                Transition {
                    state: PipelineState::Persisting {
                        output_file: output_file.clone(),
                        report: report.clone(),
                    },
                    lines,
                    action: Action::Persist { output_file, report },
                },
            )
        },
        (PipelineState::Analyzing { .. }, Event::AnalysisFailed(message)) => Some(
            halt(PipelineError::Analysis(message)),
        ),
        (PipelineState::Persisting { output_file, .. }, Event::Persisted) => {
            let mut lines: Vec<ConsoleLine> = Vec::new();
            lines.push(out_line(String::from_str("Analysis complete!")));
            lines.push(out_line(labelled("Report saved to: ", &output_file)));
            lines.push(
                out_line(String::from_str("Open the file to view detailed AI analysis results")),
            );
            assert(lines_of(lines@) =~= saved_lines(output_file@));
            Some(
                Transition {
                    state: PipelineState::Finished { failure: None },
                    lines,
                    action: Action::Stop { exit_status: EXIT_COMPLETED },
                },
            )
        },
        (PipelineState::Persisting { report, .. }, Event::PersistFailed(message)) => {
            let error = PipelineError::Persist(message);
            let mut lines: Vec<ConsoleLine> = Vec::new();
            lines.push(err_line(error.report()));
            lines.push(err_line(String::from_str("Analysis content:")));
            lines.push(out_line(report));
            assert(lines_of(lines@) =~= fallback_lines(error@, report@));
            Some(
                Transition {
                    state: PipelineState::Finished { failure: Some(error) },
                    lines,
                    action: Action::Stop { exit_status: EXIT_COMPLETED },
                },
            )
        },
        _ => None,
    }
}

/// The stage that work is ordered for after an advance to `stage`. The
/// estimate is made inside the move that reaches it and holds nothing up,
/// so an advance to it is an advance to the stage behind it.
pub open spec fn ordered_after_advance(stage: Stage) -> Stage {
    if stage == Stage::Estimate {
        Stage::Analyze
    } else {
        stage
    }
}

/// The machine moves exactly when the occurrence ends the stage that the
/// phase waits for, and every move takes the run forward. So a run has at
/// most four moves after its first, no stage is entered twice, and none is
/// entered out of order.
pub proof fn moves_go_forward(phase: Phase, occurrence: Occurrence)
    ensures
        next(phase, occurrence) is Some <==> phase.awaited() == Some(occurrence.stage()),
        next(phase, occurrence) matches Some(step) ==> step.phase.progress() > phase.progress(),
{
}

/// Once a run is over nothing moves it: whatever is reported afterwards, no
/// work is ordered and nothing is shown.
pub proof fn finished_is_final(phase: Phase, occurrence: Occurrence)
    requires
        phase is Finished,
    ensures
        next(phase, occurrence) is None,
{
}

/// Every move follows the routing rule, applied to the stage that ended and
/// to whether it failed. A halt reports the failure on standard error and
/// stops with the failing exit status. A fallback and a finish stop with
/// the status of a completed run; the fallback keeps the failure and puts
/// the report on standard output as its last line. An advance orders the
/// work of the stage that it leads to.
pub proof fn moves_follow_the_route(phase: Phase, occurrence: Occurrence)
    requires
        next(phase, occurrence) is Some,
    ensures
        ({
            let step = next(phase, occurrence)->Some_0;
            match route(occurrence.stage(), occurrence.failure() is Some) {
                Route::Halt => step == halted(occurrence.failure()->Some_0),
                Route::Fallback => {
                    &&& step.directive == Directive::Stop { exit_status: 0 }
                    &&& step.phase == Phase::Finished { failure: occurrence.failure() }
                    &&& phase matches Phase::Persisting { report, .. } && step.lines.last() == out(
                        report,
                    )
                },
                Route::Finish => {
                    &&& step.directive == Directive::Stop { exit_status: 0 }
                    &&& step.phase == Phase::Finished { failure: None }
                },
                Route::Advance(stage) => {
                    &&& step.directive.stage() == Some(ordered_after_advance(stage))
                    &&& step.phase.awaited() == Some(ordered_after_advance(stage))
                },
            }
        }),
{
}

/// The process fails exactly where a stage before the last one failed: a
/// move stops with the failing exit status if and only if it follows the
/// failure of flattening, of resolving the credentials or of the analysis.
pub proof fn exit_status_tells_failure(phase: Phase, occurrence: Occurrence)
    requires
        next(phase, occurrence) is Some,
    ensures
        ({
            let step = next(phase, occurrence)->Some_0;
            &&& step.directive == Directive::Stop { exit_status: 1 } <==> (occurrence.failure()
                is Some && occurrence.stage() != Stage::Persist)
            &&& step.directive == Directive::Stop { exit_status: 0 } <==> occurrence.stage()
                == Stage::Persist
            &&& step.directive is Stop <==> step.phase is Finished
        }),
{
}

/// How each piece of outside work ends in one run: the occurrence that the
/// driver reports for each of the four orders, should the order be given.
pub struct Script {
    pub flatten: Occurrence,
    pub credentials: Occurrence,
    pub analysis: Occurrence,
    pub persist: Occurrence,
}

impl Script {
    /// Whether each occurrence ends the stage that it is scripted for.
    pub open spec fn fits(self) -> bool {
        &&& self.flatten.stage() == Stage::Flatten
        &&& self.credentials.stage() == Stage::ResolveCredentials
        &&& self.analysis.stage() == Stage::Analyze
        &&& self.persist.stage() == Stage::Persist
    }

    /// What the driver reports after it has done what `directive` orders;
    /// nothing after the order to stop.
    pub open spec fn answer(self, directive: Directive) -> Option<Occurrence> {
        match directive {
            Directive::Flatten { .. } => Some(self.flatten),
            Directive::PromptCredentials => Some(self.credentials),
            Directive::Analyze { .. } => Some(self.analysis),
            Directive::Persist { .. } => Some(self.persist),
            Directive::Stop { .. } => None,
        }
    }
}

/// The moves so far and the one that the script brings about next, if the
/// last move ordered work and the machine moves on its outcome.
pub open spec fn follow(moves: Seq<Step>, script: Script) -> Seq<Step> {
    match script.answer(moves.last().directive) {
        Some(occurrence) => match next(moves.last().phase, occurrence) {
            Some(step) => moves.push(step),
            None => moves,
        },
        None => moves,
    }
}

/// A whole run against a script: the first move and all that follow from
/// it. Four moves can follow the first, one for each piece of outside work.
pub open spec fn run(root_path: Seq<char>, output_file: Seq<char>, script: Script) -> Seq<Step> {
    follow(
        follow(follow(follow(seq![begun(root_path, output_file)], script), script), script),
        script,
    )
}

/// Every run comes to its end: its last move orders the process to stop,
/// nothing follows that move, and no earlier move orders a stop. The moves
/// keep the order of the stages, the move at each place having come that
/// far.
pub proof fn run_ends_with_stop(root_path: Seq<char>, output_file: Seq<char>, script: Script)
    requires
        script.fits(),
    ensures
        ({
            let moves = run(root_path, output_file, script);
            &&& 2 <= moves.len() <= 5
            &&& moves[0] == begun(root_path, output_file)
            &&& moves.last().directive is Stop
            &&& moves.last().phase is Finished
            &&& follow(moves, script) == moves
            &&& forall|i: int| 0 <= i < moves.len() - 1 ==> !(#[trigger] moves[i].directive is Stop)
            &&& forall|i: int|
                0 <= i < moves.len() - 1 ==> (#[trigger] moves[i]).phase.progress() == i + 1
        }),
{
    let m1 = seq![begun(root_path, output_file)];
    let m2 = follow(m1, script);
    let m3 = follow(m2, script);
    let m4 = follow(m3, script);
    let m5 = follow(m4, script);
    assert(m2.len() == 2);
    assert(m2[0] == m1[0]);
    if m2.last().directive is Stop {
        assert(m3 == m2);
    } else {
        assert(m3.len() == 3);
        assert(m3[0] == m1[0] && m3[1] == m2[1]);
        if m3.last().directive is Stop {
            assert(m4 == m3);
        } else {
            assert(m4.len() == 4);
            assert(m4[0] == m1[0] && m4[1] == m2[1] && m4[2] == m3[2]);
            if m4.last().directive is Stop {
                assert(m5 == m4);
            } else {
                assert(m5.len() == 5);
                assert(m5[0] == m1[0] && m5[1] == m2[1] && m5[2] == m3[2] && m5[3] == m4[3]);
            }
        }
    }
}

/// A failure to flatten ends the run before the credentials are asked for.
/// The run has two moves: the first orders the flattening, the second
/// reports the failure on standard error and stops the process with the
/// failing exit status. The order to ask for the credentials is never
/// given, nor any other.
pub proof fn flatten_failure_halts(
    root_path: Seq<char>,
    output_file: Seq<char>,
    script: Script,
    message: Seq<char>,
)
    requires
        script.flatten == Occurrence::FlattenFailed(message),
    ensures
        run(root_path, output_file, script) == seq![
            begun(root_path, output_file),
            halted(StageFailure::Flatten(message)),
        ],
        halted(StageFailure::Flatten(message)).directive == (Directive::Stop { exit_status: 1 }),
        halted(StageFailure::Flatten(message)).lines == seq![
            err("Error flattening contracts: "@ + message),
        ],
        forall|i: int|
            0 <= i < run(root_path, output_file, script).len() ==> (#[trigger] run(
                root_path,
                output_file,
                script,
            )[i]).directive != Directive::PromptCredentials,
{
    let m1 = seq![begun(root_path, output_file)];
    let m2 = follow(m1, script);
    assert(m2 =~= seq![begun(root_path, output_file), halted(StageFailure::Flatten(message))]);
    assert(follow(m2, script) == m2);
}

/// A failure to persist loses nothing and is no crash. Where the three
/// stages before it succeed, the run has five moves; the last one reports
/// the failure on standard error, puts the whole report on standard output,
/// and stops the process with the status of a completed run.
pub proof fn persist_failure_prints_report(
    root_path: Seq<char>,
    output_file: Seq<char>,
    script: Script,
    message: Seq<char>,
)
    requires
        script.flatten is Flattened,
        script.credentials is CredentialsResolved,
        script.analysis is Analyzed,
        script.persist == Occurrence::PersistFailed(message),
    ensures
        ({
            let moves = run(root_path, output_file, script);
            &&& moves.len() == 5
            &&& moves[1].directive == Directive::PromptCredentials
            &&& moves[2].directive is Analyze
            &&& moves[3].directive == Directive::Persist {
                output_file,
                report: script.analysis->report,
            }
            &&& moves[4].directive == Directive::Stop { exit_status: 0 }
            &&& moves[4].phase == Phase::Finished { failure: Some(StageFailure::Persist(message)) }
            &&& moves[4].lines == seq![
                err("Error saving report: "@ + message),
                err("Analysis content:"@),
                out(script.analysis->report),
            ]
        }),
{
    let m1 = seq![begun(root_path, output_file)];
    let m2 = follow(m1, script);
    let m3 = follow(m2, script);
    let m4 = follow(m3, script);
    let m5 = follow(m4, script);
    assert(m2.len() == 2 && m2.last().directive == Directive::PromptCredentials);
    assert(m3.len() == 3 && m3[1] == m2[1] && m3.last().directive is Analyze);
    assert(m4.len() == 4 && m4[1] == m2[1] && m4[2] == m3[2]);
    assert(m4.last().directive == Directive::Persist {
        output_file,
        report: script.analysis->report,
    });
    assert(m5.len() == 5 && m5[1] == m2[1] && m5[2] == m3[2] && m5[3] == m4[3]);
}

/// The exit status of a run tells whether it was halted: the process fails
/// if and only if flattening failed, or resolving the credentials did after
/// that, or the analysis did after both.
pub proof fn run_fails_on_early_failure(
    root_path: Seq<char>,
    output_file: Seq<char>,
    script: Script,
)
    requires
        script.fits(),
    ensures
        ({
            let last = run(root_path, output_file, script).last();
            let halted_early = script.flatten.failure() is Some || script.credentials.failure()
                is Some || script.analysis.failure() is Some;
            &&& last.directive == Directive::Stop { exit_status: 1 } <==> halted_early
            &&& last.directive == Directive::Stop { exit_status: 0 } <==> !halted_early
        }),
{
    run_ends_with_stop(root_path, output_file, script);
    let m1 = seq![begun(root_path, output_file)];
    let m2 = follow(m1, script);
    let m3 = follow(m2, script);
    let m4 = follow(m3, script);
    let m5 = follow(m4, script);
    assert(m2.len() == 2);
    if script.flatten.failure() is Some {
        assert(m3 == m2);
    } else {
        assert(m3.len() == 3);
        if script.credentials.failure() is Some {
            assert(m4 == m3);
        } else {
            assert(m4.len() == 4);
            if script.analysis.failure() is Some {
                assert(m5 == m4);
            } else {
                assert(m5.len() == 5);
            }
        }
    }
}

} // verus!
