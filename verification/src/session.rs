//! The course of one conversion: which question, check, invocation or
//! clean-up is due, and what follows from its result.
//!
//! A session does none of the outside work itself. It names the action that
//! is due; the caller performs it and hands back what happened as an event;
//! the session then moves on.

use vstd::prelude::*;
use crate::command::{arguments_for, stage_arguments, Stage};
use crate::outcome::{Cleanup, ConversionError, Outcome};
use crate::paths::{belong_to, derived_paths, DerivedPaths, PathsView};
use crate::request::{answered, path_in, unanswered, ConversionRequest, Prompt, RequestView, Variant};

verus! {

/// Where a conversion stands.
#[derive(Clone, Copy, Debug, PartialEq, Eq, Structural)]
pub enum Phase {
    /// A question was put and waits for its answer.
    Asking(Prompt),
    /// The input path is known and waits to be looked up.
    CheckingInput,
    /// A stage waits to be run, or is running.
    Running(Stage),
    /// The palette image waits to be removed; with the failure of the
    /// palette application stage, if it failed.
    Cleaning(Option<ConversionError>),
    /// The conversion is over.
    Finished(Outcome),
}

/// What the caller is to do next.
#[derive(Clone, Copy, Debug, PartialEq, Eq, Structural)]
pub enum Action {
    /// Show the prompt and read one line.
    Ask(Prompt),
    /// Look up whether the input path names an existing file.
    CheckInput,
    /// Run the video tool with the arguments of the stage and wait for it.
    Invoke(Stage),
    /// Remove the palette image.
    RemovePalette,
    /// Report the outcome and stop.
    Finish(Outcome),
}

/// What the caller found when it did what was due.
#[derive(Debug, PartialEq, Eq)]
pub enum Event {
    /// The line that was read in answer to a prompt.
    Line(String),
    /// Whether the input path names an existing file.
    InputChecked(bool),
    /// The video tool ran, and whether it reported success.
    Exited(bool),
    /// The video tool could not be started.
    SpawnFailed,
    /// Whether the palette image was removed.
    PaletteRemoved(bool),
}

/// The first phase of every conversion.
pub open spec fn first_phase() -> Phase {
    Phase::Asking(Prompt::InputPath)
}

/// The action that is due in `phase`.
pub open spec fn due(phase: Phase) -> Action {
    match phase {
        Phase::Asking(prompt) => Action::Ask(prompt),
        Phase::CheckingInput => Action::CheckInput,
        Phase::Running(stage) => Action::Invoke(stage),
        Phase::Cleaning(_) => Action::RemovePalette,
        Phase::Finished(outcome) => Action::Finish(outcome),
    }
}

/// The phase that follows the answer to `prompt`. The input path is looked
/// up before anything else is asked; the basic variant asks for nothing
/// beyond the frame rate.
pub open spec fn after_answer(variant: Variant, prompt: Prompt) -> Phase {
    match prompt {
        Prompt::InputPath => Phase::CheckingInput,
        Prompt::Fps => match variant {
            Variant::Basic => Phase::Running(Stage::Scale),
            Variant::Extended => Phase::Asking(Prompt::StartTime),
        },
        Prompt::StartTime => Phase::Asking(Prompt::EndTime),
        Prompt::EndTime => Phase::Asking(Prompt::CropFilter),
        Prompt::CropFilter => Phase::Asking(Prompt::Colors),
        Prompt::Colors => Phase::Running(Stage::Scale),
    }
}

/// The phase that follows the success of `stage`.
pub open spec fn after_success(stage: Stage) -> Phase {
    match stage {
        Stage::Scale => Phase::Running(Stage::Palette),
        Stage::Palette => Phase::Running(Stage::PaletteApply),
        Stage::PaletteApply => Phase::Cleaning(None),
    }
}

/// The phase that follows when `stage` ends with `error`. No later stage is
/// run. The palette image exists once the palette stage has succeeded, so
/// it is still removed where the palette application stage fails.
pub open spec fn after_failure(stage: Stage, error: ConversionError) -> Phase {
    match stage {
        Stage::PaletteApply => Phase::Cleaning(Some(error)),
        _ => Phase::Finished(Outcome::failed_early(error)),
    }
}

/// The phase that follows `phase` when `event` is handed in. An event that
/// does not answer the action that is due changes nothing.
pub open spec fn next_phase(variant: Variant, phase: Phase, event: Event) -> Phase {
    match (phase, event) {
        (Phase::Asking(prompt), Event::Line(_)) => after_answer(variant, prompt),
        (Phase::CheckingInput, Event::InputChecked(exists)) => if exists {
            Phase::Asking(Prompt::Fps)
        } else {
            Phase::Finished(Outcome::failed_early(ConversionError::InputNotFound))
        },
        (Phase::Running(stage), Event::Exited(success)) => if success {
            after_success(stage)
        } else {
            after_failure(stage, ConversionError::StageFailure { stage })
        },
        (Phase::Running(stage), Event::SpawnFailed) => after_failure(
            stage,
            ConversionError::SpawnFailure { stage },
        ),
        (Phase::Cleaning(failure), Event::PaletteRemoved(removed)) => Phase::Finished(
            Outcome {
                failure,
                cleanup: if removed {
                    Cleanup::Removed
                } else {
                    Cleanup::Failed
                },
            },
        ),
        _ => phase,
    }
}

/// The phase reached from the first phase when `events` are handed in, in
/// order.
pub open spec fn phase_after(variant: Variant, events: Seq<Event>) -> Phase
    decreases events.len(),
{
    if events.len() == 0 {
        first_phase()
    } else {
        next_phase(variant, phase_after(variant, events.drop_last()), events.last())
    }
}

/// How far a phase lies along the course of a conversion.
pub open spec fn progress(phase: Phase) -> nat {
    match phase {
        Phase::Asking(Prompt::InputPath) => 0,
        Phase::CheckingInput => 1,
        Phase::Asking(Prompt::Fps) => 2,
        Phase::Asking(Prompt::StartTime) => 3,
        Phase::Asking(Prompt::EndTime) => 4,
        Phase::Asking(Prompt::CropFilter) => 5,
        Phase::Asking(Prompt::Colors) => 6,
        Phase::Running(Stage::Scale) => 7,
        Phase::Running(Stage::Palette) => 8,
        Phase::Running(Stage::PaletteApply) => 9,
        Phase::Cleaning(_) => 10,
        Phase::Finished(_) => 11,
    }
}

/// Handing in one more event moves the run by one step.
proof fn lemma_phase_after_one_more(variant: Variant, events: Seq<Event>, k: int)
    requires
        0 <= k < events.len(),
    ensures
        phase_after(variant, events.take(k + 1)) == next_phase(
            variant,
            phase_after(variant, events.take(k)),
            events[k],
        ),
{
    assert(events.take(k + 1).drop_last() =~= events.take(k));
    assert(events.take(k + 1).last() == events[k]);
}

/// No event takes a conversion back: questions, check, stages and clean-up
/// follow each other in one fixed order.
pub proof fn lemma_step_moves_forward(variant: Variant, phase: Phase, event: Event)
    ensures
        progress(phase) <= progress(next_phase(variant, phase, event)),
        next_phase(variant, phase, event) != phase ==> progress(phase) < progress(
            next_phase(variant, phase, event),
        ),
{
}

/// Over a whole run the phases follow each other in that same order.
pub proof fn lemma_run_moves_forward(variant: Variant, events: Seq<Event>, j: int, k: int)
    requires
        0 <= j <= k <= events.len(),
    ensures
        progress(phase_after(variant, events.take(j))) <= progress(
            phase_after(variant, events.take(k)),
        ),
    decreases k - j,
{
    if j < k {
        lemma_run_moves_forward(variant, events, j, k - 1);
        lemma_phase_after_one_more(variant, events, k - 1);
        lemma_step_moves_forward(
            variant,
            phase_after(variant, events.take(k - 1)),
            events[k - 1],
        );
    }
}

/// A conversion that is over stays as it ended, whatever is handed in.
pub proof fn lemma_finished_is_final(variant: Variant, events: Seq<Event>, j: int, k: int)
    requires
        0 <= j <= k <= events.len(),
        phase_after(variant, events.take(j)) is Finished,
    ensures
        phase_after(variant, events.take(k)) == phase_after(variant, events.take(j)),
    decreases k - j,
{
    if j < k {
        lemma_finished_is_final(variant, events, j, k - 1);
        lemma_phase_after_one_more(variant, events, k - 1);
    }
}

/// Where the look-up of the input path finds no file, the conversion ends
/// at once with `InputNotFound`, and at no point of the run, before or
/// after, is a stage run or the palette image removed.
pub proof fn lemma_missing_input_runs_nothing(
    variant: Variant,
    events: Seq<Event>,
    i: int,
    k: int,
)
    requires
        0 <= i < events.len(),
        0 <= k <= events.len(),
        phase_after(variant, events.take(i)) == Phase::CheckingInput,
        events[i] == Event::InputChecked(false),
    ensures
        !(phase_after(variant, events.take(k)) is Running),
        !(phase_after(variant, events.take(k)) is Cleaning),
        k > i ==> phase_after(variant, events.take(k)) == Phase::Finished(
            Outcome::failed_early(ConversionError::InputNotFound),
        ),
{
    if k <= i {
        lemma_run_moves_forward(variant, events, k, i);
    } else {
        lemma_phase_after_one_more(variant, events, i);
        lemma_finished_is_final(variant, events, i + 1, k);
    }
}

/// Where a stage fails, because the tool reports failure or cannot be
/// started, no stage is run after it.
pub proof fn lemma_failed_stage_is_the_last(
    variant: Variant,
    events: Seq<Event>,
    stage: Stage,
    i: int,
    k: int,
)
    requires
        0 <= i < k <= events.len(),
        phase_after(variant, events.take(i)) == Phase::Running(stage),
        events[i] == Event::Exited(false) || events[i] == Event::SpawnFailed,
    ensures
        !(phase_after(variant, events.take(k)) is Running),
{
    lemma_phase_after_one_more(variant, events, i);
    lemma_run_moves_forward(variant, events, i + 1, k);
}

/// Where the scale stage reports failure, the conversion ends at once with
/// that failure, and at no point of the run is the palette generated,
/// applied or removed.
pub proof fn lemma_failed_scale_ends_the_run(variant: Variant, events: Seq<Event>, i: int, k: int)
    requires
        0 <= i < events.len(),
        0 <= k <= events.len(),
        phase_after(variant, events.take(i)) == Phase::Running(Stage::Scale),
        events[i] == Event::Exited(false),
    ensures
        phase_after(variant, events.take(k)) != Phase::Running(Stage::Palette),
        phase_after(variant, events.take(k)) != Phase::Running(Stage::PaletteApply),
        !(phase_after(variant, events.take(k)) is Cleaning),
        k > i ==> phase_after(variant, events.take(k)) == Phase::Finished(
            Outcome::failed_early(ConversionError::StageFailure { stage: Stage::Scale }),
        ),
{
    if k <= i {
        lemma_run_moves_forward(variant, events, k, i);
    } else {
        lemma_phase_after_one_more(variant, events, i);
        lemma_finished_is_final(variant, events, i + 1, k);
    }
}

/// A run that has left the first phase entered the phase it is in at some
/// step, from a different phase.
proof fn lemma_phase_was_entered(variant: Variant, events: Seq<Event>) -> (i: int)
    requires
        phase_after(variant, events) != first_phase(),
    ensures
        0 <= i < events.len(),
        phase_after(variant, events.take(i)) != phase_after(variant, events),
        next_phase(variant, phase_after(variant, events.take(i)), events[i]) == phase_after(
            variant,
            events,
        ),
    decreases events.len(),
{
    let before = events.drop_last();
    assert(events.take(events.len() - 1) =~= before);
    if phase_after(variant, before) == phase_after(variant, events) {
        let i = lemma_phase_was_entered(variant, before);
        assert(before.take(i) =~= events.take(i));
        i
    } else {
        events.len() - 1
    }
}

/// A conversion ends with success only where all three stages were run, in
/// order, and each reported success, and the palette image was then asked
/// to be removed; the outcome says whether that removal succeeded. The
/// result gives the steps at which the three stages and the removal were
/// answered.
pub proof fn lemma_success_ran_every_stage(variant: Variant, events: Seq<Event>) -> (at: (
    int,
    int,
    int,
    int,
))
    requires
        phase_after(variant, events) is Finished,
        phase_after(variant, events)->Finished_0.failure is None,
    ensures
        0 <= at.0 < at.1 < at.2 < at.3 < events.len(),
        phase_after(variant, events.take(at.0)) == Phase::Running(Stage::Scale),
        events[at.0] == Event::Exited(true),
        phase_after(variant, events.take(at.1)) == Phase::Running(Stage::Palette),
        events[at.1] == Event::Exited(true),
        phase_after(variant, events.take(at.2)) == Phase::Running(Stage::PaletteApply),
        events[at.2] == Event::Exited(true),
        phase_after(variant, events.take(at.3)) == Phase::Cleaning(None),
        events[at.3] is PaletteRemoved,
        phase_after(variant, events)->Finished_0.cleanup == Cleanup::Removed <==> events[at.3]
            == Event::PaletteRemoved(true),
{
    let d = lemma_phase_was_entered(variant, events);
    let cleaning = events.take(d);
    let c = lemma_phase_was_entered(variant, cleaning);
    assert(cleaning.take(c) =~= events.take(c));
    let applying = events.take(c);
    let b = lemma_phase_was_entered(variant, applying);
    assert(applying.take(b) =~= events.take(b));
    let generating = events.take(b);
    let a = lemma_phase_was_entered(variant, generating);
    assert(generating.take(a) =~= events.take(a));
    (a, b, c, d)
}

/// A session as plain values.
pub ghost struct SessionView {
    pub variant: Variant,
    pub phase: Phase,
    pub request: RequestView,
    pub paths: PathsView,
}

/// The session before anything has happened; `palette` is where the
/// palette image of the empty input path would stand.
pub open spec fn opening(variant: Variant, palette: Seq<char>) -> SessionView {
    SessionView {
        variant,
        phase: first_phase(),
        request: unanswered(variant),
        paths: derived_paths(Seq::empty(), palette),
    }
}

/// The session that follows `session` when `event` is handed in. An answer
/// is read into the request; the answer to the first prompt also settles
/// the derived paths, with the palette image at `palette`. Nothing else
/// changes request or paths.
pub open spec fn successor(session: SessionView, event: Event, palette: Seq<char>) -> SessionView {
    SessionView {
        variant: session.variant,
        phase: next_phase(session.variant, session.phase, event),
        request: match (session.phase, event) {
            (Phase::Asking(prompt), Event::Line(line)) => answered(session.request, prompt, line@),
            _ => session.request,
        },
        paths: match (session.phase, event) {
            (Phase::Asking(Prompt::InputPath), Event::Line(line)) => derived_paths(
                path_in(line@),
                palette,
            ),
            _ => session.paths,
        },
    }
}

/// One conversion under way.
pub struct Session {
    variant: Variant,
    phase: Phase,
    request: ConversionRequest,
    paths: DerivedPaths,
}

impl View for Session {
    type V = SessionView;

    closed spec fn view(&self) -> SessionView {
        SessionView {
            variant: self.variant,
            phase: self.phase,
            request: self.request@,
            paths: self.paths@,
        }
    }
}

impl Phase {
    /// The action that is due.
    pub fn action(self) -> (action: Action)
        ensures
            action == due(self),
    {
        match self {
            Phase::Asking(prompt) => Action::Ask(prompt),
            Phase::CheckingInput => Action::CheckInput,
            Phase::Running(stage) => Action::Invoke(stage),
            Phase::Cleaning(_) => Action::RemovePalette,
            Phase::Finished(outcome) => Action::Finish(outcome),
        }
    }

    /// The phase that follows when `event` is handed in.
    pub fn next(self, variant: Variant, event: &Event) -> (next: Phase)
        ensures
            next == next_phase(variant, self, *event),
    {
        match self {
            Phase::Asking(prompt) => match event {
                Event::Line(_) => match prompt {
                    Prompt::InputPath => Phase::CheckingInput,
                    Prompt::Fps => match variant {
                        Variant::Basic => Phase::Running(Stage::Scale),
                        Variant::Extended => Phase::Asking(Prompt::StartTime),
                    },
                    Prompt::StartTime => Phase::Asking(Prompt::EndTime),
                    Prompt::EndTime => Phase::Asking(Prompt::CropFilter),
                    Prompt::CropFilter => Phase::Asking(Prompt::Colors),
                    Prompt::Colors => Phase::Running(Stage::Scale),
                },
                _ => self,
            },
            Phase::CheckingInput => match event {
                Event::InputChecked(true) => Phase::Asking(Prompt::Fps),
                Event::InputChecked(false) => Phase::Finished(
                    Outcome {
                        failure: Some(ConversionError::InputNotFound),
                        cleanup: Cleanup::NotAttempted,
                    },
                ),
                _ => self,
            },
            Phase::Running(stage) => {
                let failure = match event {
                    Event::Exited(true) => None,
                    Event::Exited(false) => Some(ConversionError::StageFailure { stage }),
                    Event::SpawnFailed => Some(ConversionError::SpawnFailure { stage }),
                    _ => {
                        return self;
                    },
                };
                match (stage, failure) {
                    (Stage::Scale, None) => Phase::Running(Stage::Palette),
                    (Stage::Palette, None) => Phase::Running(Stage::PaletteApply),
                    (Stage::PaletteApply, _) => Phase::Cleaning(failure),
                    (_, Some(error)) => Phase::Finished(
                        Outcome { failure: Some(error), cleanup: Cleanup::NotAttempted },
                    ),
                }
            },
            Phase::Cleaning(failure) => match event {
                Event::PaletteRemoved(true) => Phase::Finished(
                    Outcome { failure, cleanup: Cleanup::Removed },
                ),
                Event::PaletteRemoved(false) => Phase::Finished(
                    Outcome { failure, cleanup: Cleanup::Failed },
                ),
                _ => self,
            },
            Phase::Finished(_) => self,
        }
    }
}

impl Session {
    #[verifier::type_invariant]
    spec fn paths_belong_to_input(self) -> bool {
        belong_to(self.paths@, self.request@.input_path)
    }

    /// A session that has yet to ask its first question.
    pub fn new(variant: Variant) -> (session: Session)
        ensures
            session@ == opening(variant, session@.paths.palette),
            belong_to(session@.paths, session@.request.input_path),
    {
        let request = ConversionRequest::new(variant);
        let paths = DerivedPaths::derive(request.input_path.as_str());
        Session { variant, phase: Phase::Asking(Prompt::InputPath), request, paths }
    }

    /// Which parameters the conversion exposes.
    pub fn variant(&self) -> (variant: Variant)
        ensures
            variant == self@.variant,
    {
        self.variant
    }

    /// Where the conversion stands.
    pub fn phase(&self) -> (phase: Phase)
        ensures
            phase == self@.phase,
    {
        self.phase
    }

    /// What the caller is to do next.
    pub fn pending(&self) -> (action: Action)
        ensures
            action == due(self@.phase),
    {
        self.phase.action()
    }

    /// The parameters as far as they have been answered.
    pub fn request(&self) -> (request: &ConversionRequest)
        ensures
            request@ == self@.request,
    {
        &self.request
    }

    /// The files that the conversion writes. They belong to the input path
    /// of the request at all times.
    pub fn paths(&self) -> (paths: &DerivedPaths)
        ensures
            paths@ == self@.paths,
            belong_to(self@.paths, self@.request.input_path),
    {
        proof {
            use_type_invariant(self);
        }
        &self.paths
    }

    /// The arguments with which `stage` invokes the video tool.
    pub fn arguments(&self, stage: Stage) -> (arguments: Vec<String>)
        ensures
            arguments.deep_view() == stage_arguments(stage, self@.request, self@.paths),
    {
        arguments_for(stage, &self.request, &self.paths)
    }

    /// How the conversion ended, once it has: the path of the animated
    /// image, or why there is none.
    pub fn result(&self) -> (result: Option<Result<&str, ConversionError>>)
        ensures
            match self@.phase {
                Phase::Finished(outcome) => match outcome.failure {
                    Some(error) => result == Some(Err::<&str, ConversionError>(error)),
                    None => result is Some && result->0 is Ok && result->0->Ok_0@
                        == self@.paths.output,
                },
                _ => result is None,
            },
    {
        match self.phase {
            Phase::Finished(outcome) => match outcome.failure {
                Some(error) => Some(Err(error)),
                None => Some(Ok(self.paths.output.as_str())),
            },
            _ => None,
        }
    }

    /// Takes in what the caller found when it did what was due, and moves
    /// on.
    pub fn step(self, event: &Event) -> (next: Session)
        ensures
            next@ == successor(self@, *event, next@.paths.palette),
            belong_to(next@.paths, next@.request.input_path),
    {
        proof {
            use_type_invariant(&self);
        }
        let variant = self.variant;
        let phase = self.phase;
        let mut request = self.request;
        let mut paths = self.paths;
        match phase {
            Phase::Asking(prompt) => match event {
                Event::Line(line) => {
                    request.answer(prompt, line.as_str());
                    match prompt {
                        Prompt::InputPath => {
                            paths = DerivedPaths::derive(request.input_path.as_str());
                        },
                        _ => {},
                    }
                },
                _ => {},
            },
            _ => {},
        }
        Session { variant, phase: phase.next(variant, event), request, paths }
    }
}

} // verus!
