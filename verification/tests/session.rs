use steam_gif::command::Stage;
use steam_gif::outcome::{Cleanup, ConversionError, Outcome};
use steam_gif::request::{Prompt, Variant};
use steam_gif::session::{Action, Event, Phase, Session};

fn line(text: &str) -> Event {
    Event::Line(String::from(text))
}

fn feed(session: Session, events: &[Event]) -> Session {
    let mut session = session;
    for event in events {
        session = session.step(event);
    }
    session
}

fn answered_extended() -> Session {
    feed(
        Session::new(Variant::Extended),
        &[
            line("\"/tmp/clips/video.mp4\"\n"),
            Event::InputChecked(true),
            line("\n"),
            line("00:00:05\n"),
            line("\n"),
            line("640:360:0:0\n"),
            line("\n"),
        ],
    )
}

#[test]
fn a_session_starts_by_asking_for_the_input() {
    let session = Session::new(Variant::Extended);
    assert_eq!(session.pending(), Action::Ask(Prompt::InputPath));
    assert_eq!(session.phase(), Phase::Asking(Prompt::InputPath));
    assert_eq!(session.variant(), Variant::Extended);
    assert_eq!(session.result(), None);
}

#[test]
fn the_input_is_looked_up_before_anything_else_is_asked() {
    let session = Session::new(Variant::Extended).step(&line("/tmp/a.mp4\n"));
    assert_eq!(session.pending(), Action::CheckInput);
    assert_eq!(session.request().input_path, "/tmp/a.mp4");
    let session = session.step(&Event::InputChecked(true));
    assert_eq!(session.pending(), Action::Ask(Prompt::Fps));
}

#[test]
fn extended_variant_asks_six_questions_in_order() {
    let mut session = Session::new(Variant::Extended);
    let mut asked = Vec::new();
    loop {
        match session.pending() {
            Action::Ask(prompt) => {
                asked.push(prompt);
                session = session.step(&line("\n"));
            }
            Action::CheckInput => session = session.step(&Event::InputChecked(true)),
            _ => break,
        }
    }
    assert_eq!(
        asked,
        vec![
            Prompt::InputPath,
            Prompt::Fps,
            Prompt::StartTime,
            Prompt::EndTime,
            Prompt::CropFilter,
            Prompt::Colors,
        ]
    );
    assert_eq!(session.pending(), Action::Invoke(Stage::Scale));
}

#[test]
fn basic_variant_asks_for_path_and_frame_rate_only() {
    let mut session = Session::new(Variant::Basic);
    let mut asked = Vec::new();
    loop {
        match session.pending() {
            Action::Ask(prompt) => {
                asked.push(prompt);
                session = session.step(&line("\n"));
            }
            Action::CheckInput => session = session.step(&Event::InputChecked(true)),
            _ => break,
        }
    }
    assert_eq!(asked, vec![Prompt::InputPath, Prompt::Fps]);
    assert_eq!(session.pending(), Action::Invoke(Stage::Scale));
    assert_eq!(session.request().colors, None);
}

#[test]
fn missing_input_ends_the_session_without_any_invocation() {
    let mut session = Session::new(Variant::Extended);
    let mut actions = vec![session.pending()];
    for event in [line("\"/no/such/file.mp4\"\n"), Event::InputChecked(false)] {
        session = session.step(&event);
        actions.push(session.pending());
    }
    let outcome =
        Outcome { failure: Some(ConversionError::InputNotFound), cleanup: Cleanup::NotAttempted };
    assert_eq!(
        actions,
        vec![Action::Ask(Prompt::InputPath), Action::CheckInput, Action::Finish(outcome)]
    );
    assert_eq!(session.result(), Some(Err(ConversionError::InputNotFound)));
    for event in [Event::Exited(true), line("\n"), Event::InputChecked(true), Event::SpawnFailed] {
        session = session.step(&event);
        assert_eq!(session.pending(), Action::Finish(outcome));
    }
}

#[test]
fn full_success_runs_three_stages_and_removes_the_palette() {
    let mut session = answered_extended();
    let mut actions = vec![session.pending()];
    for event in [
        Event::Exited(true),
        Event::Exited(true),
        Event::Exited(true),
        Event::PaletteRemoved(true),
    ] {
        session = session.step(&event);
        actions.push(session.pending());
    }
    assert_eq!(
        actions,
        vec![
            Action::Invoke(Stage::Scale),
            Action::Invoke(Stage::Palette),
            Action::Invoke(Stage::PaletteApply),
            Action::RemovePalette,
            Action::Finish(Outcome { failure: None, cleanup: Cleanup::Removed }),
        ]
    );
    assert_eq!(session.result(), Some(Ok("/tmp/clips/video_steam.gif")));
}

#[test]
fn quoted_input_with_empty_answers_uses_the_defaults() {
    let session = feed(
        Session::new(Variant::Extended),
        &[
            line("\"C:\\video.mp4\"\n"),
            Event::InputChecked(true),
            line("\n"),
            line("\n"),
            line("\n"),
            line("\n"),
            line("\n"),
        ],
    );
    assert_eq!(session.request().input_path, "C:\\video.mp4");
    assert_eq!(session.request().fps, 15);
    assert_eq!(session.request().colors, Some(90));
    assert_eq!(session.paths().intermediate, "C:\\video_steam.mp4");
    assert_eq!(session.paths().output, "C:\\video_steam.gif");
    assert!(session.paths().palette.ends_with("palette.png"));
    let palette = session.arguments(Stage::Palette);
    assert_eq!(palette[4], "fps=15,palettegen=max_colors=90");
    assert_eq!(palette[5], session.paths().palette);
    let session = feed(
        session,
        &[
            Event::Exited(true),
            Event::Exited(true),
            Event::Exited(true),
        ],
    );
    assert_eq!(session.pending(), Action::RemovePalette);
    let session = session.step(&Event::PaletteRemoved(true));
    assert_eq!(session.result(), Some(Ok("C:\\video_steam.gif")));
}

#[test]
fn arguments_of_an_answered_session() {
    let session = answered_extended();
    assert_eq!(
        session.arguments(Stage::Scale),
        vec![
            "-y",
            "-i",
            "/tmp/clips/video.mp4",
            "-vf",
            "crop=640:360:0:0,scale=616:-2",
            "-ss",
            "00:00:05",
            "/tmp/clips/video_steam.mp4",
        ]
    );
    assert_eq!(
        session.arguments(Stage::Palette),
        vec![
            "-y",
            "-i",
            "/tmp/clips/video_steam.mp4",
            "-vf",
            "fps=15,palettegen=max_colors=90",
            "/tmp/clips/palette.png",
        ]
    );
    assert_eq!(
        session.arguments(Stage::PaletteApply),
        vec![
            "-y",
            "-i",
            "/tmp/clips/video_steam.mp4",
            "-i",
            "/tmp/clips/palette.png",
            "-filter_complex",
            "[0:v]fps=15[v];[v][1:v]paletteuse",
            "/tmp/clips/video_steam.gif",
        ]
    );
}

#[test]
fn failed_scale_stage_stops_the_session() {
    let session = answered_extended().step(&Event::Exited(false));
    let outcome = Outcome {
        failure: Some(ConversionError::StageFailure { stage: Stage::Scale }),
        cleanup: Cleanup::NotAttempted,
    };
    assert_eq!(session.pending(), Action::Finish(outcome));
    assert_eq!(session.result(), Some(Err(ConversionError::StageFailure { stage: Stage::Scale })));
    let session = feed(session, &[Event::Exited(true), Event::Exited(true)]);
    assert_eq!(session.pending(), Action::Finish(outcome));
}

#[test]
fn failed_palette_stage_stops_the_session_without_cleanup() {
    let session = feed(answered_extended(), &[Event::Exited(true), Event::Exited(false)]);
    assert_eq!(
        session.pending(),
        Action::Finish(Outcome {
            failure: Some(ConversionError::StageFailure { stage: Stage::Palette }),
            cleanup: Cleanup::NotAttempted,
        })
    );
}

#[test]
fn failed_application_still_removes_the_palette() {
    let session = feed(
        answered_extended(),
        &[Event::Exited(true), Event::Exited(true), Event::Exited(false)],
    );
    assert_eq!(session.pending(), Action::RemovePalette);
    assert_eq!(
        session.phase(),
        Phase::Cleaning(Some(ConversionError::StageFailure { stage: Stage::PaletteApply }))
    );
    assert_eq!(session.result(), None);
    let session = session.step(&Event::PaletteRemoved(true));
    assert_eq!(
        session.pending(),
        Action::Finish(Outcome {
            failure: Some(ConversionError::StageFailure { stage: Stage::PaletteApply }),
            cleanup: Cleanup::Removed,
        })
    );
    assert_eq!(session.result(), Some(Err(ConversionError::StageFailure { stage: Stage::PaletteApply })));
}

#[test]
fn a_tool_that_cannot_start_is_a_spawn_failure_of_its_stage() {
    let session = answered_extended().step(&Event::SpawnFailed);
    assert_eq!(session.result(), Some(Err(ConversionError::SpawnFailure { stage: Stage::Scale })));
    let session = feed(answered_extended(), &[Event::Exited(true), Event::SpawnFailed]);
    assert_eq!(session.result(), Some(Err(ConversionError::SpawnFailure { stage: Stage::Palette })));
    let session = feed(
        answered_extended(),
        &[
            Event::Exited(true),
            Event::Exited(true),
            Event::SpawnFailed,
            Event::PaletteRemoved(true),
        ],
    );
    assert_eq!(session.result(), Some(Err(ConversionError::SpawnFailure { stage: Stage::PaletteApply })));
}

#[test]
fn failed_cleanup_leaves_the_success_standing() {
    let session = feed(
        answered_extended(),
        &[
            Event::Exited(true),
            Event::Exited(true),
            Event::Exited(true),
            Event::PaletteRemoved(false),
        ],
    );
    let outcome = Outcome { failure: None, cleanup: Cleanup::Failed };
    assert_eq!(session.pending(), Action::Finish(outcome));
    assert_eq!(session.result(), Some(Ok("/tmp/clips/video_steam.gif")));
    assert_eq!(outcome.warning(), Some(ConversionError::CleanupFailure));
}

#[test]
fn events_that_answer_nothing_are_ignored() {
    let session = Session::new(Variant::Extended);
    let session = feed(
        session,
        &[
            Event::Exited(true),
            Event::InputChecked(true),
            Event::SpawnFailed,
            Event::PaletteRemoved(true),
        ],
    );
    assert_eq!(session.pending(), Action::Ask(Prompt::InputPath));
    let session = session.step(&line("/tmp/a.mp4\n")).step(&line("/tmp/b.mp4\n"));
    assert_eq!(session.pending(), Action::CheckInput);
    assert_eq!(session.request().input_path, "/tmp/a.mp4");
    let session = feed(answered_extended(), &[line("30\n"), Event::PaletteRemoved(true)]);
    assert_eq!(session.pending(), Action::Invoke(Stage::Scale));
    assert_eq!(session.request().fps, 15);
}

#[test]
fn paths_stay_as_settled_by_the_first_answer() {
    let session = answered_extended();
    assert_eq!(session.paths().palette, "/tmp/clips/palette.png");
    let session = feed(session, &[Event::Exited(true), Event::Exited(true)]);
    assert_eq!(session.paths().palette, "/tmp/clips/palette.png");
    assert_eq!(session.paths().intermediate, "/tmp/clips/video_steam.mp4");
}

#[test]
fn phase_names_the_action_that_is_due() {
    assert_eq!(Phase::Asking(Prompt::Colors).action(), Action::Ask(Prompt::Colors));
    assert_eq!(Phase::CheckingInput.action(), Action::CheckInput);
    assert_eq!(Phase::Running(Stage::Palette).action(), Action::Invoke(Stage::Palette));
    assert_eq!(Phase::Cleaning(None).action(), Action::RemovePalette);
    let outcome = Outcome { failure: None, cleanup: Cleanup::Removed };
    assert_eq!(Phase::Finished(outcome).action(), Action::Finish(outcome));
}

#[test]
fn next_phase_of_each_stage_result() {
    let ok = Event::Exited(true);
    assert_eq!(Phase::Running(Stage::Scale).next(Variant::Basic, &ok), Phase::Running(Stage::Palette));
    assert_eq!(
        Phase::Running(Stage::Palette).next(Variant::Basic, &ok),
        Phase::Running(Stage::PaletteApply)
    );
    assert_eq!(Phase::Running(Stage::PaletteApply).next(Variant::Basic, &ok), Phase::Cleaning(None));
    assert_eq!(
        Phase::Asking(Prompt::Fps).next(Variant::Basic, &Event::Line(String::new())),
        Phase::Running(Stage::Scale)
    );
    assert_eq!(
        Phase::Asking(Prompt::Fps).next(Variant::Extended, &Event::Line(String::new())),
        Phase::Asking(Prompt::StartTime)
    );
}
