use mcrebuild::arnis::{
    check_exit_status, interpret_version_probe, stage_for_line, ArnisAdapter,
    ArnisCancellationToken, ArnisError, ArnisEvent, ArnisLogStream, ArnisStage, BoundingBoxText,
    PipeMessage, PlanArg, RunMonitor,
};
use std::collections::VecDeque;
use std::path::{Path, PathBuf};

fn bbox() -> BoundingBoxText {
    BoundingBoxText {
        min_longitude: 121.398f64.to_string(),
        min_latitude: 31.222f64.to_string(),
        max_longitude: 121.414f64.to_string(),
        max_latitude: 31.234f64.to_string(),
    }
}

#[test]
fn command_plan_maps_domain_values_to_current_arnis_cli() {
    let adapter = ArnisAdapter::new(PathBuf::from("arnis"));
    let plan = adapter.plan(
        &PathBuf::from("generated/world.partial"),
        &bbox(),
        &1.5f32.to_string(),
    );
    let args = plan.arg_strings();

    assert_eq!(plan.executable(), Path::new("arnis"));
    assert_eq!(
        args,
        vec![
            "--output-dir",
            "generated/world.partial",
            "--bbox",
            "31.222,121.398,31.234,121.414",
            "--scale",
            "1.5",
            "--mode",
            "geo-terrain",
        ]
    );
}

#[test]
fn command_plan_does_not_invent_minecraft_version_or_polygon_flags() {
    let plan = ArnisAdapter::new(PathBuf::from("arnis")).plan(
        &PathBuf::from("generated/world.partial"),
        &bbox(),
        &1.5f32.to_string(),
    );
    assert!(!plan.contains_arg("--minecraft-version"));
    assert!(!plan.contains_arg("--polygon"));
    assert!(plan.contains_arg("--bbox"));
}

#[test]
fn adapter_keeps_its_executable() {
    let adapter = ArnisAdapter::new(PathBuf::from("/opt/arnis/bin/arnis"));
    assert_eq!(adapter.executable(), Path::new("/opt/arnis/bin/arnis"));
    let plan = adapter.plan(&PathBuf::from("out"), &bbox(), "2");
    assert_eq!(plan.args().len(), 8);
    assert_eq!(plan.args()[1], PlanArg::Path(PathBuf::from("out")));
    assert_eq!(plan.args()[0], PlanArg::Text("--output-dir".to_owned()));
    assert!(plan.contains_arg("out"));
    assert!(!plan.contains_arg("./out"));
    assert_eq!(plan.executable(), Path::new("/opt/arnis/bin/arnis"));
}

#[test]
fn coarse_stage_mapping_collapses_parallel_early_steps() {
    assert_eq!(
        stage_for_line("[1/7] Fetching data..."),
        Some(ArnisStage::PreparingData)
    );
    assert_eq!(
        stage_for_line("[3/7] Fetching elevation..."),
        Some(ArnisStage::PreparingData)
    );
    assert_eq!(
        stage_for_line("[2/7] Parsing data..."),
        Some(ArnisStage::PreparingData)
    );
    assert_eq!(
        stage_for_line("[4/7] Transforming map..."),
        Some(ArnisStage::ProcessingMap)
    );
    assert_eq!(
        stage_for_line("[5/7] Generating area..."),
        Some(ArnisStage::GeneratingWorld)
    );
    assert_eq!(
        stage_for_line("[6/7] Generating ground..."),
        Some(ArnisStage::GeneratingWorld)
    );
    assert_eq!(
        stage_for_line("[7/7] Saving world..."),
        Some(ArnisStage::SavingWorld)
    );
}

#[test]
fn lines_without_a_step_marker_announce_no_stage() {
    assert_eq!(stage_for_line("Downloading tiles"), None);
    assert_eq!(stage_for_line("[8/7] unknown"), None);
    assert_eq!(stage_for_line("[1/8] other tool"), None);
    assert_eq!(stage_for_line(""), None);
}

#[test]
fn cancellation_token_is_clone_shared() {
    let token = ArnisCancellationToken::new();
    let clone = token.clone();
    assert!(!token.is_cancelled());
    clone.cancel();
    assert!(token.is_cancelled());
}

fn line(stream: ArnisLogStream, text: &str) -> PipeMessage {
    PipeMessage::Line {
        stream,
        line: text.to_owned(),
    }
}

#[test]
fn monitor_emits_each_stage_once_and_never_goes_back() {
    let mut monitor = RunMonitor::new();
    let first = monitor.observe(line(ArnisLogStream::Stdout, "[3/7] Fetching elevation..."));
    assert_eq!(
        first,
        vec![
            ArnisEvent::Stage(ArnisStage::PreparingData),
            ArnisEvent::Log {
                stream: ArnisLogStream::Stdout,
                line: "[3/7] Fetching elevation...".into(),
            },
        ]
    );
    // an earlier numbered step arriving later repeats no stage
    let second = monitor.observe(line(ArnisLogStream::Stdout, "[1/7] Fetching data..."));
    assert_eq!(second.len(), 1);
    let third = monitor.observe(line(ArnisLogStream::Stderr, "[6/7] Generating ground..."));
    assert_eq!(third[0], ArnisEvent::Stage(ArnisStage::GeneratingWorld));
    let fourth = monitor.observe(line(ArnisLogStream::Stdout, "[4/7] Transforming map..."));
    assert_eq!(
        fourth,
        vec![ArnisEvent::Log {
            stream: ArnisLogStream::Stdout,
            line: "[4/7] Transforming map...".into(),
        }]
    );
    assert!(monitor.finish(true, Some(0)).is_ok());
}

#[test]
fn monitor_reports_the_first_read_failure() {
    let mut monitor = RunMonitor::new();
    let events = monitor.observe(PipeMessage::ReadError {
        stream: ArnisLogStream::Stderr,
        source: std::io::Error::new(std::io::ErrorKind::Other, "first"),
    });
    assert!(events.is_empty());
    monitor.observe(PipeMessage::ReadError {
        stream: ArnisLogStream::Stdout,
        source: std::io::Error::new(std::io::ErrorKind::Other, "second"),
    });
    match monitor.finish(true, Some(0)) {
        Err(ArnisError::ReadOutput { stream, source }) => {
            assert_eq!(stream, ArnisLogStream::Stderr);
            assert_eq!(source.to_string(), "first");
        }
        other => panic!("unexpected outcome {other:?}"),
    }
}

#[test]
fn unsuccessful_exit_is_an_error_with_its_code() {
    let monitor = RunMonitor::new();
    assert!(matches!(
        monitor.finish(false, Some(3)),
        Err(ArnisError::NonZeroExit { code: Some(3) })
    ));
    assert!(matches!(
        check_exit_status(false, None),
        Err(ArnisError::NonZeroExit { code: None })
    ));
    assert!(check_exit_status(true, Some(0)).is_ok());
}

#[test]
fn version_probe_prefers_stdout_then_stderr() {
    assert_eq!(
        interpret_version_probe(true, Some(0), "  arnis 9.9.9-test\n", "").unwrap(),
        "arnis 9.9.9-test"
    );
    assert_eq!(
        interpret_version_probe(true, Some(0), " \n", "arnis 2.1\n").unwrap(),
        "arnis 2.1"
    );
    assert!(matches!(
        interpret_version_probe(true, Some(0), "  ", "\t"),
        Err(ArnisError::EmptyVersion)
    ));
    assert!(matches!(
        interpret_version_probe(false, Some(2), "arnis 2.1", ""),
        Err(ArnisError::VersionProbeFailed { code: Some(2) })
    ));
}

#[test]
fn observing_a_batch_matches_observing_each_message() {
    let texts = [
        "[2/7] Parsing data...",
        "plain output",
        "[1/7] Fetching data...",
        "[7/7] Saving world...",
        "[5/7] Generating area...",
    ];
    let mut one_by_one = RunMonitor::new();
    let mut expected = Vec::new();
    for text in texts {
        expected.extend(one_by_one.observe(line(ArnisLogStream::Stdout, text)));
    }

    let mut batched = RunMonitor::new();
    let mut batch: VecDeque<PipeMessage> =
        texts[..2].iter().map(|text| line(ArnisLogStream::Stdout, text)).collect();
    batch.push_back(PipeMessage::ReadError {
        stream: ArnisLogStream::Stderr,
        source: std::io::Error::new(std::io::ErrorKind::Other, "broken pipe"),
    });
    let mut events = batched.observe_all(batch);
    events.extend(batched.observe_all(
        texts[2..].iter().map(|text| line(ArnisLogStream::Stdout, text)).collect(),
    ));
    assert_eq!(events, expected);

    let stages: Vec<ArnisStage> = events
        .iter()
        .filter_map(|event| match event {
            ArnisEvent::Stage(stage) => Some(*stage),
            _ => None,
        })
        .collect();
    assert_eq!(stages, vec![ArnisStage::PreparingData, ArnisStage::SavingWorld]);
    assert!(matches!(
        batched.finish(true, Some(0)),
        Err(ArnisError::ReadOutput { stream: ArnisLogStream::Stderr, .. })
    ));
    assert!(batched_is_empty_on_no_messages());
}

fn batched_is_empty_on_no_messages() -> bool {
    RunMonitor::new().observe_all(VecDeque::new()).is_empty()
}

#[test]
fn path_argument_text_and_membership_follow_the_path() {
    let plan = ArnisAdapter::new(PathBuf::from("arnis")).plan(
        &PathBuf::from("generated/world.partial"),
        &bbox(),
        "1.5",
    );
    assert_eq!(plan.arg_strings()[1], "generated/world.partial");
    assert!(plan.contains_arg("generated/world.partial"));
    assert!(!plan.contains_arg("generated/world.partial/"));
    assert!(!plan.contains_arg("generated"));
}
