use mcrebuild::shell::{
    finished_status_text, generation_outcome, GenerationNotice, GenerationOutcome, ShellAction,
    ShellEvent, ShellState,
};

#[test]
fn generation_starts_once_and_only_with_a_boundary() {
    let state = ShellState::new(false);
    let (state, actions) = state.step(ShellEvent::StartGenerationRequested);
    assert_eq!(
        actions,
        vec![ShellAction::ReportGenerationState {
            notice: GenerationNotice::BoundaryRequired,
            running: false
        }]
    );
    let (state, actions) = state.step(ShellEvent::BoundarySaved { has_boundary: true });
    assert_eq!(
        actions,
        vec![
            ShellAction::SetGenerationBoundaryReady(true),
            ShellAction::ReportBoundarySaved
        ]
    );
    let (state, actions) = state.step(ShellEvent::StartGenerationRequested);
    assert!(state.generation_running);
    assert_eq!(actions[1], ShellAction::StartGeneration);
    let (state, actions) = state.step(ShellEvent::StartGenerationRequested);
    assert_eq!(
        actions,
        vec![ShellAction::ReportGenerationState {
            notice: GenerationNotice::AlreadyRunning,
            running: true
        }]
    );
    let (_, actions) = state.step(ShellEvent::BoundarySubmitted);
    assert_eq!(actions, vec![ShellAction::ReportBoundaryLocked]);
}

#[test]
fn closing_during_generation_waits_for_cleanup() {
    let state = ShellState::new(true);
    let (state, _) = state.step(ShellEvent::StartGenerationRequested);
    let (state, actions) = state.step(ShellEvent::CloseRequested);
    assert!(state.exit_after_generation);
    assert_eq!(actions[0], ShellAction::CancelGeneration);
    assert!(!actions.contains(&ShellAction::Exit));
    let (state, actions) =
        state.step(ShellEvent::GenerationFinished(GenerationOutcome::Cancelled));
    assert!(!state.generation_running);
    assert_eq!(
        actions,
        vec![
            ShellAction::ReportFinished(GenerationOutcome::Cancelled),
            ShellAction::Exit
        ]
    );
}

#[test]
fn idle_shell_closes_at_once_and_reports_nothing_to_cancel() {
    let state = ShellState::new(true);
    let (_, actions) = state.step(ShellEvent::MapCancel);
    assert_eq!(actions, vec![ShellAction::Exit]);
    let (_, actions) = state.step(ShellEvent::CancelGenerationRequested);
    assert_eq!(
        actions,
        vec![ShellAction::ReportGenerationState {
            notice: GenerationNotice::NothingToCancel,
            running: false
        }]
    );
    let (_, actions) = state.step(ShellEvent::MapReady);
    assert_eq!(
        actions,
        vec![ShellAction::InstallGenerationPanel {
            boundary_ready: true
        }]
    );
    assert_eq!(GenerationNotice::Starting.text(), "正在启动 Arnis…");
}

#[test]
fn finished_runs_are_reported_by_outcome() {
    assert_eq!(generation_outcome(true, false), GenerationOutcome::Succeeded);
    assert_eq!(generation_outcome(true, true), GenerationOutcome::Succeeded);
    assert_eq!(generation_outcome(false, true), GenerationOutcome::Cancelled);
    assert_eq!(generation_outcome(false, false), GenerationOutcome::Failed);
    assert_eq!(
        finished_status_text(GenerationOutcome::Succeeded, "ignored"),
        "基础校园生成完成。"
    );
    assert_eq!(
        finished_status_text(GenerationOutcome::Cancelled, "ignored"),
        "生成已取消，临时文件已清理。"
    );
    assert_eq!(
        finished_status_text(GenerationOutcome::Failed, "Arnis exited unsuccessfully"),
        "生成失败：Arnis exited unsuccessfully"
    );
}
