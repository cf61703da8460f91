//! Decisions of the desktop boundary-editor shell.
//!
//! The shell window, its web view and the generation thread live outside the
//! library. They report what happens as a [`ShellEvent`]; [`ShellState::step`]
//! answers with the next state and the actions to perform, in order.
use crate::text::{chars_of, concat_chars, string_of};
use vstd::prelude::*;

verus! {

/// The fixed status texts of the generation panel.
#[derive(Debug, Clone, Copy, PartialEq, Eq)]
pub enum GenerationNotice {
    AlreadyRunning,
    BoundaryRequired,
    Starting,
    NothingToCancel,
    Cancelling,
    CancellingBeforeExit,
}

pub open spec fn notice_text(n: GenerationNotice) -> Seq<char> {
    match n {
        GenerationNotice::AlreadyRunning => "已有生成任务正在运行。"@,
        GenerationNotice::BoundaryRequired => "请先保存有效的校园边界。"@,
        GenerationNotice::Starting => "正在启动 Arnis…"@,
        GenerationNotice::NothingToCancel => "当前没有正在运行的生成任务。"@,
        GenerationNotice::Cancelling => "正在取消生成并清理临时文件…"@,
        GenerationNotice::CancellingBeforeExit => "正在取消生成，清理完成后关闭…"@,
    }
}

impl GenerationNotice {
    pub fn text(self) -> (r: &'static str)
        ensures
            r@ == notice_text(self),
    {
        match self {
            GenerationNotice::AlreadyRunning => "已有生成任务正在运行。",
            GenerationNotice::BoundaryRequired => "请先保存有效的校园边界。",
            GenerationNotice::Starting => "正在启动 Arnis…",
            GenerationNotice::NothingToCancel => "当前没有正在运行的生成任务。",
            GenerationNotice::Cancelling => "正在取消生成并清理临时文件…",
            GenerationNotice::CancellingBeforeExit => "正在取消生成，清理完成后关闭…",
        }
    }
}

/// How a generation run ended.
#[derive(Debug, Clone, Copy, PartialEq, Eq)]
pub enum GenerationOutcome {
    Succeeded,
    Cancelled,
    Failed,
}

/// How a finished generation run ended: it succeeded when it produced a world;
/// a failure counts as a cancellation when the run was stopped by one.
pub open spec fn outcome_of(succeeded: bool, cancelled: bool) -> GenerationOutcome {
    if succeeded {
        GenerationOutcome::Succeeded
    } else if cancelled {
        GenerationOutcome::Cancelled
    } else {
        GenerationOutcome::Failed
    }
}

/// How a finished generation run ended.
pub fn generation_outcome(succeeded: bool, cancelled: bool) -> (r: GenerationOutcome)
    ensures
        r == outcome_of(succeeded, cancelled),
{
    if succeeded {
        GenerationOutcome::Succeeded
    } else if cancelled {
        GenerationOutcome::Cancelled
    } else {
        GenerationOutcome::Failed
    }
}

/// The status text shown when a run ends; a failure shows its error text.
pub open spec fn finished_status(outcome: GenerationOutcome, error: Seq<char>) -> Seq<char> {
    match outcome {
        GenerationOutcome::Succeeded => "基础校园生成完成。"@,
        GenerationOutcome::Cancelled => "生成已取消，临时文件已清理。"@,
        GenerationOutcome::Failed => "生成失败："@ + error,
    }
}

/// The status text shown when a run ends.
pub fn finished_status_text(outcome: GenerationOutcome, error: &str) -> (r: String)
    ensures
        r@ == finished_status(outcome, error@),
{
    let text = match outcome {
        GenerationOutcome::Succeeded => chars_of("基础校园生成完成。"),
        GenerationOutcome::Cancelled => chars_of("生成已取消，临时文件已清理。"),
        GenerationOutcome::Failed => concat_chars(&chars_of("生成失败："), &chars_of(error)),
    };
    string_of(&text)
}

/// What happened in the shell.
#[derive(Debug, Clone, Copy, PartialEq, Eq)]
pub enum ShellEvent {
    /// The map page finished loading.
    MapReady,
    /// The map page asked to close.
    MapCancel,
    /// The window was asked to close.
    CloseRequested,
    /// The page asked to start a generation.
    StartGenerationRequested,
    /// The page asked to cancel the generation.
    CancelGenerationRequested,
    /// The page submitted a boundary.
    BoundarySubmitted,
    /// A submitted boundary was validated and saved.
    BoundarySaved { has_boundary: bool },
    /// A submitted boundary was refused.
    BoundaryRejected,
    /// A page message could not be read.
    InvalidMessage,
    /// The generation run ended.
    GenerationFinished(GenerationOutcome),
}

/// What the shell must do.
#[derive(Debug, Clone, Copy, PartialEq, Eq)]
pub enum ShellAction {
    InstallGenerationPanel { boundary_ready: bool },
    SetGenerationBoundaryReady(bool),
    ReportGenerationState { notice: GenerationNotice, running: bool },
    StartGeneration,
    CancelGeneration,
    SaveBoundary,
    ReportBoundaryLocked,
    ReportBoundarySaved,
    ReportBoundaryRejected,
    ReportInvalidMessage,
    ReportFinished(GenerationOutcome),
    Exit,
}

#[derive(Debug, Clone, Copy, PartialEq, Eq)]
pub struct ShellState {
    /// The project has a saved, valid boundary.
    pub boundary_ready: bool,
    /// A generation run is in progress.
    pub generation_running: bool,
    /// The shell closes once the running generation has ended.
    pub exit_after_generation: bool,
}

/// The answer of the shell to a close request.
pub open spec fn exit_step(s: ShellState) -> (ShellState, Seq<ShellAction>) {
    if s.generation_running {
        (
            ShellState { exit_after_generation: true, ..s },
            seq![
                ShellAction::CancelGeneration,
                ShellAction::ReportGenerationState {
                    notice: GenerationNotice::CancellingBeforeExit,
                    running: true,
                },
            ],
        )
    } else {
        (s, seq![ShellAction::Exit])
    }
}

/// The transition table of the shell.
pub open spec fn shell_step(s: ShellState, e: ShellEvent) -> (ShellState, Seq<ShellAction>) {
    match e {
        ShellEvent::MapReady => (
            s,
            seq![ShellAction::InstallGenerationPanel { boundary_ready: s.boundary_ready }],
        ),
        ShellEvent::MapCancel => exit_step(s),
        ShellEvent::CloseRequested => exit_step(s),
        ShellEvent::StartGenerationRequested => if s.generation_running {
            (
                s,
                seq![
                    ShellAction::ReportGenerationState {
                        notice: GenerationNotice::AlreadyRunning,
                        running: true,
                    },
                ],
            )
        } else if !s.boundary_ready {
            (
                s,
                seq![
                    ShellAction::ReportGenerationState {
                        notice: GenerationNotice::BoundaryRequired,
                        running: false,
                    },
                ],
            )
        } else {
            (
                ShellState { generation_running: true, ..s },
                seq![
                    ShellAction::ReportGenerationState {
                        notice: GenerationNotice::Starting,
                        running: true,
                    },
                    ShellAction::StartGeneration,
                ],
            )
        },
        ShellEvent::CancelGenerationRequested => if !s.generation_running {
            (
                s,
                seq![
                    ShellAction::ReportGenerationState {
                        notice: GenerationNotice::NothingToCancel,
                        running: false,
                    },
                ],
            )
        } else {
            (
                s,
                seq![
                    ShellAction::CancelGeneration,
                    ShellAction::ReportGenerationState {
                        notice: GenerationNotice::Cancelling,
                        running: true,
                    },
                ],
            )
        },
        ShellEvent::BoundarySubmitted => if s.generation_running {
            (s, seq![ShellAction::ReportBoundaryLocked])
        } else {
            (s, seq![ShellAction::SaveBoundary])
        },
        ShellEvent::BoundarySaved { has_boundary } => (
            ShellState { boundary_ready: has_boundary, ..s },
            seq![
                ShellAction::SetGenerationBoundaryReady(has_boundary),
                ShellAction::ReportBoundarySaved,
            ],
        ),
        ShellEvent::BoundaryRejected => (s, seq![ShellAction::ReportBoundaryRejected]),
        ShellEvent::InvalidMessage => (s, seq![ShellAction::ReportInvalidMessage]),
        ShellEvent::GenerationFinished(outcome) => {
            let next = ShellState { generation_running: false, ..s };
            if s.exit_after_generation {
                (next, seq![ShellAction::ReportFinished(outcome), ShellAction::Exit])
            } else {
                (next, seq![ShellAction::ReportFinished(outcome)])
            }
        },
    }
}

impl ShellState {
    /// The state of a shell opened on a project, with or without a saved boundary.
    pub fn new(boundary_ready: bool) -> (r: Self)
        ensures
            r == (ShellState {
                boundary_ready,
                generation_running: false,
                exit_after_generation: false,
            }),
    {
        ShellState { boundary_ready, generation_running: false, exit_after_generation: false }
    }

    fn request_exit(self) -> (r: (ShellState, Vec<ShellAction>))
        ensures
            r.0 == exit_step(self).0,
            r.1@ == exit_step(self).1,
    {
        let mut actions: Vec<ShellAction> = Vec::new();
        if self.generation_running {
            actions.push(ShellAction::CancelGeneration);
            actions.push(
                ShellAction::ReportGenerationState {
                    notice: GenerationNotice::CancellingBeforeExit,
                    running: true,
                },
            );
            (ShellState { exit_after_generation: true, ..self }, actions)
        } else {
            actions.push(ShellAction::Exit);
            (self, actions)
        }
    }

    /// The next state and the actions to perform, in order, for an event.
    pub fn step(self, event: ShellEvent) -> (r: (ShellState, Vec<ShellAction>))
        ensures
            r.0 == shell_step(self, event).0,
            r.1@ == shell_step(self, event).1,
    {
        let mut actions: Vec<ShellAction> = Vec::new();
        let next = match event {
            ShellEvent::MapReady => {
                actions.push(
                    ShellAction::InstallGenerationPanel { boundary_ready: self.boundary_ready },
                );
                self
            },
            ShellEvent::MapCancel => {
                return self.request_exit();
            },
            ShellEvent::CloseRequested => {
                return self.request_exit();
            },
            ShellEvent::StartGenerationRequested => {
                if self.generation_running {
                    actions.push(
                        ShellAction::ReportGenerationState {
                            notice: GenerationNotice::AlreadyRunning,
                            running: true,
                        },
                    );
                    self
                } else if !self.boundary_ready {
                    actions.push(
                        ShellAction::ReportGenerationState {
                            notice: GenerationNotice::BoundaryRequired,
                            running: false,
                        },
                    );
                    self
                } else {
                    actions.push(
                        ShellAction::ReportGenerationState {
                            notice: GenerationNotice::Starting,
                            running: true,
                        },
                    );
                    actions.push(ShellAction::StartGeneration);
                    ShellState { generation_running: true, ..self }
                }
            },
            ShellEvent::CancelGenerationRequested => {
                if !self.generation_running {
                    actions.push(
                        ShellAction::ReportGenerationState {
                            notice: GenerationNotice::NothingToCancel,
                            running: false,
                        },
                    );
                } else {
                    actions.push(ShellAction::CancelGeneration);
                    actions.push(
                        ShellAction::ReportGenerationState {
                            notice: GenerationNotice::Cancelling,
                            running: true,
                        },
                    );
                }
                self
            },
            ShellEvent::BoundarySubmitted => {
                if self.generation_running {
                    actions.push(ShellAction::ReportBoundaryLocked);
                } else {
                    actions.push(ShellAction::SaveBoundary);
                }
                self
            },
            ShellEvent::BoundarySaved { has_boundary } => {
                actions.push(ShellAction::SetGenerationBoundaryReady(has_boundary));
                actions.push(ShellAction::ReportBoundarySaved);
                ShellState { boundary_ready: has_boundary, ..self }
            },
            ShellEvent::BoundaryRejected => {
                actions.push(ShellAction::ReportBoundaryRejected);
                self
            },
            ShellEvent::InvalidMessage => {
                actions.push(ShellAction::ReportInvalidMessage);
                self
            },
            ShellEvent::GenerationFinished(outcome) => {
                actions.push(ShellAction::ReportFinished(outcome));
                if self.exit_after_generation {
                    actions.push(ShellAction::Exit);
                }
                ShellState { generation_running: false, ..self }
            },
        };
        assert(actions@ =~= shell_step(self, event).1);
        (next, actions)
    }
}

/// At most one generation runs at a time: a generation is only started from a
/// state where none runs and the boundary is ready, and the shell then knows it
/// runs; a running generation is never started again.
pub proof fn one_generation_at_a_time(s: ShellState, e: ShellEvent)
    ensures
        shell_step(s, e).1.contains(ShellAction::StartGeneration) ==> !s.generation_running
            && s.boundary_ready && shell_step(s, e).0.generation_running,
        s.generation_running ==> !shell_step(s, e).1.contains(ShellAction::StartGeneration),
{
    if shell_step(s, e).1.contains(ShellAction::StartGeneration) {
        let k = choose|k: int|
            0 <= k < shell_step(s, e).1.len() && shell_step(s, e).1[k] == ShellAction::StartGeneration;
        assert(shell_step(s, e).1[k] == ShellAction::StartGeneration);
    }
}

/// The project boundary is never saved while a generation runs, and the shell
/// never exits while a generation runs: a close request during a run cancels it
/// and defers the exit until the run has ended.
pub proof fn running_generation_guards_boundary_and_exit(s: ShellState, e: ShellEvent)
    ensures
        s.generation_running ==> !shell_step(s, e).1.contains(ShellAction::SaveBoundary),
        shell_step(s, e).1.contains(ShellAction::Exit) ==> !shell_step(s, e).0.generation_running,
        s.generation_running && (e == ShellEvent::MapCancel || e == ShellEvent::CloseRequested)
            ==> shell_step(s, e).0.exit_after_generation && shell_step(s, e).1.contains(
            ShellAction::CancelGeneration,
        ),
{
    let out = shell_step(s, e).1;
    if out.contains(ShellAction::SaveBoundary) {
        let k = choose|k: int| 0 <= k < out.len() && out[k] == ShellAction::SaveBoundary;
        assert(out[k] == ShellAction::SaveBoundary);
    }
    if out.contains(ShellAction::Exit) {
        let k = choose|k: int| 0 <= k < out.len() && out[k] == ShellAction::Exit;
        assert(out[k] == ShellAction::Exit);
    }
    if s.generation_running && (e == ShellEvent::MapCancel || e == ShellEvent::CloseRequested) {
        assert(out[0] == ShellAction::CancelGeneration);
    }
}

/// A boundary submitted while no generation runs is saved, and nothing else is
/// done or changed; while a generation runs it is refused as locked.
pub proof fn idle_shell_saves_submitted_boundary(s: ShellState)
    ensures
        !s.generation_running ==> shell_step(s, ShellEvent::BoundarySubmitted) == (
            s,
            seq![ShellAction::SaveBoundary],
        ),
        s.generation_running ==> shell_step(s, ShellEvent::BoundarySubmitted) == (
            s,
            seq![ShellAction::ReportBoundaryLocked],
        ),
{
}

/// When a generation ends the shell no longer counts it as running, and a
/// deferred exit then happens.
pub proof fn finished_generation_releases_shell(s: ShellState, outcome: GenerationOutcome)
    ensures
        !shell_step(s, ShellEvent::GenerationFinished(outcome)).0.generation_running,
        s.exit_after_generation ==> shell_step(s, ShellEvent::GenerationFinished(outcome)).1.contains(
            ShellAction::Exit,
        ),
{
    if s.exit_after_generation {
        assert(shell_step(s, ShellEvent::GenerationFinished(outcome)).1[1] == ShellAction::Exit);
    }
}

} // verus!
