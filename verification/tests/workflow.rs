use mcrebuild::workflow::{
    creation_start, generation_start, CreationAction, CreationFailure, CreationObservation,
    CreationPhase, GenerationAction, GenerationFailure, GenerationObservation, GenerationPhase,
};

fn run_generation(observations: &[GenerationObservation]) -> (GenerationPhase, Vec<GenerationAction>) {
    let (mut phase, mut actions) = generation_start();
    for observation in observations {
        let (next, more) = phase.step(*observation);
        phase = next;
        actions.extend(more);
    }
    (phase, actions)
}

fn run_creation(observations: &[CreationObservation]) -> (CreationPhase, Vec<CreationAction>) {
    let (mut phase, mut actions) = creation_start();
    for observation in observations {
        let (next, more) = phase.step(*observation);
        phase = next;
        actions.extend(more);
    }
    (phase, actions)
}

#[test]
fn generation_happy_path_runs_every_step_in_order() {
    let (phase, actions) = run_generation(&[
        GenerationObservation::ProjectRead { has_boundary: true },
        GenerationObservation::WorldPresence { exists: false },
        GenerationObservation::DirectoriesCreated,
        GenerationObservation::VersionProbed,
        GenerationObservation::GeneratorFinished,
        GenerationObservation::ManifestWritten,
        GenerationObservation::WorldPromoted,
    ]);
    assert_eq!(phase, GenerationPhase::Succeeded);
    assert_eq!(
        actions,
        vec![
            GenerationAction::ReadProject,
            GenerationAction::CheckWorld,
            GenerationAction::CreateDirectories,
            GenerationAction::ProbeVersion,
            GenerationAction::RunGenerator,
            GenerationAction::WriteManifest,
            GenerationAction::PromoteWorld,
            GenerationAction::RemoveStaging,
            GenerationAction::Finish,
        ]
    );
}

#[test]
fn generation_refuses_existing_world_before_checking_the_boundary() {
    let (phase, actions) = run_generation(&[
        GenerationObservation::ProjectRead { has_boundary: false },
        GenerationObservation::WorldPresence { exists: true },
    ]);
    assert_eq!(phase, GenerationPhase::Failed);
    assert_eq!(
        actions.last(),
        Some(&GenerationAction::Fail(GenerationFailure::OutputAlreadyExists))
    );
    assert!(!actions.contains(&GenerationAction::RunGenerator));
}

#[test]
fn generation_without_boundary_stops_after_creating_directories() {
    let (phase, actions) = run_generation(&[
        GenerationObservation::ProjectRead { has_boundary: false },
        GenerationObservation::WorldPresence { exists: false },
        GenerationObservation::DirectoriesCreated,
    ]);
    assert_eq!(phase, GenerationPhase::Failed);
    assert_eq!(
        actions,
        vec![
            GenerationAction::ReadProject,
            GenerationAction::CheckWorld,
            GenerationAction::CreateDirectories,
            GenerationAction::Fail(GenerationFailure::MissingBoundary),
        ]
    );
}

#[test]
fn generation_failure_after_launch_removes_staging_first() {
    let (phase, actions) = run_generation(&[
        GenerationObservation::ProjectRead { has_boundary: true },
        GenerationObservation::WorldPresence { exists: false },
        GenerationObservation::DirectoriesCreated,
        GenerationObservation::VersionProbed,
        GenerationObservation::GeneratorFailed,
    ]);
    assert_eq!(phase, GenerationPhase::Failed);
    assert_eq!(
        &actions[actions.len() - 2..],
        &[
            GenerationAction::RemoveStaging,
            GenerationAction::Fail(GenerationFailure::Generator),
        ]
    );

    let (_, manifest_failed) = GenerationPhase::Generated.step(GenerationObservation::ManifestFailed);
    assert_eq!(
        manifest_failed,
        vec![
            GenerationAction::RemoveStaging,
            GenerationAction::Fail(GenerationFailure::WriteManifest),
        ]
    );
    let (_, promotion_failed) = GenerationPhase::Recorded.step(GenerationObservation::PromotionFailed);
    assert_eq!(
        promotion_failed,
        vec![GenerationAction::RemoveStaging, GenerationAction::Fail(GenerationFailure::Io)]
    );
}

#[test]
fn generation_probe_failure_and_unreadable_project_fail_directly() {
    let (_, probe) = GenerationPhase::Prepared.step(GenerationObservation::VersionProbeFailed);
    assert_eq!(probe, vec![GenerationAction::Fail(GenerationFailure::Generator)]);
    let (phase, actions) = run_generation(&[GenerationObservation::ProjectUnreadable]);
    assert_eq!(phase, GenerationPhase::Failed);
    assert_eq!(
        actions,
        vec![
            GenerationAction::ReadProject,
            GenerationAction::Fail(GenerationFailure::LoadProject),
        ]
    );
}

#[test]
fn generation_ignores_observations_out_of_turn() {
    let (next, actions) = GenerationPhase::Start.step(GenerationObservation::GeneratorFinished);
    assert_eq!(next, GenerationPhase::Start);
    assert!(actions.is_empty());
}

#[test]
fn creation_into_absent_target_creates_and_writes() {
    let (phase, actions) = run_creation(&[
        CreationObservation::TargetAbsent,
        CreationObservation::TargetCreated,
        CreationObservation::ContentsWritten,
    ]);
    assert_eq!(phase, CreationPhase::Succeeded);
    assert_eq!(
        actions,
        vec![
            CreationAction::InspectTarget,
            CreationAction::CreateTarget,
            CreationAction::WriteContents,
            CreationAction::Finish,
        ]
    );
}

#[test]
fn creation_removes_only_a_target_it_created() {
    let (_, created) = run_creation(&[
        CreationObservation::TargetAbsent,
        CreationObservation::TargetCreated,
        CreationObservation::ContentsFailed,
    ]);
    assert_eq!(
        &created[created.len() - 2..],
        &[CreationAction::RemoveTarget, CreationAction::Fail(CreationFailure::Contents)]
    );

    let (_, existing) = run_creation(&[
        CreationObservation::TargetEmpty,
        CreationObservation::ContentsFailed,
    ]);
    assert!(!existing.contains(&CreationAction::RemoveTarget));
    assert_eq!(existing.last(), Some(&CreationAction::Fail(CreationFailure::Contents)));
}

#[test]
fn creation_refuses_occupied_targets_without_writing() {
    let (phase, not_empty) = run_creation(&[CreationObservation::TargetNotEmpty]);
    assert_eq!(phase, CreationPhase::Failed);
    assert_eq!(
        not_empty,
        vec![
            CreationAction::InspectTarget,
            CreationAction::Fail(CreationFailure::TargetNotEmpty),
        ]
    );
    let (_, not_dir) = run_creation(&[CreationObservation::TargetIsNotDirectory]);
    assert_eq!(
        not_dir.last(),
        Some(&CreationAction::Fail(CreationFailure::TargetIsNotDirectory))
    );
    assert!(!not_dir.contains(&CreationAction::WriteContents));
}
