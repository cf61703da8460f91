//! The order of the file-system and generator steps of two use cases: creating
//! a project directory and generating a project's world.
//!
//! The steps themselves (reading files, creating directories, running Arnis)
//! happen outside the library. Each use case is a state machine here: it is told
//! what the last step observed and answers with the next steps to take, in order.
use vstd::prelude::*;

verus! {

// ---------------------------------------------------------------------------
// Generating a world
// ---------------------------------------------------------------------------

#[derive(Debug, Clone, Copy, PartialEq, Eq)]
pub enum GenerationPhase {
    /// Nothing done yet; the project file is being read.
    Start,
    /// The project was read; whether it has a confirmed boundary.
    Loaded { has_boundary: bool },
    /// No generated world exists yet; the output directories are being created.
    Located { has_boundary: bool },
    /// Directories exist and the boundary is known; the generator version is probed.
    Prepared,
    /// The generator version is known; the generator runs into a staging directory.
    Probed,
    /// The staged world exists; its manifest is being written.
    Generated,
    /// The manifest is written; the world is being moved into place.
    Recorded,
    Succeeded,
    Failed,
}

#[derive(Debug, Clone, Copy, PartialEq, Eq)]
pub enum GenerationObservation {
    ProjectRead { has_boundary: bool },
    ProjectUnreadable,
    WorldPresence { exists: bool },
    DirectoriesCreated,
    DirectoriesFailed,
    VersionProbed,
    VersionProbeFailed,
    GeneratorFinished,
    GeneratorFailed,
    ManifestWritten,
    ManifestFailed,
    WorldPromoted,
    PromotionFailed,
}

#[derive(Debug, Clone, Copy, PartialEq, Eq)]
pub enum GenerationFailure {
    LoadProject,
    OutputAlreadyExists,
    MissingBoundary,
    Io,
    Generator,
    WriteManifest,
}

#[derive(Debug, Clone, Copy, PartialEq, Eq)]
pub enum GenerationAction {
    ReadProject,
    CheckWorld,
    CreateDirectories,
    ProbeVersion,
    RunGenerator,
    WriteManifest,
    PromoteWorld,
    RemoveStaging,
    Finish,
    Fail(GenerationFailure),
}

/// The generation use case's answer to an observation in a phase. An
/// observation that does not belong to the phase changes nothing.
pub open spec fn generation_step(p: GenerationPhase, o: GenerationObservation) -> (
    GenerationPhase,
    Seq<GenerationAction>,
) {
    match (p, o) {
        (GenerationPhase::Start, GenerationObservation::ProjectRead { has_boundary }) => (
            GenerationPhase::Loaded { has_boundary },
            seq![GenerationAction::CheckWorld],
        ),
        (GenerationPhase::Start, GenerationObservation::ProjectUnreadable) => (
            GenerationPhase::Failed,
            seq![GenerationAction::Fail(GenerationFailure::LoadProject)],
        ),
        (GenerationPhase::Loaded { has_boundary }, GenerationObservation::WorldPresence { exists }) =>
            if exists {
            (
                GenerationPhase::Failed,
                seq![GenerationAction::Fail(GenerationFailure::OutputAlreadyExists)],
            )
        } else {
            (GenerationPhase::Located { has_boundary }, seq![GenerationAction::CreateDirectories])
        },
        (GenerationPhase::Located { has_boundary }, GenerationObservation::DirectoriesCreated) =>
            if has_boundary {
            (GenerationPhase::Prepared, seq![GenerationAction::ProbeVersion])
        } else {
            (
                GenerationPhase::Failed,
                seq![GenerationAction::Fail(GenerationFailure::MissingBoundary)],
            )
        },
        (GenerationPhase::Located { .. }, GenerationObservation::DirectoriesFailed) => (
            GenerationPhase::Failed,
            seq![GenerationAction::Fail(GenerationFailure::Io)],
        ),
        (GenerationPhase::Prepared, GenerationObservation::VersionProbed) => (
            GenerationPhase::Probed,
            seq![GenerationAction::RunGenerator],
        ),
        (GenerationPhase::Prepared, GenerationObservation::VersionProbeFailed) => (
            GenerationPhase::Failed,
            seq![GenerationAction::Fail(GenerationFailure::Generator)],
        ),
        (GenerationPhase::Probed, GenerationObservation::GeneratorFinished) => (
            GenerationPhase::Generated,
            seq![GenerationAction::WriteManifest],
        ),
        (GenerationPhase::Probed, GenerationObservation::GeneratorFailed) => (
            GenerationPhase::Failed,
            seq![
                GenerationAction::RemoveStaging,
                GenerationAction::Fail(GenerationFailure::Generator),
            ],
        ),
        (GenerationPhase::Generated, GenerationObservation::ManifestWritten) => (
            GenerationPhase::Recorded,
            seq![GenerationAction::PromoteWorld],
        ),
        (GenerationPhase::Generated, GenerationObservation::ManifestFailed) => (
            GenerationPhase::Failed,
            seq![
                GenerationAction::RemoveStaging,
                GenerationAction::Fail(GenerationFailure::WriteManifest),
            ],
        ),
        (GenerationPhase::Recorded, GenerationObservation::WorldPromoted) => (
            GenerationPhase::Succeeded,
            seq![GenerationAction::RemoveStaging, GenerationAction::Finish],
        ),
        (GenerationPhase::Recorded, GenerationObservation::PromotionFailed) => (
            GenerationPhase::Failed,
            seq![GenerationAction::RemoveStaging, GenerationAction::Fail(GenerationFailure::Io)],
        ),
        _ => (p, seq![]),
    }
}

/// The phase and all actions after a sequence of observations, from the start.
pub open spec fn generation_after(obs: Seq<GenerationObservation>) -> (
    GenerationPhase,
    Seq<GenerationAction>,
)
    decreases obs.len(),
{
    if obs.len() == 0 {
        (GenerationPhase::Start, seq![GenerationAction::ReadProject])
    } else {
        let prev = generation_after(obs.drop_last());
        let next = generation_step(prev.0, obs.last());
        (next.0, prev.1 + next.1)
    }
}

/// The first steps of the generation use case.
pub fn generation_start() -> (r: (GenerationPhase, Vec<GenerationAction>))
    ensures
        r.0 == generation_after(seq![]).0,
        r.1@ == generation_after(seq![]).1,
{
    let mut actions: Vec<GenerationAction> = Vec::new();
    actions.push(GenerationAction::ReadProject);
    assert(actions@ =~= seq![GenerationAction::ReadProject]);
    (GenerationPhase::Start, actions)
}

impl GenerationPhase {
    /// The next phase and the steps to take, in order, after an observation.
    pub fn step(self, observation: GenerationObservation) -> (r: (
        GenerationPhase,
        Vec<GenerationAction>,
    ))
        ensures
            r.0 == generation_step(self, observation).0,
            r.1@ == generation_step(self, observation).1,
    {
        let mut actions: Vec<GenerationAction> = Vec::new();
        let next = match (self, observation) {
            (GenerationPhase::Start, GenerationObservation::ProjectRead { has_boundary }) => {
                actions.push(GenerationAction::CheckWorld);
                GenerationPhase::Loaded { has_boundary }
            },
            (GenerationPhase::Start, GenerationObservation::ProjectUnreadable) => {
                actions.push(GenerationAction::Fail(GenerationFailure::LoadProject));
                GenerationPhase::Failed
            },
            (
                GenerationPhase::Loaded { has_boundary },
                GenerationObservation::WorldPresence { exists },
            ) => {
                if exists {
                    actions.push(GenerationAction::Fail(GenerationFailure::OutputAlreadyExists));
                    GenerationPhase::Failed
                } else {
                    actions.push(GenerationAction::CreateDirectories);
                    GenerationPhase::Located { has_boundary }
                }
            },
            (GenerationPhase::Located { has_boundary }, GenerationObservation::DirectoriesCreated) => {
                if has_boundary {
                    actions.push(GenerationAction::ProbeVersion);
                    GenerationPhase::Prepared
                } else {
                    actions.push(GenerationAction::Fail(GenerationFailure::MissingBoundary));
                    GenerationPhase::Failed
                }
            },
            (GenerationPhase::Located { .. }, GenerationObservation::DirectoriesFailed) => {
                actions.push(GenerationAction::Fail(GenerationFailure::Io));
                GenerationPhase::Failed
            },
            (GenerationPhase::Prepared, GenerationObservation::VersionProbed) => {
                actions.push(GenerationAction::RunGenerator);
                GenerationPhase::Probed
            },
            (GenerationPhase::Prepared, GenerationObservation::VersionProbeFailed) => {
                actions.push(GenerationAction::Fail(GenerationFailure::Generator));
                GenerationPhase::Failed
            },
            (GenerationPhase::Probed, GenerationObservation::GeneratorFinished) => {
                actions.push(GenerationAction::WriteManifest);
                GenerationPhase::Generated
            },
            (GenerationPhase::Probed, GenerationObservation::GeneratorFailed) => {
                actions.push(GenerationAction::RemoveStaging);
                actions.push(GenerationAction::Fail(GenerationFailure::Generator));
                GenerationPhase::Failed
            },
            (GenerationPhase::Generated, GenerationObservation::ManifestWritten) => {
                actions.push(GenerationAction::PromoteWorld);
                GenerationPhase::Recorded
            },
            (GenerationPhase::Generated, GenerationObservation::ManifestFailed) => {
                actions.push(GenerationAction::RemoveStaging);
                actions.push(GenerationAction::Fail(GenerationFailure::WriteManifest));
                GenerationPhase::Failed
            },
            (GenerationPhase::Recorded, GenerationObservation::WorldPromoted) => {
                actions.push(GenerationAction::RemoveStaging);
                actions.push(GenerationAction::Finish);
                GenerationPhase::Succeeded
            },
            (GenerationPhase::Recorded, GenerationObservation::PromotionFailed) => {
                actions.push(GenerationAction::RemoveStaging);
                actions.push(GenerationAction::Fail(GenerationFailure::Io));
                GenerationPhase::Failed
            },
            _ => self,
        };
        assert(actions@ =~= generation_step(self, observation).1);
        (next, actions)
    }
}

/// The project was read with a confirmed boundary.
pub open spec fn read_with_boundary(obs: Seq<GenerationObservation>) -> bool {
    exists|i: int|
        0 <= i < obs.len() && obs[i] == (GenerationObservation::ProjectRead { has_boundary: true })
}

/// No generated world was found.
pub open spec fn found_no_world(obs: Seq<GenerationObservation>) -> bool {
    exists|j: int|
        0 <= j < obs.len() && obs[j] == (GenerationObservation::WorldPresence { exists: false })
}

/// The project was read with a confirmed boundary, and no generated world was found.
pub open spec fn checks_passed(obs: Seq<GenerationObservation>) -> bool {
    read_with_boundary(obs) && found_no_world(obs)
}

/// The phases in which the checks must have passed.
pub open spec fn past_checks(p: GenerationPhase) -> bool {
    match p {
        GenerationPhase::Prepared | GenerationPhase::Probed | GenerationPhase::Generated
        | GenerationPhase::Recorded | GenerationPhase::Succeeded => true,
        _ => false,
    }
}

proof fn lemma_checks_extend(obs: Seq<GenerationObservation>)
    requires
        obs.len() > 0,
    ensures
        read_with_boundary(obs.drop_last()) ==> read_with_boundary(obs),
        found_no_world(obs.drop_last()) ==> found_no_world(obs),
{
    let prev = obs.drop_last();
    if read_with_boundary(prev) {
        let i = choose|i: int|
            0 <= i < prev.len() && prev[i] == (GenerationObservation::ProjectRead {
                has_boundary: true,
            });
        assert(obs[i] == prev[i]);
    }
    if found_no_world(prev) {
        let j = choose|j: int|
            0 <= j < prev.len() && prev[j] == (GenerationObservation::WorldPresence {
                exists: false,
            });
        assert(obs[j] == prev[j]);
    }
}

proof fn lemma_generation_invariant(obs: Seq<GenerationObservation>)
    ensures
        generation_after(obs).0 == (GenerationPhase::Loaded { has_boundary: true })
            ==> read_with_boundary(obs),
        generation_after(obs).0 is Located ==> found_no_world(obs),
        generation_after(obs).0 == (GenerationPhase::Located { has_boundary: true })
            ==> read_with_boundary(obs),
        past_checks(generation_after(obs).0) ==> checks_passed(obs),
        generation_after(obs).1.contains(GenerationAction::RunGenerator) ==> checks_passed(obs),
    decreases obs.len(),
{
    if obs.len() > 0 {
        let prev_obs = obs.drop_last();
        lemma_generation_invariant(prev_obs);
        let prev = generation_after(prev_obs);
        let o = obs.last();
        let step = generation_step(prev.0, o);
        assert(obs[obs.len() - 1] == o);
        // whatever held of the earlier observations holds of the longer sequence
        assert forall|i: int| 0 <= i < prev_obs.len() implies obs[i] == prev_obs[i] by {}
        lemma_checks_extend(obs);
        if generation_after(obs).1.contains(GenerationAction::RunGenerator) {
            let k = choose|k: int|
                0 <= k < generation_after(obs).1.len() && generation_after(obs).1[k]
                    == GenerationAction::RunGenerator;
            if k < prev.1.len() {
                assert(prev.1[k] == GenerationAction::RunGenerator);
                assert(prev.1.contains(GenerationAction::RunGenerator));
            } else {
                assert(step.1[k - prev.1.len()] == GenerationAction::RunGenerator);
            }
        }
    }
}

/// The generator is never launched unless the project was read with a
/// confirmed boundary and no generated world was found: an existing world is
/// never overwritten, and a project without a boundary never reaches Arnis.
pub proof fn generator_runs_only_after_checks(obs: Seq<GenerationObservation>)
    ensures
        generation_after(obs).1.contains(GenerationAction::RunGenerator) ==> checks_passed(obs),
{
    lemma_generation_invariant(obs);
}

/// Once the generator has been launched, the use case never ends, in success or
/// in failure, without removing the staging directory first.
pub proof fn staging_is_removed_before_ending(p: GenerationPhase, o: GenerationObservation)
    requires
        p == GenerationPhase::Probed || p == GenerationPhase::Generated || p
            == GenerationPhase::Recorded,
    ensures
        generation_step(p, o).1.len() > 0 && (generation_step(p, o).1.last()
            == GenerationAction::Finish || generation_step(p, o).1.last() is Fail) ==> generation_step(
            p,
            o,
        ).1[0] == GenerationAction::RemoveStaging,
        generation_step(p, o).1.contains(GenerationAction::Finish) ==> generation_step(p, o).0
            == GenerationPhase::Succeeded,
{
    let out = generation_step(p, o).1;
    if out.contains(GenerationAction::Finish) {
        let k = choose|k: int| 0 <= k < out.len() && out[k] == GenerationAction::Finish;
        assert(out[k] == GenerationAction::Finish);
    }
}

/// A generated world that is found is always refused, before the boundary is
/// looked at: whether or not the project has a boundary, the use case fails with
/// `OutputAlreadyExists` and does nothing more.
pub proof fn existing_world_is_refused(obs: Seq<GenerationObservation>)
    requires
        generation_after(obs).0 is Loaded,
    ensures
        generation_after(obs.push(GenerationObservation::WorldPresence { exists: true })) == (
            GenerationPhase::Failed,
            generation_after(obs).1.push(
                GenerationAction::Fail(GenerationFailure::OutputAlreadyExists),
            ),
        ),
{
    let next = obs.push(GenerationObservation::WorldPresence { exists: true });
    assert(next.drop_last() =~= obs);
    assert(generation_after(obs).1 + seq![
        GenerationAction::Fail(GenerationFailure::OutputAlreadyExists),
    ] =~= generation_after(obs).1.push(
        GenerationAction::Fail(GenerationFailure::OutputAlreadyExists),
    ));
}

// ---------------------------------------------------------------------------
// Creating a project directory
// ---------------------------------------------------------------------------

#[derive(Debug, Clone, Copy, PartialEq, Eq)]
pub enum CreationPhase {
    /// The target is being inspected.
    Start,
    /// The target did not exist and is being created.
    Creating,
    /// The project files are being written; whether the target was created here.
    Writing { created_target: bool },
    Succeeded,
    Failed,
}

#[derive(Debug, Clone, Copy, PartialEq, Eq)]
pub enum CreationObservation {
    TargetAbsent,
    TargetIsNotDirectory,
    TargetNotEmpty,
    TargetEmpty,
    InspectionFailed,
    TargetCreated,
    TargetCreationFailed,
    ContentsWritten,
    ContentsFailed,
}

#[derive(Debug, Clone, Copy, PartialEq, Eq)]
pub enum CreationFailure {
    TargetIsNotDirectory,
    TargetNotEmpty,
    Io,
    Contents,
}

#[derive(Debug, Clone, Copy, PartialEq, Eq)]
pub enum CreationAction {
    InspectTarget,
    CreateTarget,
    WriteContents,
    RemoveTarget,
    Finish,
    Fail(CreationFailure),
}

/// The creation use case's answer to an observation in a phase. An observation
/// that does not belong to the phase changes nothing.
pub open spec fn creation_step(p: CreationPhase, o: CreationObservation) -> (
    CreationPhase,
    Seq<CreationAction>,
) {
    match (p, o) {
        (CreationPhase::Start, CreationObservation::TargetAbsent) => (
            CreationPhase::Creating,
            seq![CreationAction::CreateTarget],
        ),
        (CreationPhase::Start, CreationObservation::TargetIsNotDirectory) => (
            CreationPhase::Failed,
            seq![CreationAction::Fail(CreationFailure::TargetIsNotDirectory)],
        ),
        (CreationPhase::Start, CreationObservation::TargetNotEmpty) => (
            CreationPhase::Failed,
            seq![CreationAction::Fail(CreationFailure::TargetNotEmpty)],
        ),
        (CreationPhase::Start, CreationObservation::TargetEmpty) => (
            CreationPhase::Writing { created_target: false },
            seq![CreationAction::WriteContents],
        ),
        (CreationPhase::Start, CreationObservation::InspectionFailed) => (
            CreationPhase::Failed,
            seq![CreationAction::Fail(CreationFailure::Io)],
        ),
        (CreationPhase::Creating, CreationObservation::TargetCreated) => (
            CreationPhase::Writing { created_target: true },
            seq![CreationAction::WriteContents],
        ),
        (CreationPhase::Creating, CreationObservation::TargetCreationFailed) => (
            CreationPhase::Failed,
            seq![CreationAction::Fail(CreationFailure::Io)],
        ),
        (CreationPhase::Writing { .. }, CreationObservation::ContentsWritten) => (
            CreationPhase::Succeeded,
            seq![CreationAction::Finish],
        ),
        (CreationPhase::Writing { created_target }, CreationObservation::ContentsFailed) =>
            if created_target {
            (
                CreationPhase::Failed,
                seq![CreationAction::RemoveTarget, CreationAction::Fail(CreationFailure::Contents)],
            )
        } else {
            (CreationPhase::Failed, seq![CreationAction::Fail(CreationFailure::Contents)])
        },
        _ => (p, seq![]),
    }
}

/// The phase and all actions after a sequence of observations, from the start.
pub open spec fn creation_after(obs: Seq<CreationObservation>) -> (
    CreationPhase,
    Seq<CreationAction>,
)
    decreases obs.len(),
{
    if obs.len() == 0 {
        (CreationPhase::Start, seq![CreationAction::InspectTarget])
    } else {
        let prev = creation_after(obs.drop_last());
        let next = creation_step(prev.0, obs.last());
        (next.0, prev.1 + next.1)
    }
}

/// The first steps of the creation use case.
pub fn creation_start() -> (r: (CreationPhase, Vec<CreationAction>))
    ensures
        r.0 == creation_after(seq![]).0,
        r.1@ == creation_after(seq![]).1,
{
    let mut actions: Vec<CreationAction> = Vec::new();
    actions.push(CreationAction::InspectTarget);
    assert(actions@ =~= seq![CreationAction::InspectTarget]);
    (CreationPhase::Start, actions)
}

impl CreationPhase {
    /// The next phase and the steps to take, in order, after an observation.
    pub fn step(self, observation: CreationObservation) -> (r: (CreationPhase, Vec<CreationAction>))
        ensures
            r.0 == creation_step(self, observation).0,
            r.1@ == creation_step(self, observation).1,
    {
        let mut actions: Vec<CreationAction> = Vec::new();
        let next = match (self, observation) {
            (CreationPhase::Start, CreationObservation::TargetAbsent) => {
                actions.push(CreationAction::CreateTarget);
                CreationPhase::Creating
            },
            (CreationPhase::Start, CreationObservation::TargetIsNotDirectory) => {
                actions.push(CreationAction::Fail(CreationFailure::TargetIsNotDirectory));
                CreationPhase::Failed
            },
            (CreationPhase::Start, CreationObservation::TargetNotEmpty) => {
                actions.push(CreationAction::Fail(CreationFailure::TargetNotEmpty));
                CreationPhase::Failed
            },
            (CreationPhase::Start, CreationObservation::TargetEmpty) => {
                actions.push(CreationAction::WriteContents);
                CreationPhase::Writing { created_target: false }
            },
            (CreationPhase::Start, CreationObservation::InspectionFailed) => {
                actions.push(CreationAction::Fail(CreationFailure::Io));
                CreationPhase::Failed
            },
            (CreationPhase::Creating, CreationObservation::TargetCreated) => {
                actions.push(CreationAction::WriteContents);
                CreationPhase::Writing { created_target: true }
            },
            (CreationPhase::Creating, CreationObservation::TargetCreationFailed) => {
                actions.push(CreationAction::Fail(CreationFailure::Io));
                CreationPhase::Failed
            },
            (CreationPhase::Writing { .. }, CreationObservation::ContentsWritten) => {
                actions.push(CreationAction::Finish);
                CreationPhase::Succeeded
            },
            (CreationPhase::Writing { created_target }, CreationObservation::ContentsFailed) => {
                if created_target {
                    actions.push(CreationAction::RemoveTarget);
                }
                actions.push(CreationAction::Fail(CreationFailure::Contents));
                CreationPhase::Failed
            },
            _ => self,
        };
        assert(actions@ =~= creation_step(self, observation).1);
        (next, actions)
    }
}

/// Observation `o` is among `obs`.
pub open spec fn observed(obs: Seq<CreationObservation>, o: CreationObservation) -> bool {
    exists|i: int| 0 <= i < obs.len() && obs[i] == o
}

proof fn lemma_observed_extend(obs: Seq<CreationObservation>, o: CreationObservation)
    requires
        obs.len() > 0,
        observed(obs.drop_last(), o),
    ensures
        observed(obs, o),
{
    let i = choose|i: int| 0 <= i < obs.drop_last().len() && obs.drop_last()[i] == o;
    assert(obs[i] == obs.drop_last()[i]);
}

proof fn lemma_creation_invariant(obs: Seq<CreationObservation>)
    ensures
        creation_after(obs).0 == CreationPhase::Creating ==> observed(
            obs,
            CreationObservation::TargetAbsent,
        ),
        creation_after(obs).0 matches CreationPhase::Writing { created_target } ==> (observed(
            obs,
            CreationObservation::TargetAbsent,
        ) || observed(obs, CreationObservation::TargetEmpty)) && (created_target ==> observed(
            obs,
            CreationObservation::TargetAbsent,
        )),
        creation_after(obs).1.contains(CreationAction::RemoveTarget) ==> observed(
            obs,
            CreationObservation::TargetAbsent,
        ),
        creation_after(obs).1.contains(CreationAction::WriteContents) ==> observed(
            obs,
            CreationObservation::TargetAbsent,
        ) || observed(obs, CreationObservation::TargetEmpty),
    decreases obs.len(),
{
    if obs.len() > 0 {
        let prev_obs = obs.drop_last();
        lemma_creation_invariant(prev_obs);
        let prev = creation_after(prev_obs);
        let o = obs.last();
        let step = creation_step(prev.0, o);
        assert(obs[obs.len() - 1] == o);
        if observed(prev_obs, CreationObservation::TargetAbsent) {
            lemma_observed_extend(obs, CreationObservation::TargetAbsent);
        }
        if observed(prev_obs, CreationObservation::TargetEmpty) {
            lemma_observed_extend(obs, CreationObservation::TargetEmpty);
        }
        let all = creation_after(obs).1;
        assert(all == prev.1 + step.1);
        if all.contains(CreationAction::RemoveTarget) {
            let k = choose|k: int| 0 <= k < all.len() && all[k] == CreationAction::RemoveTarget;
            if k < prev.1.len() {
                assert(prev.1[k] == CreationAction::RemoveTarget);
            } else {
                assert(step.1[k - prev.1.len()] == CreationAction::RemoveTarget);
            }
        }
        if all.contains(CreationAction::WriteContents) {
            let k = choose|k: int| 0 <= k < all.len() && all[k] == CreationAction::WriteContents;
            if k < prev.1.len() {
                assert(prev.1[k] == CreationAction::WriteContents);
            } else {
                assert(step.1[k - prev.1.len()] == CreationAction::WriteContents);
            }
        }
    }
}

/// Creating a project never writes into a target that exists and is not an
/// empty directory, and never removes a target that existed before: only a
/// directory created by this use case is removed after a failed write.
pub proof fn creation_preserves_existing_targets(obs: Seq<CreationObservation>)
    ensures
        creation_after(obs).1.contains(CreationAction::WriteContents) ==> observed(
            obs,
            CreationObservation::TargetAbsent,
        ) || observed(obs, CreationObservation::TargetEmpty),
        creation_after(obs).1.contains(CreationAction::RemoveTarget) ==> observed(
            obs,
            CreationObservation::TargetAbsent,
        ),
{
    lemma_creation_invariant(obs);
}

/// Once the project files are written the creation succeeds and finishes,
/// whether the target was created by this use case or was an existing empty
/// directory.
pub proof fn written_contents_complete_creation(obs: Seq<CreationObservation>)
    requires
        creation_after(obs).0 is Writing,
    ensures
        creation_after(obs.push(CreationObservation::ContentsWritten)) == (
            CreationPhase::Succeeded,
            creation_after(obs).1.push(CreationAction::Finish),
        ),
{
    let next = obs.push(CreationObservation::ContentsWritten);
    assert(next.drop_last() =~= obs);
    assert(creation_after(obs).1 + seq![CreationAction::Finish] =~= creation_after(obs).1.push(
        CreationAction::Finish,
    ));
}

} // verus!
