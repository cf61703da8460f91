//! Provider-neutral generation lifecycle: stages, log streams and events as the
//! application reports them, and the cancellation token of a generation run.
use crate::arnis::{
    stage_rank, ArnisCancellationToken, ArnisEvent, ArnisLogStream, ArnisStage,
};
use std::path::PathBuf;
use vstd::prelude::*;

verus! {

/// A request to generate the world of the project in `project_dir` with the
/// Arnis executable at `arnis_executable`.
#[derive(Debug, PartialEq, Eq)]
pub struct GenerateProjectRequest {
    pub project_dir: PathBuf,
    pub arnis_executable: PathBuf,
}

/// A generated world, its provenance manifest and the generator version.
#[derive(Debug, PartialEq, Eq)]
pub struct GenerationResult {
    pub world_dir: PathBuf,
    pub manifest_path: PathBuf,
    pub generator_version: String,
}

/// Cancellation of a generation run, shared by all clones of the token.
#[derive(Debug, Clone)]
pub struct GenerationCancellationToken {
    inner: ArnisCancellationToken,
}

impl GenerationCancellationToken {
    /// The generator-side token that this token holds and that runs observe.
    pub closed spec fn generator_token(&self) -> ArnisCancellationToken {
        self.inner
    }

    pub fn new() -> (r: Self) {
        GenerationCancellationToken { inner: ArnisCancellationToken::new() }
    }

    /// Requests cancellation of the run that observes this token or a clone of it.
    pub fn cancel(&self) {
        self.inner.cancel()
    }

    /// Whether cancellation was requested through this token or a clone of it.
    pub fn is_cancelled(&self) -> bool {
        self.inner.is_cancelled()
    }

    /// The generator-side token that a run observes.
    pub fn arnis_token(&self) -> (r: &ArnisCancellationToken)
        ensures
            *r == self.generator_token(),
    {
        &self.inner
    }
}

#[derive(Debug, Clone, Copy, PartialEq, Eq)]
pub enum GenerationLogStream {
    Stdout,
    Stderr,
}

#[derive(Debug, Clone, Copy, PartialEq, Eq, PartialOrd, Ord)]
pub enum GenerationStage {
    PreparingData,
    ProcessingMap,
    GeneratingWorld,
    SavingWorld,
}

#[derive(Debug, Clone, PartialEq, Eq)]
pub enum GenerationEvent {
    Stage(GenerationStage),
    Log { stream: GenerationLogStream, line: String },
}

/// The position of a stage in the order of generation.
pub open spec fn generation_rank(s: GenerationStage) -> int {
    match s {
        GenerationStage::PreparingData => 0,
        GenerationStage::ProcessingMap => 1,
        GenerationStage::GeneratingWorld => 2,
        GenerationStage::SavingWorld => 3,
    }
}

pub open spec fn neutral_stage(s: ArnisStage) -> GenerationStage {
    match s {
        ArnisStage::PreparingData => GenerationStage::PreparingData,
        ArnisStage::ProcessingMap => GenerationStage::ProcessingMap,
        ArnisStage::GeneratingWorld => GenerationStage::GeneratingWorld,
        ArnisStage::SavingWorld => GenerationStage::SavingWorld,
    }
}

pub open spec fn neutral_stream(s: ArnisLogStream) -> GenerationLogStream {
    match s {
        ArnisLogStream::Stdout => GenerationLogStream::Stdout,
        ArnisLogStream::Stderr => GenerationLogStream::Stderr,
    }
}

/// The provider-neutral form of a generator event: the same stage or the same
/// log line on the same stream.
pub fn map_arnis_event(event: ArnisEvent) -> (r: GenerationEvent)
    ensures
        match event {
            ArnisEvent::Stage(s) => r == GenerationEvent::Stage(neutral_stage(s)),
            ArnisEvent::Log { stream, line } => r == GenerationEvent::Log {
                stream: neutral_stream(stream),
                line,
            },
        },
{
    match event {
        ArnisEvent::Stage(stage) => GenerationEvent::Stage(
            match stage {
                ArnisStage::PreparingData => GenerationStage::PreparingData,
                ArnisStage::ProcessingMap => GenerationStage::ProcessingMap,
                ArnisStage::GeneratingWorld => GenerationStage::GeneratingWorld,
                ArnisStage::SavingWorld => GenerationStage::SavingWorld,
            },
        ),
        ArnisEvent::Log { stream, line } => GenerationEvent::Log {
            stream: match stream {
                ArnisLogStream::Stdout => GenerationLogStream::Stdout,
                ArnisLogStream::Stderr => GenerationLogStream::Stderr,
            },
            line,
        },
    }
}

/// Mapping to provider-neutral stages keeps their order and tells stages apart.
pub proof fn neutral_stages_keep_order(a: ArnisStage, b: ArnisStage)
    ensures
        generation_rank(neutral_stage(a)) == stage_rank(a),
        stage_rank(a) < stage_rank(b) <==> generation_rank(neutral_stage(a)) < generation_rank(
            neutral_stage(b),
        ),
        neutral_stage(a) == neutral_stage(b) <==> a == b,
{
}

/// The identifier under which a stage is reported to the desktop page.
pub open spec fn stage_id_text(stage: GenerationStage) -> Seq<char> {
    match stage {
        GenerationStage::PreparingData => "preparing_data"@,
        GenerationStage::ProcessingMap => "processing_map"@,
        GenerationStage::GeneratingWorld => "generating_world"@,
        GenerationStage::SavingWorld => "saving_world"@,
    }
}

/// The label under which a stage is shown on the desktop page.
pub open spec fn stage_label_text(stage: GenerationStage) -> Seq<char> {
    match stage {
        GenerationStage::PreparingData => "准备地图与地形数据"@,
        GenerationStage::ProcessingMap => "处理校园地图对象"@,
        GenerationStage::GeneratingWorld => "生成 Minecraft 世界"@,
        GenerationStage::SavingWorld => "保存 Minecraft 世界"@,
    }
}

pub fn generation_stage_id(stage: GenerationStage) -> (r: &'static str)
    ensures
        r@ == stage_id_text(stage),
{
    match stage {
        GenerationStage::PreparingData => "preparing_data",
        GenerationStage::ProcessingMap => "processing_map",
        GenerationStage::GeneratingWorld => "generating_world",
        GenerationStage::SavingWorld => "saving_world",
    }
}

pub fn generation_stage_label(stage: GenerationStage) -> (r: &'static str)
    ensures
        r@ == stage_label_text(stage),
{
    match stage {
        GenerationStage::PreparingData => "准备地图与地形数据",
        GenerationStage::ProcessingMap => "处理校园地图对象",
        GenerationStage::GeneratingWorld => "生成 Minecraft 世界",
        GenerationStage::SavingWorld => "保存 Minecraft 世界",
    }
}

} // verus!
