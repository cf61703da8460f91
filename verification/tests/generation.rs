use mcrebuild::arnis::{ArnisEvent, ArnisLogStream, ArnisStage};
use mcrebuild::generation::{
    generation_stage_id, generation_stage_label, map_arnis_event, GenerationCancellationToken,
    GenerationEvent, GenerationLogStream, GenerationStage,
};

#[test]
fn cancellation_token_is_clone_shared_without_exposing_provider_type() {
    let token = GenerationCancellationToken::new();
    let clone = token.clone();
    assert!(!token.is_cancelled());
    clone.cancel();
    assert!(token.is_cancelled());
}

#[test]
fn arnis_events_map_to_provider_neutral_events() {
    assert_eq!(
        map_arnis_event(ArnisEvent::Stage(ArnisStage::GeneratingWorld)),
        GenerationEvent::Stage(GenerationStage::GeneratingWorld)
    );
    assert_eq!(
        map_arnis_event(ArnisEvent::Log {
            stream: ArnisLogStream::Stderr,
            line: "warning".into(),
        }),
        GenerationEvent::Log {
            stream: GenerationLogStream::Stderr,
            line: "warning".into(),
        }
    );
}

#[test]
fn every_arnis_stage_maps_to_the_neutral_stage_of_the_same_rank() {
    let pairs = [
        (ArnisStage::PreparingData, GenerationStage::PreparingData),
        (ArnisStage::ProcessingMap, GenerationStage::ProcessingMap),
        (ArnisStage::GeneratingWorld, GenerationStage::GeneratingWorld),
        (ArnisStage::SavingWorld, GenerationStage::SavingWorld),
    ];
    for (arnis, neutral) in pairs {
        assert_eq!(map_arnis_event(ArnisEvent::Stage(arnis)), GenerationEvent::Stage(neutral));
    }
    assert!(GenerationStage::PreparingData < GenerationStage::SavingWorld);
    assert_eq!(
        map_arnis_event(ArnisEvent::Log {
            stream: ArnisLogStream::Stdout,
            line: "[7/7] Saving world...".into(),
        }),
        GenerationEvent::Log {
            stream: GenerationLogStream::Stdout,
            line: "[7/7] Saving world...".into(),
        }
    );
}

#[test]
fn stage_ids_and_labels_for_the_desktop_page() {
    assert_eq!(generation_stage_id(GenerationStage::PreparingData), "preparing_data");
    assert_eq!(generation_stage_id(GenerationStage::ProcessingMap), "processing_map");
    assert_eq!(generation_stage_id(GenerationStage::GeneratingWorld), "generating_world");
    assert_eq!(generation_stage_id(GenerationStage::SavingWorld), "saving_world");
    assert_eq!(generation_stage_label(GenerationStage::PreparingData), "准备地图与地形数据");
    assert_eq!(generation_stage_label(GenerationStage::SavingWorld), "保存 Minecraft 世界");
}

#[test]
fn cancelling_one_token_does_not_cancel_another() {
    let first = GenerationCancellationToken::new();
    let second = GenerationCancellationToken::new();
    first.cancel();
    assert!(first.is_cancelled());
    assert!(!second.is_cancelled());
    assert!(first.arnis_token().is_cancelled());
}
