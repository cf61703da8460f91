use mcrebuild::campus::{
    ensure_supported_generation_target, find_candidate, CampusCandidate, CampusIdentity, CampusObjectCollection,
    CampusSourceReference, GenerationTarget, ProjectId, RealityModel, RealitySource,
    OBJECTS_SCHEMA_VERSION, REALITY_SCHEMA_VERSION,
};

fn point(longitude: f64, latitude: f64) -> (f64, f64) {
    (longitude, latitude)
}

#[test]
fn reality_model_preserves_selected_candidate_source() {
    let candidate = CampusCandidate {
        source: CampusSourceReference {
            provider: "gaode".into(),
            external_id: "B001".into(),
        },
        identity: CampusIdentity {
            school_name: "华东师范大学".into(),
            campus_name: Some("普陀校区".into()),
            display_name: "华东师范大学(普陀校区)".into(),
        },
        address: "中山北路3663号".into(),
        anchor: point(121.400, 31.226),
    };

    let reality = RealityModel::from_candidate(&candidate);
    assert_eq!(reality.sources.len(), 1);
    assert_eq!(reality.sources[0].reference, "B001");
    assert_eq!(reality.sources[0].anchor, Some(candidate.anchor));
    assert_eq!(reality.sources[0].kind, "gaode");
    assert_eq!(reality.schema_version, REALITY_SCHEMA_VERSION);
    assert_eq!(reality.campus_anchor(), Some(point(121.400, 31.226)));
}

#[test]
fn manual_identity_joins_school_and_campus() {
    let identity = CampusIdentity::manual("华东师范大学", "普陀校区");
    assert_eq!(identity.school_name, "华东师范大学");
    assert_eq!(identity.campus_name.as_deref(), Some("普陀校区"));
    assert_eq!(identity.display_name, "华东师范大学 · 普陀校区");

    let identity = CampusIdentity::manual("同济大学", "同济大学");
    assert_eq!(identity.display_name, "同济大学");
    assert_eq!(identity.campus_name.as_deref(), Some("同济大学"));
}

#[test]
fn manual_project_has_no_anchor() {
    let reality = RealityModel::<(f64, f64)>::empty();
    assert!(reality.sources.is_empty());
    assert_eq!(reality.campus_anchor(), None);
}

#[test]
fn campus_anchor_is_that_of_the_first_source_with_one() {
    let source = |anchor: Option<(f64, f64)>| RealitySource {
        kind: "k".to_owned(),
        reference: "r".to_owned(),
        display_name: None,
        address: None,
        anchor,
    };
    let reality = RealityModel {
        schema_version: REALITY_SCHEMA_VERSION,
        sources: vec![source(None), source(Some((1.0, 2.0))), source(Some((3.0, 4.0)))],
    };
    assert_eq!(reality.campus_anchor(), Some((1.0, 2.0)));
}

#[test]
fn empty_collections_and_targets() {
    let objects = CampusObjectCollection::empty();
    assert_eq!(objects.schema_version, OBJECTS_SCHEMA_VERSION);
    assert!(objects.objects.is_empty());
    assert!(ensure_supported_generation_target(GenerationTarget::MinecraftJava).is_ok());
    assert_ne!(ProjectId::new(), ProjectId::new());
    assert_eq!(ProjectId::new().0.get_version_num(), 4);
}

#[test]
fn selected_candidate_is_found_by_provider_id() {
    let candidate = |id: &str| CampusCandidate {
        source: CampusSourceReference {
            provider: "gaode".into(),
            external_id: id.into(),
        },
        identity: CampusIdentity::manual("复旦大学", "邯郸校区"),
        address: String::new(),
        anchor: point(121.5, 31.3),
    };
    let candidates = vec![candidate("B001"), candidate("B002"), candidate("B002")];
    assert_eq!(find_candidate(&candidates, "B002"), Some(1));
    assert_eq!(find_candidate(&candidates, "B001"), Some(0));
    assert_eq!(find_candidate(&candidates, "B00"), None);
    assert_eq!(find_candidate::<(f64, f64)>(&Vec::new(), "B001"), None);
}
