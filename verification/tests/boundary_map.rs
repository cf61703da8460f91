use mcrebuild::boundary_map::{
    build_boundary_editor_html, escape_script_json, submitted_vertices, BoundaryMapError,
};

fn bootstrap(campus_display_name: &str) -> String {
    format!(
        "{{\"securityCode\":\"security-code\",\"campusDisplayName\":{},\"anchorGcj02\":[121.40452,31.22412],\"existingBoundaryGcj02\":null}}",
        format!("{:?}", campus_display_name)
    )
}

#[test]
fn generated_page_uses_encoded_key_and_small_ipc_contract() {
    let html =
        build_boundary_editor_html("abc+123", "security-code", &bootstrap("华东师范大学(普陀校区)"))
            .unwrap();
    assert!(html.contains("key=abc%2B123"));
    assert!(html.contains("submit_boundary"));
    assert!(html.contains("AMap.PolygonEditor"));
    assert!(!html.contains("AMap.PlaceSearch"));
    assert!(!html.contains("__BOOTSTRAP_JSON__"));
    assert!(!html.contains("__AMAP_JS_KEY__"));
    assert!(html.contains("\"campusDisplayName\":\"华东师范大学(普陀校区)\""));
}

#[test]
fn bootstrap_json_cannot_break_out_of_script_element() {
    let html = build_boundary_editor_html(
        "abc+123",
        "security-code",
        &bootstrap("</script><script>alert(1)</script>"),
    )
    .unwrap();
    assert!(!html.contains("</script><script>alert(1)</script>"));
    assert!(html.contains("\\u003c/script\\u003e"));
}

#[test]
fn escaping_replaces_only_markup_characters() {
    assert_eq!(
        escape_script_json("a&b<c>d\"").iter().collect::<String>(),
        "a\\u0026b\\u003cc\\u003ed\""
    );
}

#[test]
fn missing_web_keys_are_rejected() {
    assert!(matches!(
        build_boundary_editor_html("", "security-code", "{}"),
        Err(BoundaryMapError::MissingJsApiKey)
    ));
    assert!(matches!(
        build_boundary_editor_html("abc+123", "", "{}"),
        Err(BoundaryMapError::MissingSecurityCode)
    ));
    assert!(matches!(
        build_boundary_editor_html("  ", "  ", "{}"),
        Err(BoundaryMapError::MissingJsApiKey)
    ));
}

#[test]
fn out_of_range_coordinates_are_rejected() {
    let converted: Vec<Option<(f64, f64)>> = vec![None];
    assert!(matches!(
        submitted_vertices(&converted),
        Err(BoundaryMapError::InvalidCoordinate { index: 0 })
    ));
    let converted = vec![Some((1.0, 2.0)), None, None];
    assert!(matches!(
        submitted_vertices(&converted),
        Err(BoundaryMapError::InvalidCoordinate { index: 1 })
    ));
    let converted = vec![Some((1.0, 2.0)), Some((3.0, 4.0))];
    assert_eq!(submitted_vertices(&converted).unwrap(), vec![(1.0, 2.0), (3.0, 4.0)]);
}

#[test]
fn map_error_messages() {
    assert_eq!(
        BoundaryMapError::InvalidCoordinate { index: 12 }.message(),
        "boundary map coordinate at index 12 is invalid"
    );
    assert_eq!(
        BoundaryMapError::MissingJsApiKey.message(),
        "AMAP_JS_KEY is not configured"
    );
}
