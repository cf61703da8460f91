use mcrebuild::campus::CampusCandidate;
use mcrebuild::search::{
    build_search_url, parse_campus_identity, select_campus_candidates, GaodeSearchClient,
    RawPoi, RawSearchResponse, SearchError, TextField,
};

#[test]
fn exact_display_name_is_preserved_while_extracting_campus_label() {
    let identity = parse_campus_identity("上海交通大学(闵行本部校区)");
    assert_eq!(identity.school_name, "上海交通大学");
    assert_eq!(identity.campus_name.as_deref(), Some("闵行本部校区"));
    assert_eq!(identity.display_name, "上海交通大学(闵行本部校区)");

    let identity = parse_campus_identity("复旦大学-邯郸校区");
    assert_eq!(identity.school_name, "复旦大学");
    assert_eq!(identity.campus_name.as_deref(), Some("邯郸校区"));
}

#[test]
fn campus_name_is_not_invented_when_provider_has_no_explicit_label() {
    let identity = parse_campus_identity("同济大学");
    assert_eq!(identity.school_name, "同济大学");
    assert_eq!(identity.campus_name, None);
    assert_eq!(identity.display_name, "同济大学");
}

#[test]
fn full_width_parentheses_and_dashes_are_read() {
    let identity = parse_campus_identity("华东师范大学（普陀校区）");
    assert_eq!(identity.school_name, "华东师范大学");
    assert_eq!(identity.campus_name.as_deref(), Some("普陀校区"));

    let identity = parse_campus_identity("某大学 — 南校园 ");
    assert_eq!(identity.school_name, "某大学");
    assert_eq!(identity.campus_name.as_deref(), Some("南校园"));

    let identity = parse_campus_identity("某大学－东校区");
    assert_eq!(identity.school_name, "某大学");
    assert_eq!(identity.campus_name.as_deref(), Some("东校区"));
}

#[test]
fn parentheses_without_a_campus_label_are_not_split() {
    let identity = parse_campus_identity("某大学(图书馆)");
    assert_eq!(identity.school_name, "某大学(图书馆)");
    assert_eq!(identity.campus_name, None);

    // a closing full-width parenthesis without an opening one: the separator decides
    let identity = parse_campus_identity("某大学-东校区）");
    assert_eq!(identity.school_name, "某大学");
    assert_eq!(identity.campus_name.as_deref(), Some("东校区）"));

    // no school name before the campus: not split
    let identity = parse_campus_identity("(北校区)");
    assert_eq!(identity.campus_name, None);
}

#[test]
fn request_restricts_search_to_higher_education() {
    let url = build_search_url("secret123", "华东师范大学", Some("上海市")).unwrap();
    assert!(url.contains("types=141201"));
    assert!(url.contains("city=%E4%B8%8A%E6%B5%B7%E5%B8%82"));
    assert!(url.contains("keywords=%E5%8D%8E%E4%B8%9C%E5%B8%88%E8%8C%83%E5%A4%A7%E5%AD%A6"));
}

#[test]
fn search_url_is_exact() {
    let url = build_search_url("a+b", "  Tongji ", Some("  ")).unwrap();
    assert_eq!(
        url,
        "https://restapi.amap.com/v3/place/text?key=a%2Bb&keywords=Tongji&types=141201&offset=20&page=1&extensions=base&output=json"
    );
    let url = build_search_url("k", "x y", Some(" Shanghai ")).unwrap();
    assert!(url.ends_with("&keywords=x%20y&types=141201&offset=20&page=1&extensions=base&output=json&city=Shanghai&citylimit=false"));
}

#[test]
fn blank_keyword_is_rejected_before_request() {
    assert!(matches!(
        build_search_url("secret123", "   ", None),
        Err(SearchError::BlankKeyword)
    ));
}

#[test]
fn blank_api_key_is_rejected() {
    assert!(matches!(
        GaodeSearchClient::new(" \t ".to_owned()),
        Err(SearchError::MissingApiKey)
    ));
    let client = GaodeSearchClient::new("secret123".to_owned()).unwrap();
    let url = client.search_url("同济大学", None).unwrap();
    assert!(url.contains("key=secret123&"));
    assert!(!url.contains("city="));
}

fn text(value: &str) -> TextField {
    TextField::Text(value.to_owned())
}

fn poi(id: &str, name: &str, typecode: &str, anchor: Option<(f64, f64)>) -> RawPoi<(f64, f64)> {
    RawPoi {
        id: id.to_owned(),
        name: name.to_owned(),
        typecode: typecode.to_owned(),
        address: text("中山北路3663号"),
        pname: text("上海市"),
        cityname: text("上海市"),
        adname: text("普陀区"),
        anchor,
    }
}

fn response(pois: Vec<RawPoi<(f64, f64)>>) -> RawSearchResponse<(f64, f64)> {
    RawSearchResponse {
        status: "1".to_owned(),
        info: "OK".to_owned(),
        infocode: "10000".to_owned(),
        pois,
    }
}

#[test]
fn parser_keeps_only_higher_education_and_skips_bad_coordinates() {
    let candidates: Vec<CampusCandidate<(f64, f64)>> = select_campus_candidates(&response(vec![
        poi("B01", "华东师范大学(普陀校区)", "141201", Some((121.401, 31.226))),
        poi("B02", "某中学", "141202", Some((121.4, 31.2))),
        poi("B03", "某大学", "141201", None),
    ]))
    .unwrap();
    assert_eq!(candidates.len(), 1);
    assert_eq!(candidates[0].identity.school_name, "华东师范大学");
    assert_eq!(candidates[0].identity.campus_name.as_deref(), Some("普陀校区"));
    assert_eq!(candidates[0].source.external_id, "B01");
    assert_eq!(candidates[0].source.provider, "gaode");
    assert_eq!(candidates[0].address, "上海市普陀区中山北路3663号");
    assert_eq!(candidates[0].anchor, (121.401, 31.226));
}

#[test]
fn duplicate_poi_ids_are_returned_once() {
    let candidates = select_campus_candidates(&response(vec![
        poi("B01", "某大学(主校区)", "141201", Some((121.4, 31.2))),
        poi("B01", "某大学(主校区)", "141201", Some((121.4, 31.2))),
    ]))
    .unwrap();
    assert_eq!(candidates.len(), 1);
}

#[test]
fn an_identifier_seen_with_a_bad_location_is_not_taken_later() {
    let candidates = select_campus_candidates(&response(vec![
        poi("B01", "某大学", "141201", None),
        poi("B01", "某大学", "141201", Some((121.4, 31.2))),
        poi("  ", "无编号大学", "141201", Some((121.4, 31.2))),
        poi("B04", "   ", "141201", Some((121.4, 31.2))),
    ]))
    .unwrap();
    assert!(candidates.is_empty());
}

#[test]
fn address_parts_are_flattened_and_deduplicated() {
    let mut place = poi("B09", "  某大学  ", "141201", Some((1.0, 2.0)));
    place.pname = TextField::Items(vec![Some(" 浙江省 ".to_owned()), None, Some("".to_owned())]);
    place.cityname = text("杭州市");
    place.adname = TextField::Absent;
    place.address = text("杭州市");
    let candidates = select_campus_candidates(&response(vec![place])).unwrap();
    assert_eq!(candidates[0].address, "浙江省杭州市");
    assert_eq!(candidates[0].identity.display_name, "某大学");
}

#[test]
fn service_error_is_structured_without_request_url_or_key() {
    let rejected = RawSearchResponse::<(f64, f64)> {
        status: "0".to_owned(),
        info: "INVALID_USER_KEY".to_owned(),
        infocode: "10001".to_owned(),
        pois: vec![],
    };
    let error = select_campus_candidates(&rejected).unwrap_err();
    let message = error.message();
    assert!(message.contains("INVALID_USER_KEY"));
    assert!(!message.contains("secret123"));
    assert!(!message.contains("restapi.amap.com"));
    assert_eq!(
        message,
        "campus search service rejected the request: INVALID_USER_KEY (10001)"
    );
}

#[test]
fn search_error_messages() {
    assert_eq!(
        SearchError::HttpStatus(503).message(),
        "campus search HTTP request failed with status 503"
    );
    assert_eq!(
        SearchError::MissingApiKey.message(),
        "AMAP_WEB_SERVICE_KEY is not configured"
    );
    assert_eq!(
        SearchError::MalformedResponse("eof".into()).message(),
        "campus search returned malformed data: eof"
    );
}
