use mcrebuild::cli::{boundary_pair_texts, usage, BoundaryPairText};
use mcrebuild::text::trimmed_comma_fields;

fn fields(text: &BoundaryPairText) -> Option<(&str, &str)> {
    text.fields.as_ref().map(|(a, b)| (a.as_str(), b.as_str()))
}

#[test]
fn boundary_cli_parser_accepts_wgs84_pairs() {
    let pairs = boundary_pair_texts("121.398,31.222;121.414,31.222;121.414,31.234;121.398,31.234");
    assert_eq!(pairs.len(), 4);
    let (longitude, _) = fields(&pairs[0]).expect("first pair has a comma");
    assert_eq!(longitude.parse::<f64>().unwrap(), 121.398);
}

#[test]
fn boundary_cli_parser_rejects_bad_pair() {
    let pairs = boundary_pair_texts("121.398;121.414,31.222");
    assert_eq!(pairs.len(), 2);
    assert_eq!(pairs[0].pair, "121.398");
    assert!(pairs[0].fields.is_none());
}

#[test]
fn boundary_pairs_are_trimmed_and_blank_pieces_skipped() {
    let pairs = boundary_pair_texts("  121.4 , 31.2 ;; ;\t121.5,31.3;");
    assert_eq!(pairs.len(), 2);
    assert_eq!(pairs[0].pair, "121.4 , 31.2");
    assert_eq!(fields(&pairs[0]), Some(("121.4", "31.2")));
    assert_eq!(pairs[1].pair, "121.5,31.3");
    assert_eq!(fields(&pairs[1]), Some(("121.5", "31.3")));
}

#[test]
fn boundary_pair_is_cut_at_its_first_comma() {
    let pairs = boundary_pair_texts("1,2,3");
    assert_eq!(pairs.len(), 1);
    assert_eq!(fields(&pairs[0]), Some(("1", "2,3")));
}

#[test]
fn empty_boundary_text_has_no_pairs() {
    assert!(boundary_pair_texts("").is_empty());
    assert!(boundary_pair_texts(" ; ;").is_empty());
}

#[test]
fn usage_names_every_command() {
    let text = usage();
    assert!(text.starts_with("Usage:\n"));
    for command in ["init ", "search-campus", "init-campus", "set-boundary"] {
        assert!(text.contains(command));
    }
}

#[test]
fn location_text_is_trimmed_and_cut_at_first_comma() {
    assert_eq!(
        trimmed_comma_fields(" 121.40 , 31.23 "),
        Some(("121.40".to_owned(), "31.23".to_owned()))
    );
    assert_eq!(trimmed_comma_fields("121.40"), None);
    assert_eq!(trimmed_comma_fields(""), None);
}
