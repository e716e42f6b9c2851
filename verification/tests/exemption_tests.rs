use retest_gate::exemption::is_golden_sample;

#[test]
fn exact_match_is_golden() {
    let list = vec!["VLLDDD0000001".to_string(), "VLLDDD0000002".to_string()];
    assert!(is_golden_sample("VLLDDD0000002", &list));
}

#[test]
fn absent_identifier_is_not_golden() {
    let list = vec!["VLLDDD0000001".to_string()];
    assert!(!is_golden_sample("VLLDDD0000009", &list));
}

#[test]
fn empty_list_has_no_golden_samples() {
    let list: Vec<String> = Vec::new();
    assert!(!is_golden_sample("VLLDDD0000001", &list));
}

#[test]
fn matching_is_case_sensitive() {
    let list = vec!["vlldDD0000001".to_string()];
    assert!(!is_golden_sample("VLLDDD0000001", &list));
}

#[test]
fn no_trimming_is_applied() {
    let list = vec!["VLLDDD0000001 ".to_string()];
    assert!(!is_golden_sample("VLLDDD0000001", &list));
    assert!(is_golden_sample("VLLDDD0000001 ", &list));
}

#[test]
fn first_line_matches_too() {
    let list = vec![
        "AAA".to_string(),
        "BBB".to_string(),
        "CCC".to_string(),
    ];
    assert!(is_golden_sample("AAA", &list));
    assert!(is_golden_sample("CCC", &list));
}
