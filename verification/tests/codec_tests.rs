use retest_gate::codec::increment_sn;
use retest_gate::error::CodecError;

#[test]
fn siblings_basic_panel() {
    let ids = increment_sn("VLLDDD0001234XYZ", 4).unwrap();
    assert_eq!(
        ids,
        vec![
            "VLLDDD0001234XYZ".to_string(),
            "VLLDDD0001235XYZ".to_string(),
            "VLLDDD0001236XYZ".to_string(),
            "VLLDDD0001237XYZ".to_string(),
        ]
    );
}

#[test]
fn siblings_first_is_input() {
    let ids = increment_sn("ABCDEF1234567", 3).unwrap();
    assert_eq!(ids.len(), 3);
    assert_eq!(ids[0], "ABCDEF1234567");
}

#[test]
fn panel_of_one_returns_input_unchanged() {
    let ids = increment_sn("VLLDDD0000042", 1).unwrap();
    assert_eq!(ids, vec!["VLLDDD0000042".to_string()]);
}

#[test]
fn panel_of_one_keeps_trailing_characters() {
    let ids = increment_sn("VLLDDD9999999*R2", 1).unwrap();
    assert_eq!(ids, vec!["VLLDDD9999999*R2".to_string()]);
}

#[test]
fn sequence_overflow_is_reported() {
    let r = increment_sn("VLLDDD9999999", 2);
    assert_eq!(r, Err(CodecError::SequenceOverflow));
}

#[test]
fn sequence_overflow_on_later_board() {
    let r = increment_sn("VLLDDD9999997", 4);
    assert_eq!(r, Err(CodecError::SequenceOverflow));
}

#[test]
fn last_board_just_fits() {
    let ids = increment_sn("VLLDDD9999997", 3).unwrap();
    assert_eq!(
        ids,
        vec![
            "VLLDDD9999997".to_string(),
            "VLLDDD9999998".to_string(),
            "VLLDDD9999999".to_string(),
        ]
    );
}

#[test]
fn zero_padding_is_kept() {
    let ids = increment_sn("AAAAAA0000099", 2).unwrap();
    assert_eq!(ids[1], "AAAAAA0000100");
}

#[test]
fn trailing_characters_are_kept_on_siblings() {
    let ids = increment_sn("AAAAAA0000001+TAIL", 2).unwrap();
    assert_eq!(ids[1], "AAAAAA0000002+TAIL");
}

#[test]
fn too_short_identifier_is_malformed() {
    let r = increment_sn("VLLDDD123", 2);
    assert_eq!(r, Err(CodecError::MalformedIdentifier));
}

#[test]
fn empty_identifier_is_malformed() {
    let r = increment_sn("", 1);
    assert_eq!(r, Err(CodecError::MalformedIdentifier));
}

#[test]
fn non_digit_in_field_is_malformed() {
    let r = increment_sn("VLLDDD12a4567", 2);
    assert_eq!(r, Err(CodecError::MalformedIdentifier));
}

#[test]
fn malformed_wins_over_overflow() {
    // The field is checked before any arithmetic happens.
    let r = increment_sn("VLLDDD99999x9", 200);
    assert_eq!(r, Err(CodecError::MalformedIdentifier));
}

#[test]
fn largest_panel_size() {
    let ids = increment_sn("VLLDDD0000000", 255).unwrap();
    assert_eq!(ids.len(), 255);
    assert_eq!(ids[254], "VLLDDD0000254");
}
