use vbox_setup::medium::{extract_medium_id, medium_id_from_match};

const SAMPLE_ID: &str = "3f2504e0-4f89-11d3-9a0c-0305e82c3301";

#[test]
fn uuid_is_extracted_from_first_line() {
    let out = "UUID:           3f2504e0-4f89-11d3-9a0c-0305e82c3301\nParent UUID:    base\nState:          created\n";
    assert_eq!(extract_medium_id(out), Some(SAMPLE_ID.to_string()));
}

#[test]
fn uuid_is_extracted_among_other_lines() {
    let out = "Name:           disk\nUUID: 3f2504e0-4f89-11d3-9a0c-0305e82c3301\nLocation:       C:/VMs/Ubuntu_64/Ubuntu_DISK.vdi\n";
    assert_eq!(extract_medium_id(out), Some(SAMPLE_ID.to_string()));
}

#[test]
fn uuid_at_end_of_text_without_newline() {
    let out = "UUID:\t3f2504e0-4f89-11d3-9a0c-0305e82c3301";
    assert_eq!(extract_medium_id(out), Some(SAMPLE_ID.to_string()));
}

#[test]
fn uuid_with_carriage_returns() {
    let out = "UUID:   3f2504e0-4f89-11d3-9a0c-0305e82c3301\r\nState: created\r\n";
    assert_eq!(extract_medium_id(out), Some(SAMPLE_ID.to_string()));
}

#[test]
fn labelled_field_inside_line_is_not_the_identifier() {
    let out = "Parent UUID:    base\nUUID:   3f2504e0-4f89-11d3-9a0c-0305e82c3301\n";
    assert_eq!(extract_medium_id(out), Some(SAMPLE_ID.to_string()));
}

#[test]
fn first_uuid_line_wins() {
    let out = "UUID: first-id\nUUID: second-id\n";
    assert_eq!(extract_medium_id(out), Some("first-id".to_string()));
}

#[test]
fn no_uuid_line_gives_none() {
    let out = "VBoxManage: error: Could not find file for the medium\nState: inaccessible\n";
    assert_eq!(extract_medium_id(out), None);
}

#[test]
fn empty_output_gives_none() {
    assert_eq!(extract_medium_id(""), None);
}

#[test]
fn label_without_value_gives_none() {
    assert_eq!(extract_medium_id("UUID:\nState: created\n"), None);
}

#[test]
fn match_text_loses_label_and_blanks() {
    assert_eq!(medium_id_from_match("UUID:   3f2504e0-4f89-11d3-9a0c-0305e82c3301 \n"), SAMPLE_ID);
}

#[test]
fn match_text_without_label_is_trimmed() {
    assert_eq!(medium_id_from_match("\t abc-def \r\n"), "abc-def");
}

#[test]
fn match_text_of_blanks_is_empty() {
    assert_eq!(medium_id_from_match("UUID:  \n"), "");
}
