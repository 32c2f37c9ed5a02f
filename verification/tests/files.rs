use metadump::files::{
    assoc_file_text, file_type_text, name_text, optional_files_text, render_assoc_file,
    render_assoc_files, render_assoc_section, render_optional_assoc_section, unknown_code_text,
    AssociatedFile, AssociatedFileType,
};
use metadump::text::Indent;

fn labels() -> AssociatedFile {
    AssociatedFile {
        name: Some("labels.txt".to_string()),
        description: Some("Labels of the classes".to_string()),
        type_: AssociatedFileType(2),
        locale: Some("en".to_string()),
        version: Some("2".to_string()),
    }
}

fn bare() -> AssociatedFile {
    AssociatedFile {
        name: None,
        description: None,
        type_: AssociatedFileType(0),
        locale: None,
        version: None,
    }
}

#[test]
fn name_or_placeholder() {
    assert_eq!(name_text(&Some("x".to_string())), "x");
    assert_eq!(name_text(&None), "<unnamed>");
}

#[test]
fn file_kinds_have_names() {
    let names = [
        "UNKNOWN",
        "DESCRIPTIONS",
        "TENSOR_AXIS_LABELS",
        "TENSOR_VALUE_LABELS",
        "TENSOR_AXIS_SCORE_CALIBRATION",
        "VOCABULARY",
        "SCANN_INDEX_FILE",
    ];
    for (code, name) in names.iter().enumerate() {
        assert_eq!(file_type_text(AssociatedFileType(code as i8)), *name);
    }
    assert_eq!(file_type_text(AssociatedFileType(7)), "<UNKNOWN 7>");
    assert_eq!(file_type_text(AssociatedFileType(-3)), "<UNKNOWN -3>");
    assert_eq!(unknown_code_text(200), "<UNKNOWN 200>");
}

#[test]
fn file_with_every_field() {
    assert_eq!(
        render_assoc_files(Indent(1), &vec![labels()]),
        vec![
            "  - name: labels.txt".to_string(),
            "    description: Labels of the classes".to_string(),
            "    type: TENSOR_AXIS_LABELS".to_string(),
            "    locale: en".to_string(),
            "    version: 2".to_string(),
        ]
    );
}

#[test]
fn one_file_alone() {
    assert_eq!(
        render_assoc_file(Indent(2), &bare()),
        vec!["    - name: <unnamed>".to_string(), "      type: UNKNOWN".to_string()]
    );
}

#[test]
fn file_with_no_optional_field() {
    assert_eq!(
        render_assoc_files(Indent(0), &vec![bare()]),
        vec!["- name: <unnamed>".to_string(), "  type: UNKNOWN".to_string()]
    );
}

#[test]
fn files_are_listed_in_order() {
    let lines = render_assoc_files(Indent(0), &vec![bare(), labels(), bare()]);
    assert_eq!(lines.len(), 2 + 5 + 2);
    assert_eq!(lines[0], "- name: <unnamed>");
    assert_eq!(lines[2], "- name: labels.txt");
    assert_eq!(lines[7], "- name: <unnamed>");
}

#[test]
fn section_has_a_heading() {
    assert_eq!(
        render_assoc_section(Indent(1), &vec![bare()]),
        vec![
            "  1 associated file(s):".to_string(),
            "  - name: <unnamed>".to_string(),
            "    type: UNKNOWN".to_string(),
        ]
    );
    assert_eq!(render_assoc_section(Indent(0), &vec![]), vec!["0 associated file(s):".to_string()]);
}

#[test]
fn absent_list_has_no_section() {
    let none: Vec<String> = vec![];
    assert_eq!(render_optional_assoc_section(Indent(1), &None), none);
    assert_eq!(
        render_optional_assoc_section(Indent(1), &Some(vec![])),
        vec!["  0 associated file(s):".to_string()]
    );
}

#[test]
fn file_notation() {
    assert_eq!(
        assoc_file_text(&labels()),
        "AssociatedFile { name: Some(\"labels.txt\"), description: Some(\"Labels of the classes\"), \
         type_: TENSOR_AXIS_LABELS, locale: Some(\"en\"), version: Some(\"2\") }"
    );
    assert_eq!(
        assoc_file_text(&bare()),
        "AssociatedFile { name: None, description: None, type_: UNKNOWN, locale: None, version: None }"
    );
}

#[test]
fn optional_file_list_notation() {
    assert_eq!(optional_files_text(&None), "None");
    assert_eq!(optional_files_text(&Some(vec![])), "Some([])");
    assert_eq!(
        optional_files_text(&Some(vec![bare(), bare()])),
        format!("Some([{}, {}])", assoc_file_text(&bare()), assoc_file_text(&bare()))
    );
}
