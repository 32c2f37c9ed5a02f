use metadump::detector::{
    FixedAnchor, FixedAnchorsSchema, ObjectDetectorOptions, SsdAnchorsOptions,
};
use metadump::dump::Real;
use metadump::files::{AssociatedFile, AssociatedFileType};
use metadump::custom::{
    is_detector_entry, payload_bytes, push_entry_payloads, render_custom_entries,
    render_custom_entry, render_custom_head, render_decoding, render_unhandled, CustomMetadata,
    Decoding,
};
use metadump::metadata::{detector_payloads, render_head, render_report, ModelMetadata};
use metadump::subgraph::{
    render_subgraph, render_tensor_groups, tensor_group_text, SubGraphMetadata, TensorGroup,
};
use metadump::process::{ProcessUnit, ProcessUnitOptions};
use metadump::tensor::TensorMetadata;

fn text(s: &str) -> Option<String> {
    Some(s.to_string())
}

fn file(name: &str, kind: i8) -> AssociatedFile {
    AssociatedFile {
        name: text(name),
        description: None,
        type_: AssociatedFileType(kind),
        locale: None,
        version: None,
    }
}

fn tensor(name: &str) -> TensorMetadata {
    TensorMetadata {
        name: text(name),
        description: None,
        dimension_names: None,
        content: None,
        process_units: None,
        stats: None,
        associated_files: None,
    }
}

/// A byte vector as a model file stores it: an offset to the vector, the
/// number of bytes, the bytes.
fn blob(data: &[u8]) -> flatbuffers::Vector<'static, u8> {
    let mut raw = vec![4u8, 0, 0, 0];
    raw.extend_from_slice(&(data.len() as u32).to_le_bytes());
    raw.extend_from_slice(data);
    let raw: &'static [u8] = Box::leak(raw.into_boxed_slice());
    flatbuffers::root::<flatbuffers::Vector<u8>>(raw).unwrap()
}

fn custom(name: Option<&str>, data: Option<Vec<u8>>) -> CustomMetadata<'static> {
    CustomMetadata { name: name.map(|n| n.to_string()), data: data.map(|d| blob(&d)) }
}

fn bare_subgraph() -> SubGraphMetadata<'static> {
    SubGraphMetadata {
        name: None,
        description: None,
        input_tensor_metadata: None,
        output_tensor_metadata: None,
        associated_files: None,
        input_process_units: None,
        output_process_units: None,
        input_tensor_groups: None,
        output_tensor_groups: None,
        custom_metadata: None,
    }
}

fn bare_model() -> ModelMetadata<'static> {
    ModelMetadata {
        name: None,
        description: None,
        version: None,
        subgraph_metadata: None,
        author: None,
        license: None,
        associated_files: None,
        min_parser_version: None,
    }
}

fn options(version: &str) -> ObjectDetectorOptions {
    ObjectDetectorOptions {
        min_parser_version: text(version),
        ssd_anchors_options: None,
        tensors_decoding_options: None,
    }
}

fn lines(items: &[&str]) -> Vec<String> {
    items.iter().map(|l| l.to_string()).collect()
}

#[test]
fn tag_must_match_exactly() {
    assert!(is_detector_entry(&custom(Some("DETECTOR_METADATA"), None)));
    assert!(!is_detector_entry(&custom(Some("detector_metadata"), None)));
    assert!(!is_detector_entry(&custom(Some("DETECTOR_METADATA2"), None)));
    assert!(!is_detector_entry(&custom(Some(""), None)));
    assert!(!is_detector_entry(&custom(None, None)));
}

#[test]
fn payload_of_an_entry() {
    assert_eq!(payload_bytes(&custom(None, Some(vec![1, 2]))), &[1u8, 2][..]);
    assert!(payload_bytes(&custom(None, None)).is_empty());
}

#[test]
fn tensor_group_notation() {
    let group = TensorGroup {
        name: text("boxes"),
        tensor_names: Some(vec!["location".to_string(), "score".to_string()]),
    };
    assert_eq!(
        tensor_group_text(&group),
        "TensorGroup { name: Some(\"boxes\"), tensor_names: Some([\"location\", \"score\"]) }"
    );
    let group = TensorGroup { name: None, tensor_names: None };
    assert_eq!(tensor_group_text(&group), "TensorGroup { name: None, tensor_names: None }");
    assert_eq!(
        render_tensor_groups(&vec![group]),
        lines(&["    - TensorGroup { name: None, tensor_names: None }"])
    );
}

#[test]
fn every_entry_shows_name_and_length() {
    assert_eq!(
        render_custom_head(&custom(Some("x"), Some(vec![0; 300]))),
        lines(&["    - name: x", "      300 bytes"])
    );
    assert_eq!(
        render_custom_head(&custom(None, None)),
        lines(&["    - name: <unnamed>", "      0 bytes"])
    );
}

#[test]
fn decoded_payload_is_reported_one_level_in() {
    let outcome = Decoding::Decoded(options("1.2.0"));
    assert_eq!(render_decoding(&outcome), lines(&["      min_parser_version: 1.2.0"]));
    assert_eq!(
        render_custom_entry(&custom(Some("DETECTOR_METADATA"), Some(vec![7; 5])), &outcome),
        lines(&["    - name: DETECTOR_METADATA", "      5 bytes", "      min_parser_version: 1.2.0"])
    );
}

#[test]
fn corrupt_payload_shows_a_decoding_error() {
    let outcome = Decoding::Failed("Range [0, 4) is out of bounds.\n\n".to_string());
    assert_eq!(
        render_custom_entry(&custom(Some("DETECTOR_METADATA"), Some(vec![1, 2])), &outcome),
        lines(&[
            "    - name: DETECTOR_METADATA",
            "      2 bytes",
            "      decoding error: Range [0, 4) is out of bounds.\n\n",
        ])
    );
}

#[test]
fn unknown_tag_is_never_decoded() {
    let expected = lines(&["    - name: OTHER", "      3 bytes", "      (unknown or unhandled format)"]);
    let entry = custom(Some("OTHER"), Some(vec![1, 2, 3]));
    let decoded = Decoding::Decoded(options("9"));
    let failed = Decoding::Failed("no".to_string());
    assert_eq!(render_custom_entry(&entry, &decoded), expected);
    assert_eq!(render_custom_entry(&entry, &failed), expected);
    assert_eq!(
        render_custom_entry(&custom(None, None), &failed),
        lines(&["    - name: <unnamed>", "      0 bytes", "      (unknown or unhandled format)"])
    );
}

#[test]
fn unhandled_format_has_a_fixed_line() {
    assert_eq!(render_unhandled(), lines(&["      (unknown or unhandled format)"]));
}

#[test]
fn entries_take_their_outcomes_in_turn() {
    let entries = vec![
        custom(Some("A"), None),
        custom(Some("DETECTOR_METADATA"), Some(vec![1])),
        custom(Some("DETECTOR_METADATA"), Some(vec![2, 3])),
    ];
    let outcomes = vec![
        Decoding::Failed("zero".to_string()),
        Decoding::Failed("one".to_string()),
        Decoding::Failed("two".to_string()),
    ];
    let (report, next) = render_custom_entries(&entries, &outcomes, 1).unwrap();
    assert_eq!(next, 3);
    assert_eq!(
        report,
        lines(&[
            "    - name: A",
            "      0 bytes",
            "      (unknown or unhandled format)",
            "    - name: DETECTOR_METADATA",
            "      1 bytes",
            "      decoding error: one",
            "    - name: DETECTOR_METADATA",
            "      2 bytes",
            "      decoding error: two",
        ])
    );
    assert!(render_custom_entries(&entries, &outcomes, 2).is_none());
    assert!(render_custom_entries(&entries, &outcomes, 4).is_none());
    assert_eq!(render_custom_entries(&vec![], &outcomes, 3).unwrap().1, 3);
}

#[test]
fn payloads_of_a_list_are_added_in_order() {
    let entries = vec![
        custom(Some("DETECTOR_METADATA"), Some(vec![1])),
        custom(Some("OTHER"), Some(vec![9])),
        custom(Some("DETECTOR_METADATA"), None),
    ];
    let first: &[u8] = &[7];
    let mut payloads = vec![first];
    push_entry_payloads(&mut payloads, &entries);
    assert_eq!(payloads.len(), 3);
    assert_eq!(payloads[0], &[7u8][..]);
    assert_eq!(payloads[1], &[1u8][..]);
    assert!(payloads[2].is_empty());
}

#[test]
fn head_has_the_fields_of_the_model_alone() {
    let mut model = full_model();
    model.author = text("someone");
    assert_eq!(render_head(&model), lines(&["name: detector", "author: someone"]));
}

#[test]
fn entries_after_a_corrupt_one_are_still_reported() {
    let mut sub = bare_subgraph();
    sub.custom_metadata = Some(vec![
        custom(Some("DETECTOR_METADATA"), Some(vec![0xff])),
        custom(Some("NOTES"), Some(vec![1, 2, 3, 4])),
        custom(Some("DETECTOR_METADATA"), Some(vec![5, 6])),
    ]);
    let outcomes = vec![Decoding::Failed("broken".to_string()), Decoding::Decoded(options("1.0.0"))];
    let (report, next) = render_subgraph(&None, &sub, &outcomes, 0).unwrap();
    assert_eq!(next, 2);
    assert_eq!(
        report,
        lines(&[
            "- name: <unnamed>",
            "  - 3 custom metadata entries",
            "    - name: DETECTOR_METADATA",
            "      1 bytes",
            "      decoding error: broken",
            "    - name: NOTES",
            "      4 bytes",
            "      (unknown or unhandled format)",
            "    - name: DETECTOR_METADATA",
            "      2 bytes",
            "      min_parser_version: 1.0.0",
        ])
    );
}

#[test]
fn subgraph_takes_its_outcomes_from_the_base() {
    let mut sub = bare_subgraph();
    sub.custom_metadata = Some(vec![custom(Some("DETECTOR_METADATA"), None)]);
    let outcomes =
        vec![Decoding::Failed("first".to_string()), Decoding::Failed("second".to_string())];
    let (report, next) = render_subgraph(&None, &sub, &outcomes, 1).unwrap();
    assert_eq!(next, 2);
    assert_eq!(report[4], "      decoding error: second");
    assert!(render_subgraph(&None, &sub, &outcomes, 2).is_none());
    assert!(render_subgraph(&None, &sub, &outcomes, 3).is_none());
    assert!(render_subgraph(&None, &bare_subgraph(), &outcomes, 3).is_none());
    assert_eq!(render_subgraph(&None, &bare_subgraph(), &outcomes, 2).unwrap().1, 2);
}

#[test]
fn subgraph_lists_the_files_of_the_model() {
    let top = Some(vec![file("top.txt", 1)]);
    let mut sub = bare_subgraph();
    sub.name = text("main");
    sub.associated_files = Some(vec![file("own-a.txt", 2), file("own-b.txt", 3)]);
    let (report, _) = render_subgraph(&top, &sub, &vec![], 0).unwrap();
    assert_eq!(
        report,
        lines(&[
            "- name: main",
            "  1 associated file(s):",
            "  - name: top.txt",
            "    type: DESCRIPTIONS",
        ])
    );
    let (without, _) = render_subgraph(&None, &sub, &vec![], 0).unwrap();
    assert_eq!(without, lines(&["- name: main"]));
}

#[test]
fn report_of_an_empty_tree_is_empty() {
    assert_eq!(render_report(&bare_model(), &vec![]), Some(vec![]));
}

#[test]
fn absent_fields_give_no_line() {
    let mut model = bare_model();
    model.version = text("v3");
    model.license = text("Apache-2.0");
    assert_eq!(render_report(&model, &vec![]), Some(lines(&["version: v3", "license: Apache-2.0"])));
}

#[test]
fn present_fields_appear_once_in_order() {
    let mut model = bare_model();
    model.name = text("detector");
    model.description = text("Finds things");
    model.version = text("v1");
    model.author = text("someone");
    model.license = text("MIT");
    model.min_parser_version = text("1.0.0");
    model.associated_files = Some(vec![]);
    model.subgraph_metadata = Some(vec![]);
    assert_eq!(
        render_report(&model, &vec![]),
        Some(lines(&[
            "name: detector",
            "description: Finds things",
            "version: v1",
            "author: someone",
            "license: MIT",
            "min_parser_version: 1.0.0",
            "0 associated file(s):",
            "0 subgraph(s)",
        ]))
    );
}

fn full_model() -> ModelMetadata<'static> {
    let mut first = bare_subgraph();
    first.name = text("main");
    first.description = text("The only graph");
    first.associated_files = Some(vec![file("own.txt", 5)]);
    first.input_tensor_metadata = Some(vec![tensor("image")]);
    first.output_tensor_metadata = Some(vec![tensor("boxes"), tensor("scores")]);
    first.input_process_units = Some(vec![ProcessUnit { options: ProcessUnitOptions::Absent }]);
    first.output_process_units = Some(vec![]);
    first.input_tensor_groups = Some(vec![]);
    first.output_tensor_groups =
        Some(vec![TensorGroup { name: text("detections"), tensor_names: None }]);
    first.custom_metadata = Some(vec![
        custom(Some("NOTES"), Some(vec![1])),
        custom(Some("DETECTOR_METADATA"), Some(vec![10, 11, 12])),
    ]);
    let mut second = bare_subgraph();
    second.custom_metadata = Some(vec![
        custom(Some("DETECTOR_METADATA"), Some(vec![20])),
        custom(None, None),
        custom(Some("DETECTOR_METADATA"), None),
    ]);
    let mut model = bare_model();
    model.name = text("detector");
    model.associated_files = Some(vec![file("labels.txt", 3)]);
    model.subgraph_metadata = Some(vec![first, second]);
    model
}

fn full_outcomes() -> Vec<Decoding> {
    let with_anchor = ObjectDetectorOptions {
        min_parser_version: None,
        ssd_anchors_options: Some(SsdAnchorsOptions {
            fixed_anchors_schema: Some(FixedAnchorsSchema {
                anchors: Some(vec![FixedAnchor {
                    x_center: Real { text: "0.5".to_string() },
                    y_center: Real { text: "0.5".to_string() },
                    width: Real { text: "1.0".to_string() },
                    height: Real { text: "1.0".to_string() },
                }]),
            }),
        }),
        tensors_decoding_options: None,
    };
    vec![
        Decoding::Decoded(with_anchor),
        Decoding::Failed("bad payload".to_string()),
        Decoding::Decoded(options("2.0.0")),
    ]
}

#[test]
fn report_of_a_full_tree() {
    assert_eq!(
        render_report(&full_model(), &full_outcomes()),
        Some(lines(&[
            "name: detector",
            "1 associated file(s):",
            "- name: labels.txt",
            "  type: TENSOR_VALUE_LABELS",
            "2 subgraph(s)",
            "- name: main",
            "  description: The only graph",
            "  1 associated file(s):",
            "  - name: labels.txt",
            "    type: TENSOR_VALUE_LABELS",
            "  - 1 input tensor(s) with metadata",
            "    - name: image",
            "  - 2 output tensor(s) with metadata",
            "    - name: boxes",
            "    - name: scores",
            "  - 1 input tensor process units",
            "    - ProcessUnit { options_type: NONE, options: None }",
            "  - 0 output tensor process units",
            "  - 0 input tensor groups",
            "  - 1 output tensor groups",
            "    - TensorGroup { name: Some(\"detections\"), tensor_names: None }",
            "  - 2 custom metadata entries",
            "    - name: NOTES",
            "      1 bytes",
            "      (unknown or unhandled format)",
            "    - name: DETECTOR_METADATA",
            "      3 bytes",
            "      ssd_anchor_options:",
            "        fixed_anchors_schema:",
            "          1 anchors",
            "          - FixedAnchor { x_center: 0.5, y_center: 0.5, width: 1.0, height: 1.0 }",
            "- name: <unnamed>",
            "  1 associated file(s):",
            "  - name: labels.txt",
            "    type: TENSOR_VALUE_LABELS",
            "  - 3 custom metadata entries",
            "    - name: DETECTOR_METADATA",
            "      1 bytes",
            "      decoding error: bad payload",
            "    - name: <unnamed>",
            "      0 bytes",
            "      (unknown or unhandled format)",
            "    - name: DETECTOR_METADATA",
            "      0 bytes",
            "      min_parser_version: 2.0.0",
        ]))
    );
}

#[test]
fn payloads_are_handed_out_in_report_order() {
    let model = full_model();
    let payloads = detector_payloads(&model);
    assert_eq!(payloads.len(), 3);
    assert_eq!(payloads[0], &[10u8, 11, 12][..]);
    assert_eq!(payloads[1], &[20u8][..]);
    assert!(payloads[2].is_empty());
    assert!(detector_payloads(&bare_model()).is_empty());
}

#[test]
fn report_needs_one_outcome_for_each_payload() {
    let mut outcomes = full_outcomes();
    outcomes.pop();
    assert_eq!(render_report(&full_model(), &outcomes), None);
    let mut outcomes = full_outcomes();
    outcomes.push(Decoding::Failed("one too many".to_string()));
    assert_eq!(render_report(&full_model(), &outcomes), None);
    assert_eq!(render_report(&full_model(), &vec![]), None);
    assert_eq!(render_report(&bare_model(), &full_outcomes()), None);
}

#[test]
fn same_tree_gives_the_same_report() {
    let once = render_report(&full_model(), &full_outcomes());
    let twice = render_report(&full_model(), &full_outcomes());
    assert!(once.is_some());
    assert_eq!(once, twice);
}

#[test]
fn files_of_a_subgraph_do_not_change_the_report() {
    let with_own = render_report(&full_model(), &full_outcomes());
    let mut model = full_model();
    if let Some(subs) = model.subgraph_metadata.as_mut() {
        subs[0].associated_files = None;
        subs[1].associated_files = Some(vec![file("elsewhere.bin", 6), file("more.bin", 6)]);
    }
    assert_eq!(render_report(&model, &full_outcomes()), with_own);
}
