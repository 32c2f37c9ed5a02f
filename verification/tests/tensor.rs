use metadump::dump::Real;
use metadump::files::{AssociatedFile, AssociatedFileType};
use metadump::process::{ProcessUnit, ProcessUnitOptions};
use metadump::tensor::{
    bounding_box_type_text, color_space_text, content_text, coordinate_type_text,
    render_optional_process_section, render_process_section, render_tensor, render_tensors,
    stats_text, strings_text,
    AudioProperties, BoundingBoxProperties, BoundingBoxType, ColorSpaceType, Content,
    ContentProperties, CoordinateType, FeatureProperties, ImageProperties, ImageSize, Stats,
    TensorMetadata, ValueRange,
};
use metadump::text::Indent;

fn number(text: &str) -> Real {
    Real { text: text.to_string() }
}

fn bare_tensor() -> TensorMetadata {
    TensorMetadata {
        name: None,
        description: None,
        dimension_names: None,
        content: None,
        process_units: None,
        stats: None,
        associated_files: None,
    }
}

fn image_content() -> Content {
    Content {
        content_properties: ContentProperties::Image(ImageProperties {
            color_space: ColorSpaceType(1),
            default_size: Some(ImageSize { width: 224, height: 224 }),
        }),
        range: Some(ValueRange { min: 0, max: 3 }),
    }
}

const IMAGE_CONTENT: &str = "Content { content_properties_type: ImageProperties, \
    content_properties: ImageProperties { color_space: RGB, default_size: Some(ImageSize { \
    width: 224, height: 224 }) }, range: Some(ValueRange { min: 0, max: 3 }) }";

#[test]
fn codes_have_names() {
    assert_eq!(color_space_text(ColorSpaceType(0)), "UNKNOWN");
    assert_eq!(color_space_text(ColorSpaceType(1)), "RGB");
    assert_eq!(color_space_text(ColorSpaceType(2)), "GRAYSCALE");
    assert_eq!(color_space_text(ColorSpaceType(5)), "<UNKNOWN 5>");
    assert_eq!(bounding_box_type_text(BoundingBoxType(0)), "UNKNOWN");
    assert_eq!(bounding_box_type_text(BoundingBoxType(1)), "BOUNDARIES");
    assert_eq!(bounding_box_type_text(BoundingBoxType(2)), "UPPER_LEFT");
    assert_eq!(bounding_box_type_text(BoundingBoxType(3)), "CENTER");
    assert_eq!(bounding_box_type_text(BoundingBoxType(-1)), "<UNKNOWN -1>");
    assert_eq!(coordinate_type_text(CoordinateType(0)), "RATIO");
    assert_eq!(coordinate_type_text(CoordinateType(1)), "PIXEL");
    assert_eq!(coordinate_type_text(CoordinateType(2)), "<UNKNOWN 2>");
}

#[test]
fn image_content_notation() {
    assert_eq!(content_text(&image_content()), IMAGE_CONTENT);
}

#[test]
fn content_without_properties() {
    let content = Content { content_properties: ContentProperties::Absent, range: None };
    assert_eq!(
        content_text(&content),
        "Content { content_properties_type: NONE, content_properties: None, range: None }"
    );
    let content = Content { content_properties: ContentProperties::Unrecognized(9), range: None };
    assert_eq!(
        content_text(&content),
        "Content { content_properties_type: <UNKNOWN 9>, content_properties: None, range: None }"
    );
}

#[test]
fn feature_content_notation() {
    let content = Content {
        content_properties: ContentProperties::Feature(FeatureProperties {}),
        range: None,
    };
    assert_eq!(
        content_text(&content),
        "Content { content_properties_type: FeatureProperties, content_properties: \
         FeatureProperties, range: None }"
    );
}

#[test]
fn bounding_box_content_notation() {
    let content = Content {
        content_properties: ContentProperties::BoundingBox(BoundingBoxProperties {
            index: Some(vec![1, 0, 3, 2]),
            type_: BoundingBoxType(1),
            coordinate_type: CoordinateType(0),
        }),
        range: Some(ValueRange { min: -1, max: 2 }),
    };
    assert_eq!(
        content_text(&content),
        "Content { content_properties_type: BoundingBoxProperties, content_properties: \
         BoundingBoxProperties { index: Some([1, 0, 3, 2]), type_: BOUNDARIES, \
         coordinate_type: RATIO }, range: Some(ValueRange { min: -1, max: 2 }) }"
    );
}

#[test]
fn audio_content_notation() {
    let content = Content {
        content_properties: ContentProperties::Audio(AudioProperties {
            sample_rate: 16000,
            channels: 1,
        }),
        range: None,
    };
    assert_eq!(
        content_text(&content),
        "Content { content_properties_type: AudioProperties, content_properties: \
         AudioProperties { sample_rate: 16000, channels: 1 }, range: None }"
    );
}

#[test]
fn stats_notation() {
    let stats = Stats { max: Some(vec![number("255.0")]), min: None };
    assert_eq!(stats_text(&stats), "Stats { max: Some([255.0]), min: None }");
}

#[test]
fn string_list_notation() {
    assert_eq!(strings_text(&vec!["batch".to_string(), "height".to_string()]), "[\"batch\", \"height\"]");
    assert_eq!(strings_text(&vec![]), "[]");
}

#[test]
fn tensor_with_no_optional_field() {
    assert_eq!(render_tensor(Indent(2), &bare_tensor()), vec!["    - name: <unnamed>".to_string()]);
}

#[test]
fn tensor_with_every_field() {
    let tensor = TensorMetadata {
        name: Some("image".to_string()),
        description: Some("Input image".to_string()),
        dimension_names: Some(vec!["batch".to_string(), "height".to_string()]),
        content: Some(image_content()),
        process_units: Some(vec![ProcessUnit { options: ProcessUnitOptions::Absent }]),
        stats: Some(Stats { max: Some(vec![number("255.0")]), min: Some(vec![number("0.0")]) }),
        associated_files: Some(vec![AssociatedFile {
            name: Some("labels.txt".to_string()),
            description: None,
            type_: AssociatedFileType(1),
            locale: None,
            version: None,
        }]),
    };
    assert_eq!(
        render_tensor(Indent(2), &tensor),
        vec![
            "    - name: image".to_string(),
            "      description: Input image".to_string(),
            "      dimension names: [\"batch\", \"height\"]".to_string(),
            format!("      content: {}", IMAGE_CONTENT),
            "      stats: Stats { max: Some([255.0]), min: Some([0.0]) }".to_string(),
            "      1 associated file(s):".to_string(),
            "      - name: labels.txt".to_string(),
            "        type: DESCRIPTIONS".to_string(),
            "      1 process unit(s):".to_string(),
            "      - ProcessUnit { options_type: NONE, options: None }".to_string(),
        ]
    );
}

#[test]
fn tensors_are_listed_in_order() {
    let mut second = bare_tensor();
    second.name = Some("second".to_string());
    second.description = Some("the second one".to_string());
    assert_eq!(
        render_tensors(Indent(2), &vec![bare_tensor(), second]),
        vec![
            "    - name: <unnamed>".to_string(),
            "    - name: second".to_string(),
            "      description: the second one".to_string(),
        ]
    );
}

#[test]
fn process_section_has_a_heading() {
    assert_eq!(
        render_process_section(Indent(3), &vec![]),
        vec!["      0 process unit(s):".to_string()]
    );
    assert_eq!(
        render_optional_process_section(Indent(3), &Some(vec![])),
        vec!["      0 process unit(s):".to_string()]
    );
    let none: Vec<String> = vec![];
    assert_eq!(render_optional_process_section(Indent(3), &None), none);
}
