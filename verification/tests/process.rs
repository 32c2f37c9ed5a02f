use metadump::dump::Real;
use metadump::files::{AssociatedFile, AssociatedFileType};
use metadump::process::{
    process_unit_text, render_process_units, score_transformation_text, BertTokenizerOptions,
    NormalizationOptions, ProcessUnit, ProcessUnitOptions, RegexTokenizerOptions,
    ScoreCalibrationOptions, ScoreThresholdingOptions, ScoreTransformationType,
    SentencePieceTokenizerOptions,
};
use metadump::text::Indent;

fn number(text: &str) -> Real {
    Real { text: text.to_string() }
}

fn vocab() -> AssociatedFile {
    AssociatedFile {
        name: Some("vocab.txt".to_string()),
        description: None,
        type_: AssociatedFileType(5),
        locale: None,
        version: None,
    }
}

const VOCAB: &str =
    "AssociatedFile { name: Some(\"vocab.txt\"), description: None, type_: VOCABULARY, locale: None, version: None }";

fn unit(options: ProcessUnitOptions) -> ProcessUnit {
    ProcessUnit { options }
}

#[test]
fn score_transformations_have_names() {
    assert_eq!(score_transformation_text(ScoreTransformationType(0)), "IDENTITY");
    assert_eq!(score_transformation_text(ScoreTransformationType(1)), "LOG");
    assert_eq!(score_transformation_text(ScoreTransformationType(2)), "INVERSE_LOGISTIC");
    assert_eq!(score_transformation_text(ScoreTransformationType(3)), "<UNKNOWN 3>");
}

#[test]
fn unit_without_options() {
    assert_eq!(
        process_unit_text(&unit(ProcessUnitOptions::Absent)),
        "ProcessUnit { options_type: NONE, options: None }"
    );
}

#[test]
fn unit_of_a_kind_without_a_name() {
    assert_eq!(
        process_unit_text(&unit(ProcessUnitOptions::Unrecognized(9))),
        "ProcessUnit { options_type: <UNKNOWN 9>, options: None }"
    );
}

#[test]
fn normalization_unit() {
    let options = NormalizationOptions {
        mean: Some(vec![number("127.5")]),
        std_: Some(vec![number("127.5"), number("1.0")]),
    };
    assert_eq!(
        process_unit_text(&unit(ProcessUnitOptions::Normalization(options))),
        "ProcessUnit { options_type: NormalizationOptions, options: NormalizationOptions { \
         mean: Some([127.5]), std_: Some([127.5, 1.0]) } }"
    );
}

#[test]
fn score_calibration_unit() {
    let options = ScoreCalibrationOptions {
        score_transformation: ScoreTransformationType(1),
        default_score: number("0.2"),
    };
    assert_eq!(
        process_unit_text(&unit(ProcessUnitOptions::ScoreCalibration(options))),
        "ProcessUnit { options_type: ScoreCalibrationOptions, options: ScoreCalibrationOptions { \
         score_transformation: LOG, default_score: 0.2 } }"
    );
}

#[test]
fn score_thresholding_unit() {
    let options = ScoreThresholdingOptions { global_score_threshold: number("0.5") };
    assert_eq!(
        process_unit_text(&unit(ProcessUnitOptions::ScoreThresholding(options))),
        "ProcessUnit { options_type: ScoreThresholdingOptions, options: ScoreThresholdingOptions { \
         global_score_threshold: 0.5 } }"
    );
}

#[test]
fn bert_tokenizer_unit() {
    let options = BertTokenizerOptions { vocab_file: Some(vec![vocab()]) };
    assert_eq!(
        process_unit_text(&unit(ProcessUnitOptions::BertTokenizer(options))),
        format!(
            "ProcessUnit {{ options_type: BertTokenizerOptions, options: BertTokenizerOptions {{ \
             vocab_file: Some([{}]) }} }}",
            VOCAB
        )
    );
}

#[test]
fn sentence_piece_tokenizer_unit() {
    let options = SentencePieceTokenizerOptions {
        sentence_piece_model: Some(vec![vocab()]),
        vocab_file: None,
    };
    assert_eq!(
        process_unit_text(&unit(ProcessUnitOptions::SentencePieceTokenizer(options))),
        format!(
            "ProcessUnit {{ options_type: SentencePieceTokenizerOptions, options: \
             SentencePieceTokenizerOptions {{ sentence_piece_model: Some([{}]), vocab_file: None }} }}",
            VOCAB
        )
    );
}

#[test]
fn regex_tokenizer_unit() {
    let options = RegexTokenizerOptions {
        delim_regex_pattern: Some("[^\\w']+".to_string()),
        vocab_file: Some(vec![]),
    };
    assert_eq!(
        process_unit_text(&unit(ProcessUnitOptions::RegexTokenizer(options))),
        "ProcessUnit { options_type: RegexTokenizerOptions, options: RegexTokenizerOptions { \
         delim_regex_pattern: Some(\"[^\\\\w']+\"), vocab_file: Some([]) } }"
    );
}

#[test]
fn units_are_listed_one_per_line() {
    let units = vec![unit(ProcessUnitOptions::Absent), unit(ProcessUnitOptions::Unrecognized(7))];
    assert_eq!(
        render_process_units(Indent(2), &units),
        vec![
            "    - ProcessUnit { options_type: NONE, options: None }".to_string(),
            "    - ProcessUnit { options_type: <UNKNOWN 7>, options: None }".to_string(),
        ]
    );
    let none: Vec<String> = vec![];
    assert_eq!(render_process_units(Indent(2), &vec![]), none);
}
