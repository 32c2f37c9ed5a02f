//! Process units: the processing steps that a tensor or a subgraph declares.
//! A unit holds one of a closed set of option records, and the report shows
//! whichever it holds.

use vstd::prelude::*;
use vstd::string::StringExecFns;
use crate::dump::{
    debug_field, debug_option, debug_struct, field_text, option_quoted_text, optional_quoted,
    optional_list_debug, optional_reals_text, struct_text, Real,
};
use crate::files::{
    optional_files_debug, optional_files_text, unknown_code, unknown_code_text, AssociatedFile,
    AssociatedFileView,
};
use crate::text::{indent_text, indented, Indent};

verus! {

/// Normalisation of the input: the mean and the standard deviation, one
/// number for the whole tensor or one per channel.
#[derive(Clone, Debug)]
pub struct NormalizationOptions {
    pub mean: Option<Vec<Real>>,
    pub std_: Option<Vec<Real>>,
}

/// The function applied to a calibrated score, by its code in the schema.
#[derive(Clone, Copy, Debug, PartialEq, Eq)]
pub struct ScoreTransformationType(pub i8);

/// Calibration of the output scores.
#[derive(Clone, Debug)]
pub struct ScoreCalibrationOptions {
    pub score_transformation: ScoreTransformationType,
    pub default_score: Real,
}

/// A threshold under which scores are dropped.
#[derive(Clone, Debug)]
pub struct ScoreThresholdingOptions {
    pub global_score_threshold: Real,
}

/// A Bert tokenizer and its vocabulary.
#[derive(Clone, Debug)]
pub struct BertTokenizerOptions {
    pub vocab_file: Option<Vec<AssociatedFile>>,
}

/// A SentencePiece tokenizer, its model and its vocabulary.
#[derive(Clone, Debug)]
pub struct SentencePieceTokenizerOptions {
    pub sentence_piece_model: Option<Vec<AssociatedFile>>,
    pub vocab_file: Option<Vec<AssociatedFile>>,
}

/// A tokenizer that splits at a regular expression.
#[derive(Clone, Debug)]
pub struct RegexTokenizerOptions {
    pub delim_regex_pattern: Option<String>,
    pub vocab_file: Option<Vec<AssociatedFile>>,
}

/// The options of a process unit: one of the schema's records, nothing, or a
/// record of a kind that the schema does not name, of which only the code is
/// kept.
#[derive(Clone, Debug)]
pub enum ProcessUnitOptions {
    Absent,
    Normalization(NormalizationOptions),
    ScoreCalibration(ScoreCalibrationOptions),
    ScoreThresholding(ScoreThresholdingOptions),
    BertTokenizer(BertTokenizerOptions),
    SentencePieceTokenizer(SentencePieceTokenizerOptions),
    RegexTokenizer(RegexTokenizerOptions),
    Unrecognized(u8),
}

/// One processing step.
#[derive(Clone, Debug)]
pub struct ProcessUnit {
    pub options: ProcessUnitOptions,
}

/// What normalisation options hold.
pub struct NormalizationOptionsView {
    pub mean: Option<Seq<Seq<char>>>,
    pub std_: Option<Seq<Seq<char>>>,
}

/// What score calibration options hold.
pub struct ScoreCalibrationOptionsView {
    pub score_transformation: ScoreTransformationType,
    pub default_score: Seq<char>,
}

/// What score thresholding options hold.
pub struct ScoreThresholdingOptionsView {
    pub global_score_threshold: Seq<char>,
}

/// What Bert tokenizer options hold.
pub struct BertTokenizerOptionsView {
    pub vocab_file: Option<Seq<AssociatedFileView>>,
}

/// What SentencePiece tokenizer options hold.
pub struct SentencePieceTokenizerOptionsView {
    pub sentence_piece_model: Option<Seq<AssociatedFileView>>,
    pub vocab_file: Option<Seq<AssociatedFileView>>,
}

/// What regex tokenizer options hold.
pub struct RegexTokenizerOptionsView {
    pub delim_regex_pattern: Option<Seq<char>>,
    pub vocab_file: Option<Seq<AssociatedFileView>>,
}

/// What the options of a process unit hold.
pub enum ProcessUnitOptionsView {
    Absent,
    Normalization(NormalizationOptionsView),
    ScoreCalibration(ScoreCalibrationOptionsView),
    ScoreThresholding(ScoreThresholdingOptionsView),
    BertTokenizer(BertTokenizerOptionsView),
    SentencePieceTokenizer(SentencePieceTokenizerOptionsView),
    RegexTokenizer(RegexTokenizerOptionsView),
    Unrecognized(u8),
}

/// What a process unit holds.
pub struct ProcessUnitView {
    pub options: ProcessUnitOptionsView,
}

impl DeepView for NormalizationOptions {
    type V = NormalizationOptionsView;

    open spec fn deep_view(&self) -> NormalizationOptionsView {
        NormalizationOptionsView { mean: self.mean.deep_view(), std_: self.std_.deep_view() }
    }
}

impl DeepView for ScoreCalibrationOptions {
    type V = ScoreCalibrationOptionsView;

    open spec fn deep_view(&self) -> ScoreCalibrationOptionsView {
        ScoreCalibrationOptionsView {
            score_transformation: self.score_transformation,
            default_score: self.default_score.deep_view(),
        }
    }
}

impl DeepView for ScoreThresholdingOptions {
    type V = ScoreThresholdingOptionsView;

    open spec fn deep_view(&self) -> ScoreThresholdingOptionsView {
        ScoreThresholdingOptionsView {
            global_score_threshold: self.global_score_threshold.deep_view(),
        }
    }
}

impl DeepView for BertTokenizerOptions {
    type V = BertTokenizerOptionsView;

    open spec fn deep_view(&self) -> BertTokenizerOptionsView {
        BertTokenizerOptionsView { vocab_file: self.vocab_file.deep_view() }
    }
}

impl DeepView for SentencePieceTokenizerOptions {
    type V = SentencePieceTokenizerOptionsView;

    open spec fn deep_view(&self) -> SentencePieceTokenizerOptionsView {
        SentencePieceTokenizerOptionsView {
            sentence_piece_model: self.sentence_piece_model.deep_view(),
            vocab_file: self.vocab_file.deep_view(),
        }
    }
}

impl DeepView for RegexTokenizerOptions {
    type V = RegexTokenizerOptionsView;

    open spec fn deep_view(&self) -> RegexTokenizerOptionsView {
        RegexTokenizerOptionsView {
            delim_regex_pattern: self.delim_regex_pattern.deep_view(),
            vocab_file: self.vocab_file.deep_view(),
        }
    }
}

impl DeepView for ProcessUnitOptions {
    type V = ProcessUnitOptionsView;

    open spec fn deep_view(&self) -> ProcessUnitOptionsView {
        match self {
            ProcessUnitOptions::Absent => ProcessUnitOptionsView::Absent,
            ProcessUnitOptions::Normalization(r) => ProcessUnitOptionsView::Normalization(
                r.deep_view(),
            ),
            ProcessUnitOptions::ScoreCalibration(r) => ProcessUnitOptionsView::ScoreCalibration(
                r.deep_view(),
            ),
            ProcessUnitOptions::ScoreThresholding(r) => ProcessUnitOptionsView::ScoreThresholding(
                r.deep_view(),
            ),
            ProcessUnitOptions::BertTokenizer(r) => ProcessUnitOptionsView::BertTokenizer(
                r.deep_view(),
            ),
            ProcessUnitOptions::SentencePieceTokenizer(r) =>
                ProcessUnitOptionsView::SentencePieceTokenizer(r.deep_view()),
            ProcessUnitOptions::RegexTokenizer(r) => ProcessUnitOptionsView::RegexTokenizer(
                r.deep_view(),
            ),
            ProcessUnitOptions::Unrecognized(code) => ProcessUnitOptionsView::Unrecognized(*code),
        }
    }
}

impl DeepView for ProcessUnit {
    type V = ProcessUnitView;

    open spec fn deep_view(&self) -> ProcessUnitView {
        ProcessUnitView { options: self.options.deep_view() }
    }
}

/// The name of a score transformation.
pub open spec fn score_transformation_name(t: ScoreTransformationType) -> Seq<char> {
    if t.0 == 0 {
        "IDENTITY"@
    } else if t.0 == 1 {
        "LOG"@
    } else if t.0 == 2 {
        "INVERSE_LOGISTIC"@
    } else {
        unknown_code(t.0 as int)
    }
}

/// Normalisation options in the structured notation.
pub open spec fn normalization_debug(o: NormalizationOptionsView) -> Seq<char> {
    debug_struct(
        "NormalizationOptions"@,
        seq![
            debug_field("mean"@, optional_list_debug(o.mean)),
            debug_field("std_"@, optional_list_debug(o.std_)),
        ],
    )
}

/// Score calibration options in the structured notation.
pub open spec fn score_calibration_debug(o: ScoreCalibrationOptionsView) -> Seq<char> {
    debug_struct(
        "ScoreCalibrationOptions"@,
        seq![
            debug_field("score_transformation"@, score_transformation_name(o.score_transformation)),
            debug_field("default_score"@, o.default_score),
        ],
    )
}

/// Score thresholding options in the structured notation.
pub open spec fn score_thresholding_debug(o: ScoreThresholdingOptionsView) -> Seq<char> {
    debug_struct(
        "ScoreThresholdingOptions"@,
        seq![debug_field("global_score_threshold"@, o.global_score_threshold)],
    )
}

/// Bert tokenizer options in the structured notation.
pub open spec fn bert_tokenizer_debug(o: BertTokenizerOptionsView) -> Seq<char> {
    debug_struct(
        "BertTokenizerOptions"@,
        seq![debug_field("vocab_file"@, optional_files_debug(o.vocab_file))],
    )
}

/// SentencePiece tokenizer options in the structured notation.
pub open spec fn sentence_piece_tokenizer_debug(o: SentencePieceTokenizerOptionsView) -> Seq<
    char,
> {
    debug_struct(
        "SentencePieceTokenizerOptions"@,
        seq![
            debug_field("sentence_piece_model"@, optional_files_debug(o.sentence_piece_model)),
            debug_field("vocab_file"@, optional_files_debug(o.vocab_file)),
        ],
    )
}

/// Regex tokenizer options in the structured notation.
pub open spec fn regex_tokenizer_debug(o: RegexTokenizerOptionsView) -> Seq<char> {
    debug_struct(
        "RegexTokenizerOptions"@,
        seq![
            debug_field(
                "delim_regex_pattern"@,
                debug_option(optional_quoted(o.delim_regex_pattern)),
            ),
            debug_field("vocab_file"@, optional_files_debug(o.vocab_file)),
        ],
    )
}

/// The name of the kind of options that a unit holds.
pub open spec fn options_type_name(o: ProcessUnitOptionsView) -> Seq<char> {
    match o {
        ProcessUnitOptionsView::Absent => "NONE"@,
        ProcessUnitOptionsView::Normalization(_) => "NormalizationOptions"@,
        ProcessUnitOptionsView::ScoreCalibration(_) => "ScoreCalibrationOptions"@,
        ProcessUnitOptionsView::ScoreThresholding(_) => "ScoreThresholdingOptions"@,
        ProcessUnitOptionsView::BertTokenizer(_) => "BertTokenizerOptions"@,
        ProcessUnitOptionsView::SentencePieceTokenizer(_) => "SentencePieceTokenizerOptions"@,
        ProcessUnitOptionsView::RegexTokenizer(_) => "RegexTokenizerOptions"@,
        ProcessUnitOptionsView::Unrecognized(code) => unknown_code(code as int),
    }
}

/// The options that a unit holds, in the structured notation: the record
/// where the schema names its kind, `None` otherwise.
pub open spec fn options_debug(o: ProcessUnitOptionsView) -> Seq<char> {
    match o {
        ProcessUnitOptionsView::Absent => "None"@,
        ProcessUnitOptionsView::Normalization(r) => normalization_debug(r),
        ProcessUnitOptionsView::ScoreCalibration(r) => score_calibration_debug(r),
        ProcessUnitOptionsView::ScoreThresholding(r) => score_thresholding_debug(r),
        ProcessUnitOptionsView::BertTokenizer(r) => bert_tokenizer_debug(r),
        ProcessUnitOptionsView::SentencePieceTokenizer(r) => sentence_piece_tokenizer_debug(r),
        ProcessUnitOptionsView::RegexTokenizer(r) => regex_tokenizer_debug(r),
        ProcessUnitOptionsView::Unrecognized(_) => "None"@,
    }
}

/// A process unit in the structured notation.
pub open spec fn process_unit_debug(u: ProcessUnitView) -> Seq<char> {
    debug_struct(
        "ProcessUnit"@,
        seq![
            debug_field("options_type"@, options_type_name(u.options)),
            debug_field("options"@, options_debug(u.options)),
        ],
    )
}

/// The line of one unit in a listing at depth `indent`.
pub open spec fn process_unit_line(indent: nat, u: ProcessUnitView) -> Seq<char> {
    indent_text(indent) + "- "@ + process_unit_debug(u)
}

/// The listing of `units` at depth `indent`: one line for each, in order.
pub open spec fn process_units_lines(indent: nat, units: Seq<ProcessUnitView>) -> Seq<Seq<char>> {
    Seq::new(units.len(), |i: int| process_unit_line(indent, units[i]))
}

/// The name of a score transformation.
pub fn score_transformation_text(t: ScoreTransformationType) -> (out: String)
    ensures
        out@ == score_transformation_name(t),
{
    if t.0 == 0 {
        String::from_str("IDENTITY")
    } else if t.0 == 1 {
        String::from_str("LOG")
    } else if t.0 == 2 {
        String::from_str("INVERSE_LOGISTIC")
    } else {
        unknown_code_text(t.0 as i64)
    }
}

/// Writes normalisation options in the structured notation.
pub fn normalization_text(o: &NormalizationOptions) -> (out: String)
    ensures
        out@ == normalization_debug(o.deep_view()),
{
    let mut fields: Vec<String> = Vec::new();
    fields.push(field_text("mean", optional_reals_text(&o.mean).as_str()));
    fields.push(field_text("std_", optional_reals_text(&o.std_).as_str()));
    assert(fields.deep_view() =~= seq![
        debug_field("mean"@, optional_list_debug(o.deep_view().mean)),
        debug_field("std_"@, optional_list_debug(o.deep_view().std_)),
    ]);
    struct_text("NormalizationOptions", &fields)
}

/// Writes score calibration options in the structured notation.
pub fn score_calibration_text(o: &ScoreCalibrationOptions) -> (out: String)
    ensures
        out@ == score_calibration_debug(o.deep_view()),
{
    let mut fields: Vec<String> = Vec::new();
    fields.push(
        field_text(
            "score_transformation",
            score_transformation_text(o.score_transformation).as_str(),
        ),
    );
    fields.push(field_text("default_score", o.default_score.text.as_str()));
    assert(fields.deep_view() =~= seq![
        debug_field("score_transformation"@, score_transformation_name(o.score_transformation)),
        debug_field("default_score"@, o.deep_view().default_score),
    ]);
    struct_text("ScoreCalibrationOptions", &fields)
}

/// Writes score thresholding options in the structured notation.
pub fn score_thresholding_text(o: &ScoreThresholdingOptions) -> (out: String)
    ensures
        out@ == score_thresholding_debug(o.deep_view()),
{
    let mut fields: Vec<String> = Vec::new();
    fields.push(field_text("global_score_threshold", o.global_score_threshold.text.as_str()));
    assert(fields.deep_view() =~= seq![
        debug_field("global_score_threshold"@, o.deep_view().global_score_threshold),
    ]);
    struct_text("ScoreThresholdingOptions", &fields)
}

/// Writes Bert tokenizer options in the structured notation.
pub fn bert_tokenizer_text(o: &BertTokenizerOptions) -> (out: String)
    ensures
        out@ == bert_tokenizer_debug(o.deep_view()),
{
    let mut fields: Vec<String> = Vec::new();
    fields.push(field_text("vocab_file", optional_files_text(&o.vocab_file).as_str()));
    assert(fields.deep_view() =~= seq![
        debug_field("vocab_file"@, optional_files_debug(o.deep_view().vocab_file)),
    ]);
    struct_text("BertTokenizerOptions", &fields)
}

/// Writes SentencePiece tokenizer options in the structured notation.
pub fn sentence_piece_tokenizer_text(o: &SentencePieceTokenizerOptions) -> (out: String)
    ensures
        out@ == sentence_piece_tokenizer_debug(o.deep_view()),
{
    let mut fields: Vec<String> = Vec::new();
    fields.push(
        field_text("sentence_piece_model", optional_files_text(&o.sentence_piece_model).as_str()),
    );
    fields.push(field_text("vocab_file", optional_files_text(&o.vocab_file).as_str()));
    assert(fields.deep_view() =~= seq![
        debug_field(
            "sentence_piece_model"@,
            optional_files_debug(o.deep_view().sentence_piece_model),
        ),
        debug_field("vocab_file"@, optional_files_debug(o.deep_view().vocab_file)),
    ]);
    struct_text("SentencePieceTokenizerOptions", &fields)
}

/// Writes regex tokenizer options in the structured notation.
pub fn regex_tokenizer_text(o: &RegexTokenizerOptions) -> (out: String)
    ensures
        out@ == regex_tokenizer_debug(o.deep_view()),
{
    let mut fields: Vec<String> = Vec::new();
    fields.push(
        field_text("delim_regex_pattern", option_quoted_text(&o.delim_regex_pattern).as_str()),
    );
    fields.push(field_text("vocab_file", optional_files_text(&o.vocab_file).as_str()));
    assert(fields.deep_view() =~= seq![
        debug_field(
            "delim_regex_pattern"@,
            debug_option(optional_quoted(o.deep_view().delim_regex_pattern)),
        ),
        debug_field("vocab_file"@, optional_files_debug(o.deep_view().vocab_file)),
    ]);
    struct_text("RegexTokenizerOptions", &fields)
}

/// Writes a process unit in the structured notation, by the kind of options
/// that it holds.
pub fn process_unit_text(u: &ProcessUnit) -> (out: String)
    ensures
        out@ == process_unit_debug(u.deep_view()),
{
    let (kind, options): (String, String) = match &u.options {
        ProcessUnitOptions::Absent => (String::from_str("NONE"), String::from_str("None")),
        ProcessUnitOptions::Normalization(r) => (
            String::from_str("NormalizationOptions"),
            normalization_text(r),
        ),
        ProcessUnitOptions::ScoreCalibration(r) => (
            String::from_str("ScoreCalibrationOptions"),
            score_calibration_text(r),
        ),
        ProcessUnitOptions::ScoreThresholding(r) => (
            String::from_str("ScoreThresholdingOptions"),
            score_thresholding_text(r),
        ),
        ProcessUnitOptions::BertTokenizer(r) => (
            String::from_str("BertTokenizerOptions"),
            bert_tokenizer_text(r),
        ),
        ProcessUnitOptions::SentencePieceTokenizer(r) => (
            String::from_str("SentencePieceTokenizerOptions"),
            sentence_piece_tokenizer_text(r),
        ),
        ProcessUnitOptions::RegexTokenizer(r) => (
            String::from_str("RegexTokenizerOptions"),
            regex_tokenizer_text(r),
        ),
        ProcessUnitOptions::Unrecognized(code) => (
            unknown_code_text(*code as i64),
            String::from_str("None"),
        ),
    };
    let mut fields: Vec<String> = Vec::new();
    fields.push(field_text("options_type", kind.as_str()));
    fields.push(field_text("options", options.as_str()));
    assert(fields.deep_view() =~= seq![
        debug_field("options_type"@, options_type_name(u.deep_view().options)),
        debug_field("options"@, options_debug(u.deep_view().options)),
    ]);
    struct_text("ProcessUnit", &fields)
}

/// Lists `units` at depth `indent`.
pub fn render_process_units(indent: Indent, units: &Vec<ProcessUnit>) -> (lines: Vec<String>)
    ensures
        lines.deep_view() == process_units_lines(indent.0 as nat, units.deep_view()),
{
    let mut lines: Vec<String> = Vec::new();
    let mut i: usize = 0;
    while i < units.len()
        invariant
            i <= units.len(),
            lines.len() == i,
            forall|j: int|
                0 <= j < i ==> lines[j]@ == process_unit_line(
                    indent.0 as nat,
                    units[j].deep_view(),
                ),
        decreases units.len() - i,
    {
        let body = process_unit_text(&units[i]);
        lines.push(indented(indent, "- ", body.as_str()));
        i = i + 1;
    }
    assert(lines.deep_view() =~= process_units_lines(indent.0 as nat, units.deep_view()));
    lines
}

} // verus!
