//! The options of an object detector, as a custom metadata entry tagged
//! `DETECTOR_METADATA` carries them, and their place in the report.

use vstd::prelude::*;
use crate::dump::{
    bool_text, debug_bool, debug_field, debug_struct, field_text, struct_text, Real,
};
use crate::text::{
    decimal, indent_text, indented, optional_line, push_line, push_lines, push_optional,
    signed_decimal, signed_text, unsigned_text, Indent,
};

verus! {

/// The largest number of anchors that the report lists in full.
pub const DISPLAY_BUDGET: usize = 24;

/// One anchor box: its centre and its size.
#[derive(Clone, Debug)]
pub struct FixedAnchor {
    pub x_center: Real,
    pub y_center: Real,
    pub width: Real,
    pub height: Real,
}

/// A list of anchors of fixed size.
#[derive(Clone, Debug)]
pub struct FixedAnchorsSchema {
    pub anchors: Option<Vec<FixedAnchor>>,
}

/// How the detector's anchors are generated.
#[derive(Clone, Debug)]
pub struct SsdAnchorsOptions {
    pub fixed_anchors_schema: Option<FixedAnchorsSchema>,
}

/// How the detector's raw output tensors are decoded.
#[derive(Clone, Debug)]
pub struct TensorsDecodingOptions {
    pub num_classes: i32,
    pub num_boxes: i32,
    pub num_coords: i32,
    pub keypoint_coord_offset: i32,
    pub num_keypoints: i32,
    pub num_values_per_keypoint: i32,
    pub x_scale: Real,
    pub y_scale: Real,
    pub w_scale: Real,
    pub h_scale: Real,
    pub apply_exponential_on_box_size: bool,
    pub sigmoid_score: bool,
}

/// The detector options tree.
#[derive(Clone, Debug)]
pub struct ObjectDetectorOptions {
    pub min_parser_version: Option<String>,
    pub ssd_anchors_options: Option<SsdAnchorsOptions>,
    pub tensors_decoding_options: Option<TensorsDecodingOptions>,
}

/// What an anchor holds.
pub struct FixedAnchorView {
    pub x_center: Seq<char>,
    pub y_center: Seq<char>,
    pub width: Seq<char>,
    pub height: Seq<char>,
}

/// What a list of anchors of fixed size holds.
pub struct FixedAnchorsSchemaView {
    pub anchors: Option<Seq<FixedAnchorView>>,
}

/// What anchor generation options hold.
pub struct SsdAnchorsOptionsView {
    pub fixed_anchors_schema: Option<FixedAnchorsSchemaView>,
}

/// What tensor decoding options hold.
pub struct TensorsDecodingOptionsView {
    pub num_classes: i32,
    pub num_boxes: i32,
    pub num_coords: i32,
    pub keypoint_coord_offset: i32,
    pub num_keypoints: i32,
    pub num_values_per_keypoint: i32,
    pub x_scale: Seq<char>,
    pub y_scale: Seq<char>,
    pub w_scale: Seq<char>,
    pub h_scale: Seq<char>,
    pub apply_exponential_on_box_size: bool,
    pub sigmoid_score: bool,
}

/// What a detector options tree holds.
pub struct ObjectDetectorOptionsView {
    pub min_parser_version: Option<Seq<char>>,
    pub ssd_anchors_options: Option<SsdAnchorsOptionsView>,
    pub tensors_decoding_options: Option<TensorsDecodingOptionsView>,
}

impl DeepView for FixedAnchor {
    type V = FixedAnchorView;

    open spec fn deep_view(&self) -> FixedAnchorView {
        FixedAnchorView {
            x_center: self.x_center.deep_view(),
            y_center: self.y_center.deep_view(),
            width: self.width.deep_view(),
            height: self.height.deep_view(),
        }
    }
}

impl DeepView for FixedAnchorsSchema {
    type V = FixedAnchorsSchemaView;

    open spec fn deep_view(&self) -> FixedAnchorsSchemaView {
        FixedAnchorsSchemaView { anchors: self.anchors.deep_view() }
    }
}

impl DeepView for SsdAnchorsOptions {
    type V = SsdAnchorsOptionsView;

    open spec fn deep_view(&self) -> SsdAnchorsOptionsView {
        SsdAnchorsOptionsView { fixed_anchors_schema: self.fixed_anchors_schema.deep_view() }
    }
}

impl DeepView for TensorsDecodingOptions {
    type V = TensorsDecodingOptionsView;

    open spec fn deep_view(&self) -> TensorsDecodingOptionsView {
        TensorsDecodingOptionsView {
            num_classes: self.num_classes,
            num_boxes: self.num_boxes,
            num_coords: self.num_coords,
            keypoint_coord_offset: self.keypoint_coord_offset,
            num_keypoints: self.num_keypoints,
            num_values_per_keypoint: self.num_values_per_keypoint,
            x_scale: self.x_scale.deep_view(),
            y_scale: self.y_scale.deep_view(),
            w_scale: self.w_scale.deep_view(),
            h_scale: self.h_scale.deep_view(),
            apply_exponential_on_box_size: self.apply_exponential_on_box_size,
            sigmoid_score: self.sigmoid_score,
        }
    }
}

impl DeepView for ObjectDetectorOptions {
    type V = ObjectDetectorOptionsView;

    open spec fn deep_view(&self) -> ObjectDetectorOptionsView {
        ObjectDetectorOptionsView {
            min_parser_version: self.min_parser_version.deep_view(),
            ssd_anchors_options: self.ssd_anchors_options.deep_view(),
            tensors_decoding_options: self.tensors_decoding_options.deep_view(),
        }
    }
}

/// An anchor in the structured notation.
pub open spec fn anchor_debug(a: FixedAnchorView) -> Seq<char> {
    debug_struct(
        "FixedAnchor"@,
        seq![
            debug_field("x_center"@, a.x_center),
            debug_field("y_center"@, a.y_center),
            debug_field("width"@, a.width),
            debug_field("height"@, a.height),
        ],
    )
}

/// The tensor decoding options in the structured notation.
pub open spec fn decoding_debug(d: TensorsDecodingOptionsView) -> Seq<char> {
    debug_struct(
        "TensorsDecodingOptions"@,
        seq![
            debug_field("num_classes"@, signed_decimal(d.num_classes as int)),
            debug_field("num_boxes"@, signed_decimal(d.num_boxes as int)),
            debug_field("num_coords"@, signed_decimal(d.num_coords as int)),
            debug_field("keypoint_coord_offset"@, signed_decimal(d.keypoint_coord_offset as int)),
            debug_field("num_keypoints"@, signed_decimal(d.num_keypoints as int)),
            debug_field(
                "num_values_per_keypoint"@,
                signed_decimal(d.num_values_per_keypoint as int),
            ),
            debug_field("x_scale"@, d.x_scale),
            debug_field("y_scale"@, d.y_scale),
            debug_field("w_scale"@, d.w_scale),
            debug_field("h_scale"@, d.h_scale),
            debug_field(
                "apply_exponential_on_box_size"@,
                debug_bool(d.apply_exponential_on_box_size),
            ),
            debug_field("sigmoid_score"@, debug_bool(d.sigmoid_score)),
        ],
    )
}

/// The line of one anchor in a listing at depth `indent`.
pub open spec fn anchor_line(indent: nat, a: FixedAnchorView) -> Seq<char> {
    indent_text(indent) + "    - "@ + anchor_debug(a)
}

/// The lines of the anchors at the indices from `from` up to, not including,
/// `to`, in order.
pub open spec fn anchor_lines_range(
    indent: nat,
    anchors: Seq<FixedAnchorView>,
    from: nat,
    to: nat,
) -> Seq<Seq<char>>
    decreases to,
{
    if to <= from {
        Seq::empty()
    } else {
        anchor_lines_range(indent, anchors, from, (to - 1) as nat).push(
            anchor_line(indent, anchors[to - 1]),
        )
    }
}

/// The line that stands for the anchors left out of a listing of `total`.
pub open spec fn omitted_line(indent: nat, total: nat) -> Seq<char> {
    indent_text(indent) + "    - ..."@ + decimal((total - DISPLAY_BUDGET) as nat) + " more"@
}

/// The listing of an anchor list: the count, then every anchor where the
/// list fits the display budget; else the first half budget of them, the line
/// for the omitted ones, and the anchors from index `len - 1 - budget / 2` on.
pub open spec fn anchors_lines(indent: nat, anchors: Seq<FixedAnchorView>) -> Seq<Seq<char>> {
    let count = seq![indent_text(indent) + "    "@ + decimal(anchors.len()) + " anchors"@];
    if anchors.len() <= DISPLAY_BUDGET {
        count + anchor_lines_range(indent, anchors, 0, anchors.len())
    } else {
        count + anchor_lines_range(indent, anchors, 0, (DISPLAY_BUDGET / 2) as nat) + seq![
            omitted_line(indent, anchors.len()),
        ] + anchor_lines_range(
            indent,
            anchors,
            (anchors.len() - 1 - DISPLAY_BUDGET / 2) as nat,
            anchors.len(),
        )
    }
}

/// The lines of a list of anchors of fixed size: its heading and, where it
/// holds a list, the listing.
pub open spec fn fixed_anchors_lines(indent: nat, fixed: FixedAnchorsSchemaView) -> Seq<Seq<char>> {
    seq![indent_text(indent) + "  fixed_anchors_schema:"@] + match fixed.anchors {
        Some(anchors) => anchors_lines(indent, anchors),
        None => Seq::empty(),
    }
}

/// The lines of the anchor generation options: their heading and, where
/// they hold one, the list of anchors of fixed size.
pub open spec fn ssd_lines(indent: nat, ssd: SsdAnchorsOptionsView) -> Seq<Seq<char>> {
    seq![indent_text(indent) + "ssd_anchor_options:"@] + match ssd.fixed_anchors_schema {
        Some(fixed) => fixed_anchors_lines(indent, fixed),
        None => Seq::empty(),
    }
}

/// The report of a detector options tree at depth `indent`: the minimum
/// parser version, the tensor decoding options, the anchor generation
/// options, each where present.
pub open spec fn detector_lines(indent: nat, options: ObjectDetectorOptionsView) -> Seq<
    Seq<char>,
> {
    optional_line(indent, "min_parser_version: "@, options.min_parser_version)
        + optional_line(
        indent,
        "tensors_decoding_options: "@,
        match options.tensors_decoding_options {
            Some(d) => Some(decoding_debug(d)),
            None => None,
        },
    ) + match options.ssd_anchors_options {
        Some(ssd) => ssd_lines(indent, ssd),
        None => Seq::empty(),
    }
}

/// Writes an anchor in the structured notation.
pub fn anchor_text(a: &FixedAnchor) -> (out: String)
    ensures
        out@ == anchor_debug(a.deep_view()),
{
    let mut fields: Vec<String> = Vec::new();
    fields.push(field_text("x_center", a.x_center.text.as_str()));
    fields.push(field_text("y_center", a.y_center.text.as_str()));
    fields.push(field_text("width", a.width.text.as_str()));
    fields.push(field_text("height", a.height.text.as_str()));
    assert(fields.deep_view() =~= seq![
        debug_field("x_center"@, a.deep_view().x_center),
        debug_field("y_center"@, a.deep_view().y_center),
        debug_field("width"@, a.deep_view().width),
        debug_field("height"@, a.deep_view().height),
    ]);
    struct_text("FixedAnchor", &fields)
}

/// Writes the tensor decoding options in the structured notation.
pub fn decoding_text(d: &TensorsDecodingOptions) -> (out: String)
    ensures
        out@ == decoding_debug(d.deep_view()),
{
    let mut fields: Vec<String> = Vec::new();
    fields.push(field_text("num_classes", signed_text(d.num_classes as i64).as_str()));
    fields.push(field_text("num_boxes", signed_text(d.num_boxes as i64).as_str()));
    fields.push(field_text("num_coords", signed_text(d.num_coords as i64).as_str()));
    fields.push(
        field_text("keypoint_coord_offset", signed_text(d.keypoint_coord_offset as i64).as_str()),
    );
    fields.push(field_text("num_keypoints", signed_text(d.num_keypoints as i64).as_str()));
    fields.push(
        field_text(
            "num_values_per_keypoint",
            signed_text(d.num_values_per_keypoint as i64).as_str(),
        ),
    );
    fields.push(field_text("x_scale", d.x_scale.text.as_str()));
    fields.push(field_text("y_scale", d.y_scale.text.as_str()));
    fields.push(field_text("w_scale", d.w_scale.text.as_str()));
    fields.push(field_text("h_scale", d.h_scale.text.as_str()));
    fields.push(
        field_text(
            "apply_exponential_on_box_size",
            bool_text(d.apply_exponential_on_box_size).as_str(),
        ),
    );
    fields.push(field_text("sigmoid_score", bool_text(d.sigmoid_score).as_str()));
    assert(fields.deep_view() =~= seq![
        debug_field("num_classes"@, signed_decimal(d.num_classes as int)),
        debug_field("num_boxes"@, signed_decimal(d.num_boxes as int)),
        debug_field("num_coords"@, signed_decimal(d.num_coords as int)),
        debug_field("keypoint_coord_offset"@, signed_decimal(d.keypoint_coord_offset as int)),
        debug_field("num_keypoints"@, signed_decimal(d.num_keypoints as int)),
        debug_field("num_values_per_keypoint"@, signed_decimal(d.num_values_per_keypoint as int)),
        debug_field("x_scale"@, d.deep_view().x_scale),
        debug_field("y_scale"@, d.deep_view().y_scale),
        debug_field("w_scale"@, d.deep_view().w_scale),
        debug_field("h_scale"@, d.deep_view().h_scale),
        debug_field("apply_exponential_on_box_size"@, debug_bool(d.apply_exponential_on_box_size)),
        debug_field("sigmoid_score"@, debug_bool(d.sigmoid_score)),
    ]);
    struct_text("TensorsDecodingOptions", &fields)
}

/// Adds the lines of the anchors at the indices from `from` up to, not
/// including, `to`.
fn push_anchor_range(
    lines: &mut Vec<String>,
    indent: Indent,
    anchors: &Vec<FixedAnchor>,
    from: usize,
    to: usize,
)
    requires
        from <= to <= anchors.len(),
    ensures
        final(lines).deep_view() == old(lines).deep_view() + anchor_lines_range(
            indent.0 as nat,
            anchors.deep_view(),
            from as nat,
            to as nat,
        ),
{
    let mut i: usize = from;
    assert(lines.deep_view() =~= old(lines).deep_view() + anchor_lines_range(
        indent.0 as nat,
        anchors.deep_view(),
        from as nat,
        from as nat,
    ));
    while i < to
        invariant
            from <= i <= to <= anchors.len(),
            lines.deep_view() == old(lines).deep_view() + anchor_lines_range(
                indent.0 as nat,
                anchors.deep_view(),
                from as nat,
                i as nat,
            ),
        decreases to - i,
    {
        let body = anchor_text(&anchors[i]);
        push_line(lines, indented(indent, "    - ", body.as_str()));
        i = i + 1;
        assert(lines.deep_view() =~= old(lines).deep_view() + anchor_lines_range(
            indent.0 as nat,
            anchors.deep_view(),
            from as nat,
            i as nat,
        ));
    }
}

/// Lists an anchor list under the display budget.
pub fn render_anchors(indent: Indent, anchors: &Vec<FixedAnchor>) -> (lines: Vec<String>)
    ensures
        lines.deep_view() == anchors_lines(indent.0 as nat, anchors.deep_view()),
{
    let mut lines: Vec<String> = Vec::new();
    let total: usize = anchors.len();
    let mut count = indent.to_text();
    count.append("    ");
    count.append(unsigned_text(total as u64).as_str());
    count.append(" anchors");
    push_line(&mut lines, count);
    if total <= DISPLAY_BUDGET {
        push_anchor_range(&mut lines, indent, anchors, 0, total);
    } else {
        push_anchor_range(&mut lines, indent, anchors, 0, DISPLAY_BUDGET / 2);
        let mut omitted = indent.to_text();
        omitted.append("    - ...");
        omitted.append(unsigned_text((total - DISPLAY_BUDGET) as u64).as_str());
        omitted.append(" more");
        push_line(&mut lines, omitted);
        push_anchor_range(&mut lines, indent, anchors, total - 1 - DISPLAY_BUDGET / 2, total);
    }
    assert(lines.deep_view() =~= anchors_lines(indent.0 as nat, anchors.deep_view()));
    lines
}

/// Reports a list of anchors of fixed size at depth `indent`: its heading
/// and, where it holds a list, the listing.
pub fn render_fixed_anchors(indent: Indent, fixed: &FixedAnchorsSchema) -> (lines: Vec<String>)
    ensures
        lines.deep_view() == fixed_anchors_lines(indent.0 as nat, fixed.deep_view()),
{
    let mut lines: Vec<String> = Vec::new();
    push_line(&mut lines, indented(indent, "  fixed_anchors_schema:", ""));
    proof {
        reveal_strlit("");
        assert(""@ =~= Seq::<char>::empty());
        assert(lines.deep_view() =~= seq![
            indent_text(indent.0 as nat) + "  fixed_anchors_schema:"@,
        ]);
    }
    match &fixed.anchors {
        Some(anchors) => {
            push_lines(&mut lines, render_anchors(indent, anchors));
        },
        None => {
            assert(lines.deep_view() =~= fixed_anchors_lines(indent.0 as nat, fixed.deep_view()));
        },
    }
    lines
}

/// Reports anchor generation options at depth `indent`: their heading and,
/// where they hold one, the list of anchors of fixed size.
pub fn render_ssd_options(indent: Indent, ssd: &SsdAnchorsOptions) -> (lines: Vec<String>)
    ensures
        lines.deep_view() == ssd_lines(indent.0 as nat, ssd.deep_view()),
{
    let mut lines: Vec<String> = Vec::new();
    push_line(&mut lines, indented(indent, "ssd_anchor_options:", ""));
    proof {
        reveal_strlit("");
        assert(""@ =~= Seq::<char>::empty());
        assert(lines.deep_view() =~= seq![indent_text(indent.0 as nat) + "ssd_anchor_options:"@]);
    }
    match &ssd.fixed_anchors_schema {
        Some(fixed) => {
            push_lines(&mut lines, render_fixed_anchors(indent, fixed));
        },
        None => {
            assert(lines.deep_view() =~= ssd_lines(indent.0 as nat, ssd.deep_view()));
        },
    }
    lines
}

/// Reports a detector options tree at depth `indent`.
pub fn render_detector_options(indent: Indent, options: &ObjectDetectorOptions) -> (lines: Vec<
    String,
>)
    ensures
        lines.deep_view() == detector_lines(indent.0 as nat, options.deep_view()),
{
    let mut lines: Vec<String> = Vec::new();
    push_optional(&mut lines, indent, "min_parser_version: ", &options.min_parser_version);
    let decoding: Option<String> = match &options.tensors_decoding_options {
        Some(d) => Some(decoding_text(d)),
        None => None,
    };
    push_optional(&mut lines, indent, "tensors_decoding_options: ", &decoding);
    assert(lines.deep_view() =~= optional_line(
        indent.0 as nat,
        "min_parser_version: "@,
        options.deep_view().min_parser_version,
    ) + optional_line(
        indent.0 as nat,
        "tensors_decoding_options: "@,
        decoding.deep_view(),
    ));
    match &options.ssd_anchors_options {
        Some(ssd) => {
            push_lines(&mut lines, render_ssd_options(indent, ssd));
        },
        None => {
            assert(lines.deep_view() =~= detector_lines(indent.0 as nat, options.deep_view()));
        },
    }
    lines
}

} // verus!
