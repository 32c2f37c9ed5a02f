//! Tensor metadata: what a tensor holds, and its place in the report.

use vstd::prelude::*;
use vstd::string::StringExecFns;
use crate::dump::{
    debug_field, debug_list, debug_option, debug_struct, field_text, list_text,
    option_text, optional_numbers_debug, optional_numbers_text, optional_list_debug,
    optional_reals_text, quoted, quoted_text, quoted_texts, struct_text, Real,
};
use crate::files::{
    name_or_unnamed, name_text, optional_assoc_section, render_optional_assoc_section,
    unknown_code, unknown_code_text, AssociatedFile, AssociatedFileView,
};
use crate::process::{process_units_lines, render_process_units, ProcessUnit, ProcessUnitView};
use crate::text::{
    decimal, indent_text, indented, optional_line, push_line, push_lines, push_optional,
    signed_decimal, signed_text, unsigned_text, Indent,
};

verus! {

/// The content is a feature: a plain array of values.
#[derive(Clone, Debug)]
pub struct FeatureProperties {}

/// The size of an image, in pixels.
#[derive(Clone, Copy, Debug)]
pub struct ImageSize {
    pub width: u32,
    pub height: u32,
}

/// The colour space of an image, by its code in the schema.
#[derive(Clone, Copy, Debug, PartialEq, Eq)]
pub struct ColorSpaceType(pub i8);

/// The content is an image.
#[derive(Clone, Debug)]
pub struct ImageProperties {
    pub color_space: ColorSpaceType,
    pub default_size: Option<ImageSize>,
}

/// How a bounding box is given, by its code in the schema.
#[derive(Clone, Copy, Debug, PartialEq, Eq)]
pub struct BoundingBoxType(pub i8);

/// The unit of a bounding box's coordinates, by its code in the schema.
#[derive(Clone, Copy, Debug, PartialEq, Eq)]
pub struct CoordinateType(pub i8);

/// The content is a bounding box.
#[derive(Clone, Debug)]
pub struct BoundingBoxProperties {
    pub index: Option<Vec<u32>>,
    pub type_: BoundingBoxType,
    pub coordinate_type: CoordinateType,
}

/// The content is audio.
#[derive(Clone, Copy, Debug)]
pub struct AudioProperties {
    pub sample_rate: u32,
    pub channels: u32,
}

/// What a tensor's content is: one of the schema's records, nothing, or a
/// record of a kind that the schema does not name, of which only the code is
/// kept.
#[derive(Clone, Debug)]
pub enum ContentProperties {
    Absent,
    Feature(FeatureProperties),
    Image(ImageProperties),
    BoundingBox(BoundingBoxProperties),
    Audio(AudioProperties),
    Unrecognized(u8),
}

/// The part of the tensor, along its last axis, that the content covers.
#[derive(Clone, Copy, Debug)]
pub struct ValueRange {
    pub min: i32,
    pub max: i32,
}

/// The content descriptor of a tensor.
#[derive(Clone, Debug)]
pub struct Content {
    pub content_properties: ContentProperties,
    pub range: Option<ValueRange>,
}

/// The statistics descriptor of a tensor.
#[derive(Clone, Debug)]
pub struct Stats {
    pub max: Option<Vec<Real>>,
    pub min: Option<Vec<Real>>,
}

/// The metadata of one tensor.
#[derive(Clone, Debug)]
pub struct TensorMetadata {
    pub name: Option<String>,
    pub description: Option<String>,
    pub dimension_names: Option<Vec<String>>,
    pub content: Option<Content>,
    pub process_units: Option<Vec<ProcessUnit>>,
    pub stats: Option<Stats>,
    pub associated_files: Option<Vec<AssociatedFile>>,
}

/// What image properties hold.
pub struct ImagePropertiesView {
    pub color_space: ColorSpaceType,
    pub default_size: Option<ImageSize>,
}

/// What bounding box properties hold.
pub struct BoundingBoxPropertiesView {
    pub index: Option<Seq<u32>>,
    pub type_: BoundingBoxType,
    pub coordinate_type: CoordinateType,
}

/// What content properties hold.
pub enum ContentPropertiesView {
    Absent,
    Feature,
    Image(ImagePropertiesView),
    BoundingBox(BoundingBoxPropertiesView),
    Audio(AudioProperties),
    Unrecognized(u8),
}

/// What a content descriptor holds.
pub struct ContentView {
    pub content_properties: ContentPropertiesView,
    pub range: Option<ValueRange>,
}

/// What a statistics descriptor holds.
pub struct StatsView {
    pub max: Option<Seq<Seq<char>>>,
    pub min: Option<Seq<Seq<char>>>,
}

/// What the metadata of a tensor holds.
pub struct TensorMetadataView {
    pub name: Option<Seq<char>>,
    pub description: Option<Seq<char>>,
    pub dimension_names: Option<Seq<Seq<char>>>,
    pub content: Option<ContentView>,
    pub process_units: Option<Seq<ProcessUnitView>>,
    pub stats: Option<StatsView>,
    pub associated_files: Option<Seq<AssociatedFileView>>,
}

impl DeepView for ImageSize {
    type V = ImageSize;

    open spec fn deep_view(&self) -> ImageSize {
        *self
    }
}

impl DeepView for ValueRange {
    type V = ValueRange;

    open spec fn deep_view(&self) -> ValueRange {
        *self
    }
}

impl DeepView for ImageProperties {
    type V = ImagePropertiesView;

    open spec fn deep_view(&self) -> ImagePropertiesView {
        ImagePropertiesView {
            color_space: self.color_space,
            default_size: self.default_size.deep_view(),
        }
    }
}

impl DeepView for BoundingBoxProperties {
    type V = BoundingBoxPropertiesView;

    open spec fn deep_view(&self) -> BoundingBoxPropertiesView {
        BoundingBoxPropertiesView {
            index: self.index.deep_view(),
            type_: self.type_,
            coordinate_type: self.coordinate_type,
        }
    }
}

impl DeepView for ContentProperties {
    type V = ContentPropertiesView;

    open spec fn deep_view(&self) -> ContentPropertiesView {
        match self {
            ContentProperties::Absent => ContentPropertiesView::Absent,
            ContentProperties::Feature(_) => ContentPropertiesView::Feature,
            ContentProperties::Image(r) => ContentPropertiesView::Image(r.deep_view()),
            ContentProperties::BoundingBox(r) => ContentPropertiesView::BoundingBox(r.deep_view()),
            ContentProperties::Audio(r) => ContentPropertiesView::Audio(*r),
            ContentProperties::Unrecognized(code) => ContentPropertiesView::Unrecognized(*code),
        }
    }
}

impl DeepView for Content {
    type V = ContentView;

    open spec fn deep_view(&self) -> ContentView {
        ContentView {
            content_properties: self.content_properties.deep_view(),
            range: self.range.deep_view(),
        }
    }
}

impl DeepView for Stats {
    type V = StatsView;

    open spec fn deep_view(&self) -> StatsView {
        StatsView { max: self.max.deep_view(), min: self.min.deep_view() }
    }
}

impl DeepView for TensorMetadata {
    type V = TensorMetadataView;

    open spec fn deep_view(&self) -> TensorMetadataView {
        TensorMetadataView {
            name: self.name.deep_view(),
            description: self.description.deep_view(),
            dimension_names: self.dimension_names.deep_view(),
            content: self.content.deep_view(),
            process_units: self.process_units.deep_view(),
            stats: self.stats.deep_view(),
            associated_files: self.associated_files.deep_view(),
        }
    }
}

/// The name of a colour space.
pub open spec fn color_space_name(t: ColorSpaceType) -> Seq<char> {
    if t.0 == 0 {
        "UNKNOWN"@
    } else if t.0 == 1 {
        "RGB"@
    } else if t.0 == 2 {
        "GRAYSCALE"@
    } else {
        unknown_code(t.0 as int)
    }
}

/// The name of a way to give a bounding box.
pub open spec fn bounding_box_type_name(t: BoundingBoxType) -> Seq<char> {
    if t.0 == 0 {
        "UNKNOWN"@
    } else if t.0 == 1 {
        "BOUNDARIES"@
    } else if t.0 == 2 {
        "UPPER_LEFT"@
    } else if t.0 == 3 {
        "CENTER"@
    } else {
        unknown_code(t.0 as int)
    }
}

/// The name of a unit of coordinates.
pub open spec fn coordinate_type_name(t: CoordinateType) -> Seq<char> {
    if t.0 == 0 {
        "RATIO"@
    } else if t.0 == 1 {
        "PIXEL"@
    } else {
        unknown_code(t.0 as int)
    }
}

/// An image size in the structured notation.
pub open spec fn image_size_debug(s: ImageSize) -> Seq<char> {
    debug_struct(
        "ImageSize"@,
        seq![
            debug_field("width"@, decimal(s.width as nat)),
            debug_field("height"@, decimal(s.height as nat)),
        ],
    )
}

/// Image properties in the structured notation.
pub open spec fn image_debug(p: ImagePropertiesView) -> Seq<char> {
    debug_struct(
        "ImageProperties"@,
        seq![
            debug_field("color_space"@, color_space_name(p.color_space)),
            debug_field(
                "default_size"@,
                debug_option(
                    match p.default_size {
                        Some(s) => Some(image_size_debug(s)),
                        None => None,
                    },
                ),
            ),
        ],
    )
}

/// Bounding box properties in the structured notation.
pub open spec fn bounding_box_debug(p: BoundingBoxPropertiesView) -> Seq<char> {
    debug_struct(
        "BoundingBoxProperties"@,
        seq![
            debug_field("index"@, optional_numbers_debug(p.index)),
            debug_field("type_"@, bounding_box_type_name(p.type_)),
            debug_field("coordinate_type"@, coordinate_type_name(p.coordinate_type)),
        ],
    )
}

/// Audio properties in the structured notation.
pub open spec fn audio_debug(p: AudioProperties) -> Seq<char> {
    debug_struct(
        "AudioProperties"@,
        seq![
            debug_field("sample_rate"@, decimal(p.sample_rate as nat)),
            debug_field("channels"@, decimal(p.channels as nat)),
        ],
    )
}

/// The name of the kind of content properties.
pub open spec fn content_type_name(p: ContentPropertiesView) -> Seq<char> {
    match p {
        ContentPropertiesView::Absent => "NONE"@,
        ContentPropertiesView::Feature => "FeatureProperties"@,
        ContentPropertiesView::Image(_) => "ImageProperties"@,
        ContentPropertiesView::BoundingBox(_) => "BoundingBoxProperties"@,
        ContentPropertiesView::Audio(_) => "AudioProperties"@,
        ContentPropertiesView::Unrecognized(code) => unknown_code(code as int),
    }
}

/// Content properties in the structured notation: the record where the
/// schema names its kind, `None` otherwise.
pub open spec fn content_properties_debug(p: ContentPropertiesView) -> Seq<char> {
    match p {
        ContentPropertiesView::Absent => "None"@,
        ContentPropertiesView::Feature => debug_struct("FeatureProperties"@, Seq::empty()),
        ContentPropertiesView::Image(r) => image_debug(r),
        ContentPropertiesView::BoundingBox(r) => bounding_box_debug(r),
        ContentPropertiesView::Audio(r) => audio_debug(r),
        ContentPropertiesView::Unrecognized(_) => "None"@,
    }
}

/// A value range in the structured notation.
pub open spec fn value_range_debug(r: ValueRange) -> Seq<char> {
    debug_struct(
        "ValueRange"@,
        seq![
            debug_field("min"@, signed_decimal(r.min as int)),
            debug_field("max"@, signed_decimal(r.max as int)),
        ],
    )
}

/// A content descriptor in the structured notation.
pub open spec fn content_debug(c: ContentView) -> Seq<char> {
    debug_struct(
        "Content"@,
        seq![
            debug_field("content_properties_type"@, content_type_name(c.content_properties)),
            debug_field("content_properties"@, content_properties_debug(c.content_properties)),
            debug_field(
                "range"@,
                debug_option(
                    match c.range {
                        Some(r) => Some(value_range_debug(r)),
                        None => None,
                    },
                ),
            ),
        ],
    )
}

/// A statistics descriptor in the structured notation.
pub open spec fn stats_debug(s: StatsView) -> Seq<char> {
    debug_struct(
        "Stats"@,
        seq![
            debug_field("max"@, optional_list_debug(s.max)),
            debug_field("min"@, optional_list_debug(s.min)),
        ],
    )
}

/// The process units of a tensor with their heading, at depth `depth`.
pub open spec fn process_section(depth: nat, units: Seq<ProcessUnitView>) -> Seq<Seq<char>> {
    seq![indent_text(depth) + decimal(units.len()) + " process unit(s):"@] + process_units_lines(
        depth,
        units,
    )
}

/// The process units of a tensor with their heading, at depth `depth`:
/// nothing where there is no list.
pub open spec fn optional_process_section(depth: nat, units: Option<Seq<ProcessUnitView>>) -> Seq<
    Seq<char>,
> {
    match units {
        Some(list) => process_section(depth, list),
        None => Seq::empty(),
    }
}

/// The lines of one tensor in a listing at depth `indent`: the name; the
/// description, the dimension names, the content descriptor and the
/// statistics descriptor, each where present; then its associated files and
/// its process units, where present, one level further in.
pub open spec fn tensor_lines(indent: nat, t: TensorMetadataView) -> Seq<Seq<char>> {
    seq![indent_text(indent) + "- name: "@ + name_or_unnamed(t.name)] + optional_line(
        indent,
        "  description: "@,
        t.description,
    ) + optional_line(
        indent,
        "  dimension names: "@,
        match t.dimension_names {
            Some(names) => Some(debug_list(quoted_texts(names))),
            None => None,
        },
    ) + optional_line(
        indent,
        "  content: "@,
        match t.content {
            Some(c) => Some(content_debug(c)),
            None => None,
        },
    ) + optional_line(
        indent,
        "  stats: "@,
        match t.stats {
            Some(s) => Some(stats_debug(s)),
            None => None,
        },
    ) + optional_assoc_section(indent + 1, t.associated_files) + optional_process_section(
        indent + 1,
        t.process_units,
    )
}

/// The lines of the first `n` tensors of a listing, in order.
pub open spec fn tensors_lines_upto(
    indent: nat,
    tensors: Seq<TensorMetadataView>,
    n: nat,
) -> Seq<Seq<char>>
    decreases n,
{
    if n == 0 {
        Seq::empty()
    } else {
        tensors_lines_upto(indent, tensors, (n - 1) as nat) + tensor_lines(indent, tensors[n - 1])
    }
}

/// The listing of `tensors` at depth `indent`.
pub open spec fn tensors_lines(indent: nat, tensors: Seq<TensorMetadataView>) -> Seq<Seq<char>> {
    tensors_lines_upto(indent, tensors, tensors.len())
}

/// The name of a colour space.
pub fn color_space_text(t: ColorSpaceType) -> (out: String)
    ensures
        out@ == color_space_name(t),
{
    if t.0 == 0 {
        String::from_str("UNKNOWN")
    } else if t.0 == 1 {
        String::from_str("RGB")
    } else if t.0 == 2 {
        String::from_str("GRAYSCALE")
    } else {
        unknown_code_text(t.0 as i64)
    }
}

/// The name of a way to give a bounding box.
pub fn bounding_box_type_text(t: BoundingBoxType) -> (out: String)
    ensures
        out@ == bounding_box_type_name(t),
{
    if t.0 == 0 {
        String::from_str("UNKNOWN")
    } else if t.0 == 1 {
        String::from_str("BOUNDARIES")
    } else if t.0 == 2 {
        String::from_str("UPPER_LEFT")
    } else if t.0 == 3 {
        String::from_str("CENTER")
    } else {
        unknown_code_text(t.0 as i64)
    }
}

/// The name of a unit of coordinates.
pub fn coordinate_type_text(t: CoordinateType) -> (out: String)
    ensures
        out@ == coordinate_type_name(t),
{
    if t.0 == 0 {
        String::from_str("RATIO")
    } else if t.0 == 1 {
        String::from_str("PIXEL")
    } else {
        unknown_code_text(t.0 as i64)
    }
}

/// Writes an image size in the structured notation.
pub fn image_size_text(s: &ImageSize) -> (out: String)
    ensures
        out@ == image_size_debug(*s),
{
    let mut fields: Vec<String> = Vec::new();
    fields.push(field_text("width", unsigned_text(s.width as u64).as_str()));
    fields.push(field_text("height", unsigned_text(s.height as u64).as_str()));
    assert(fields.deep_view() =~= seq![
        debug_field("width"@, decimal(s.width as nat)),
        debug_field("height"@, decimal(s.height as nat)),
    ]);
    struct_text("ImageSize", &fields)
}

/// Writes image properties in the structured notation.
pub fn image_text(p: &ImageProperties) -> (out: String)
    ensures
        out@ == image_debug(p.deep_view()),
{
    let size: Option<String> = match &p.default_size {
        Some(s) => Some(image_size_text(s)),
        None => None,
    };
    let mut fields: Vec<String> = Vec::new();
    fields.push(field_text("color_space", color_space_text(p.color_space).as_str()));
    fields.push(field_text("default_size", option_text(&size).as_str()));
    assert(fields.deep_view() =~= seq![
        debug_field("color_space"@, color_space_name(p.color_space)),
        debug_field(
            "default_size"@,
            debug_option(
                match p.default_size {
                    Some(s) => Some(image_size_debug(s)),
                    None => None,
                },
            ),
        ),
    ]);
    struct_text("ImageProperties", &fields)
}

/// Writes bounding box properties in the structured notation.
pub fn bounding_box_text(p: &BoundingBoxProperties) -> (out: String)
    ensures
        out@ == bounding_box_debug(p.deep_view()),
{
    let mut fields: Vec<String> = Vec::new();
    fields.push(field_text("index", optional_numbers_text(&p.index).as_str()));
    fields.push(field_text("type_", bounding_box_type_text(p.type_).as_str()));
    fields.push(field_text("coordinate_type", coordinate_type_text(p.coordinate_type).as_str()));
    assert(fields.deep_view() =~= seq![
        debug_field("index"@, optional_numbers_debug(p.deep_view().index)),
        debug_field("type_"@, bounding_box_type_name(p.type_)),
        debug_field("coordinate_type"@, coordinate_type_name(p.coordinate_type)),
    ]);
    struct_text("BoundingBoxProperties", &fields)
}

/// Writes audio properties in the structured notation.
pub fn audio_text(p: &AudioProperties) -> (out: String)
    ensures
        out@ == audio_debug(*p),
{
    let mut fields: Vec<String> = Vec::new();
    fields.push(field_text("sample_rate", unsigned_text(p.sample_rate as u64).as_str()));
    fields.push(field_text("channels", unsigned_text(p.channels as u64).as_str()));
    assert(fields.deep_view() =~= seq![
        debug_field("sample_rate"@, decimal(p.sample_rate as nat)),
        debug_field("channels"@, decimal(p.channels as nat)),
    ]);
    struct_text("AudioProperties", &fields)
}

/// Writes a value range in the structured notation.
pub fn value_range_text(r: &ValueRange) -> (out: String)
    ensures
        out@ == value_range_debug(*r),
{
    let mut fields: Vec<String> = Vec::new();
    fields.push(field_text("min", signed_text(r.min as i64).as_str()));
    fields.push(field_text("max", signed_text(r.max as i64).as_str()));
    assert(fields.deep_view() =~= seq![
        debug_field("min"@, signed_decimal(r.min as int)),
        debug_field("max"@, signed_decimal(r.max as int)),
    ]);
    struct_text("ValueRange", &fields)
}

/// Writes a content descriptor in the structured notation, by the kind of
/// properties that it holds.
pub fn content_text(c: &Content) -> (out: String)
    ensures
        out@ == content_debug(c.deep_view()),
{
    let (kind, properties): (String, String) = match &c.content_properties {
        ContentProperties::Absent => (String::from_str("NONE"), String::from_str("None")),
        ContentProperties::Feature(_) => {
            let none: Vec<String> = Vec::new();
            assert(none.deep_view() =~= Seq::<Seq<char>>::empty());
            (String::from_str("FeatureProperties"), struct_text("FeatureProperties", &none))
        },
        ContentProperties::Image(r) => (String::from_str("ImageProperties"), image_text(r)),
        ContentProperties::BoundingBox(r) => (
            String::from_str("BoundingBoxProperties"),
            bounding_box_text(r),
        ),
        ContentProperties::Audio(r) => (String::from_str("AudioProperties"), audio_text(r)),
        ContentProperties::Unrecognized(code) => (
            unknown_code_text(*code as i64),
            String::from_str("None"),
        ),
    };
    let range: Option<String> = match &c.range {
        Some(r) => Some(value_range_text(r)),
        None => None,
    };
    let mut fields: Vec<String> = Vec::new();
    fields.push(field_text("content_properties_type", kind.as_str()));
    fields.push(field_text("content_properties", properties.as_str()));
    fields.push(field_text("range", option_text(&range).as_str()));
    assert(fields.deep_view() =~= seq![
        debug_field(
            "content_properties_type"@,
            content_type_name(c.deep_view().content_properties),
        ),
        debug_field(
            "content_properties"@,
            content_properties_debug(c.deep_view().content_properties),
        ),
        debug_field(
            "range"@,
            debug_option(
                match c.range {
                    Some(r) => Some(value_range_debug(r)),
                    None => None,
                },
            ),
        ),
    ]);
    struct_text("Content", &fields)
}

/// Writes a statistics descriptor in the structured notation.
pub fn stats_text(s: &Stats) -> (out: String)
    ensures
        out@ == stats_debug(s.deep_view()),
{
    let mut fields: Vec<String> = Vec::new();
    fields.push(field_text("max", optional_reals_text(&s.max).as_str()));
    fields.push(field_text("min", optional_reals_text(&s.min).as_str()));
    assert(fields.deep_view() =~= seq![
        debug_field("max"@, optional_list_debug(s.deep_view().max)),
        debug_field("min"@, optional_list_debug(s.deep_view().min)),
    ]);
    struct_text("Stats", &fields)
}

/// Writes a list of strings in the structured notation.
pub fn strings_text(list: &Vec<String>) -> (out: String)
    ensures
        out@ == debug_list(quoted_texts(list.deep_view())),
{
    let mut texts: Vec<String> = Vec::new();
    let mut i: usize = 0;
    while i < list.len()
        invariant
            i <= list.len(),
            texts.len() == i,
            forall|j: int| 0 <= j < i ==> texts[j]@ == quoted(list[j]@),
        decreases list.len() - i,
    {
        texts.push(quoted_text(list[i].as_str()));
        i = i + 1;
    }
    assert(texts.deep_view() =~= quoted_texts(list.deep_view()));
    list_text(&texts)
}

/// Reports the process units of a tensor with their heading, at depth
/// `depth`.
pub fn render_process_section(depth: Indent, units: &Vec<ProcessUnit>) -> (lines: Vec<String>)
    ensures
        lines.deep_view() == process_section(depth.0 as nat, units.deep_view()),
{
    let mut lines: Vec<String> = Vec::new();
    let count = unsigned_text(units.len() as u64);
    push_line(&mut lines, indented(depth, count.as_str(), " process unit(s):"));
    push_lines(&mut lines, render_process_units(depth, units));
    assert(lines.deep_view() =~= process_section(depth.0 as nat, units.deep_view()));
    lines
}

/// Reports the process units of a tensor, where it has a list, at depth
/// `depth`.
pub fn render_optional_process_section(depth: Indent, units: &Option<Vec<ProcessUnit>>) -> (lines:
    Vec<String>)
    ensures
        lines.deep_view() == optional_process_section(depth.0 as nat, units.deep_view()),
{
    match units {
        Some(list) => render_process_section(depth, list),
        None => {
            let lines: Vec<String> = Vec::new();
            assert(lines.deep_view() =~= Seq::<Seq<char>>::empty());
            lines
        },
    }
}

/// Reports one tensor at depth `indent`.
pub fn render_tensor(indent: Indent, t: &TensorMetadata) -> (lines: Vec<String>)
    requires
        indent.0 < usize::MAX,
    ensures
        lines.deep_view() == tensor_lines(indent.0 as nat, t.deep_view()),
{
    let mut lines: Vec<String> = Vec::new();
    push_line(&mut lines, indented(indent, "- name: ", name_text(&t.name).as_str()));
    assert(lines.deep_view() =~= seq![
        indent_text(indent.0 as nat) + "- name: "@ + name_or_unnamed(t.deep_view().name),
    ]);
    push_optional(&mut lines, indent, "  description: ", &t.description);
    let dims: Option<String> = match &t.dimension_names {
        Some(names) => Some(strings_text(names)),
        None => None,
    };
    push_optional(&mut lines, indent, "  dimension names: ", &dims);
    let content: Option<String> = match &t.content {
        Some(c) => Some(content_text(c)),
        None => None,
    };
    push_optional(&mut lines, indent, "  content: ", &content);
    let stats: Option<String> = match &t.stats {
        Some(s) => Some(stats_text(s)),
        None => None,
    };
    push_optional(&mut lines, indent, "  stats: ", &stats);
    push_lines(&mut lines, render_optional_assoc_section(indent.add(1), &t.associated_files));
    push_lines(&mut lines, render_optional_process_section(indent.add(1), &t.process_units));
    lines
}

/// Lists `tensors` at depth `indent`.
pub fn render_tensors(indent: Indent, tensors: &Vec<TensorMetadata>) -> (lines: Vec<String>)
    requires
        indent.0 < usize::MAX,
    ensures
        lines.deep_view() == tensors_lines(indent.0 as nat, tensors.deep_view()),
{
    let mut lines: Vec<String> = Vec::new();
    let mut i: usize = 0;
    assert(lines.deep_view() =~= tensors_lines_upto(indent.0 as nat, tensors.deep_view(), 0));
    while i < tensors.len()
        invariant
            i <= tensors.len(),
            indent.0 < usize::MAX,
            lines.deep_view() == tensors_lines_upto(
                indent.0 as nat,
                tensors.deep_view(),
                i as nat,
            ),
        decreases tensors.len() - i,
    {
        assert(tensors.deep_view()[i as int] == tensors[i as int].deep_view());
        push_lines(&mut lines, render_tensor(indent, &tensors[i]));
        i = i + 1;
    }
    lines
}

} // verus!
