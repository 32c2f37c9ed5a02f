//! The metadata of a subgraph, and its place in the report.

use vstd::prelude::*;
use vstd::string::StringExecFns;
use crate::custom::{
    custom_lines_upto, detectors_upto, payloads_upto, render_custom_entries, CustomMetadata,
    CustomMetadataView, Decoding, DecodingView,
};
use crate::dump::{
    debug_field, debug_option, debug_struct, field_text, option_quoted_text, optional_quoted,
    optional_strings_debug, optional_strings_text, struct_text,
};
use crate::files::{
    name_or_unnamed, name_text, optional_assoc_section, render_optional_assoc_section,
    AssociatedFile, AssociatedFileView,
};
use crate::process::{process_units_lines, render_process_units, ProcessUnit, ProcessUnitView};
use crate::tensor::{render_tensors, tensors_lines, TensorMetadata, TensorMetadataView};
use crate::text::{
    concat2, decimal, optional_line, push_line, push_lines, push_optional, unsigned_text, Indent,
};

verus! {

/// A named set of tensors.
#[derive(Clone, Debug)]
pub struct TensorGroup {
    pub name: Option<String>,
    pub tensor_names: Option<Vec<String>>,
}

/// The metadata of one subgraph.
#[derive(Clone, Debug)]
pub struct SubGraphMetadata<'a> {
    pub name: Option<String>,
    pub description: Option<String>,
    pub input_tensor_metadata: Option<Vec<TensorMetadata>>,
    pub output_tensor_metadata: Option<Vec<TensorMetadata>>,
    pub associated_files: Option<Vec<AssociatedFile>>,
    pub input_process_units: Option<Vec<ProcessUnit>>,
    pub output_process_units: Option<Vec<ProcessUnit>>,
    pub input_tensor_groups: Option<Vec<TensorGroup>>,
    pub output_tensor_groups: Option<Vec<TensorGroup>>,
    pub custom_metadata: Option<Vec<CustomMetadata<'a>>>,
}

/// What a tensor group holds.
pub struct TensorGroupView {
    pub name: Option<Seq<char>>,
    pub tensor_names: Option<Seq<Seq<char>>>,
}

/// What the metadata of a subgraph holds.
pub struct SubGraphMetadataView {
    pub name: Option<Seq<char>>,
    pub description: Option<Seq<char>>,
    pub input_tensor_metadata: Option<Seq<TensorMetadataView>>,
    pub output_tensor_metadata: Option<Seq<TensorMetadataView>>,
    pub associated_files: Option<Seq<AssociatedFileView>>,
    pub input_process_units: Option<Seq<ProcessUnitView>>,
    pub output_process_units: Option<Seq<ProcessUnitView>>,
    pub input_tensor_groups: Option<Seq<TensorGroupView>>,
    pub output_tensor_groups: Option<Seq<TensorGroupView>>,
    pub custom_metadata: Option<Seq<CustomMetadataView>>,
}

impl DeepView for TensorGroup {
    type V = TensorGroupView;

    open spec fn deep_view(&self) -> TensorGroupView {
        TensorGroupView {
            name: self.name.deep_view(),
            tensor_names: self.tensor_names.deep_view(),
        }
    }
}

impl<'a> DeepView for SubGraphMetadata<'a> {
    type V = SubGraphMetadataView;

    open spec fn deep_view(&self) -> SubGraphMetadataView {
        SubGraphMetadataView {
            name: self.name.deep_view(),
            description: self.description.deep_view(),
            input_tensor_metadata: self.input_tensor_metadata.deep_view(),
            output_tensor_metadata: self.output_tensor_metadata.deep_view(),
            associated_files: self.associated_files.deep_view(),
            input_process_units: self.input_process_units.deep_view(),
            output_process_units: self.output_process_units.deep_view(),
            input_tensor_groups: self.input_tensor_groups.deep_view(),
            output_tensor_groups: self.output_tensor_groups.deep_view(),
            custom_metadata: self.custom_metadata.deep_view(),
        }
    }
}

/// A tensor group in the structured notation.
pub open spec fn tensor_group_debug(g: TensorGroupView) -> Seq<char> {
    debug_struct(
        "TensorGroup"@,
        seq![
            debug_field("name"@, debug_option(optional_quoted(g.name))),
            debug_field("tensor_names"@, optional_strings_debug(g.tensor_names)),
        ],
    )
}

/// The listing of tensor groups: one line for each, in order.
pub open spec fn tensor_groups_lines(groups: Seq<TensorGroupView>) -> Seq<Seq<char>> {
    Seq::new(groups.len(), |i: int| "    - "@ + tensor_group_debug(groups[i]))
}

/// How many entries of an optional list are tagged `DETECTOR_METADATA`.
pub open spec fn section_detectors(entries: Option<Seq<CustomMetadataView>>) -> nat {
    match entries {
        Some(list) => detectors_upto(list, list.len()),
        None => 0,
    }
}

/// How many custom entries of a subgraph are tagged `DETECTOR_METADATA`.
pub open spec fn subgraph_detectors(sub: SubGraphMetadataView) -> nat {
    section_detectors(sub.custom_metadata)
}

/// The payloads of the tagged custom entries of a subgraph, in order.
pub open spec fn subgraph_payloads(sub: SubGraphMetadataView) -> Seq<Seq<u8>> {
    match sub.custom_metadata {
        Some(entries) => payloads_upto(entries, entries.len()),
        None => Seq::empty(),
    }
}

/// A tensor list of a subgraph with its heading.
pub open spec fn tensor_section(
    heading: Seq<char>,
    tensors: Option<Seq<TensorMetadataView>>,
) -> Seq<Seq<char>> {
    match tensors {
        Some(list) => seq!["  - "@ + decimal(list.len()) + heading] + tensors_lines(2, list),
        None => Seq::empty(),
    }
}

/// A process unit list of a subgraph with its heading.
pub open spec fn unit_section(heading: Seq<char>, units: Option<Seq<ProcessUnitView>>) -> Seq<
    Seq<char>,
> {
    match units {
        Some(list) => seq!["  - "@ + decimal(list.len()) + heading] + process_units_lines(2, list),
        None => Seq::empty(),
    }
}

/// A tensor group list of a subgraph with its heading.
pub open spec fn group_section(heading: Seq<char>, groups: Option<Seq<TensorGroupView>>) -> Seq<
    Seq<char>,
> {
    match groups {
        Some(list) => seq!["  - "@ + decimal(list.len()) + heading] + tensor_groups_lines(list),
        None => Seq::empty(),
    }
}

/// The custom entries of a subgraph with their heading.
pub open spec fn custom_section(
    entries: Option<Seq<CustomMetadataView>>,
    outcomes: Seq<DecodingView>,
    base: nat,
) -> Seq<Seq<char>> {
    match entries {
        Some(list) => seq!["  - "@ + decimal(list.len()) + " custom metadata entries"@]
            + custom_lines_upto(list, outcomes, base, list.len()),
        None => Seq::empty(),
    }
}

/// The associated files that the report shows under a subgraph: those of
/// the model, `top_files`, whatever the subgraph's own list holds.
pub open spec fn subgraph_files_section(top_files: Option<Seq<AssociatedFileView>>) -> Seq<
    Seq<char>,
> {
    optional_assoc_section(1, top_files)
}

/// The first lines of a subgraph: its name, or a placeholder, and its
/// description where present.
pub open spec fn subgraph_head_lines(sub: SubGraphMetadataView) -> Seq<Seq<char>> {
    seq!["- name: "@ + name_or_unnamed(sub.name)] + optional_line(
        0,
        "  description: "@,
        sub.description,
    )
}

/// The lists of a subgraph, each with its heading where present: the input
/// and the output tensors; the input and the output process units; the input
/// and the output tensor groups; the custom entries. The outcomes for its
/// tagged entries start at index `base` of `outcomes`.
pub open spec fn subgraph_lists_lines(
    sub: SubGraphMetadataView,
    outcomes: Seq<DecodingView>,
    base: nat,
) -> Seq<Seq<char>> {
    tensor_section(" input tensor(s) with metadata"@, sub.input_tensor_metadata) + tensor_section(
        " output tensor(s) with metadata"@,
        sub.output_tensor_metadata,
    ) + unit_section(" input tensor process units"@, sub.input_process_units) + unit_section(
        " output tensor process units"@,
        sub.output_process_units,
    ) + group_section(" input tensor groups"@, sub.input_tensor_groups) + group_section(
        " output tensor groups"@,
        sub.output_tensor_groups,
    ) + custom_section(sub.custom_metadata, outcomes, base)
}

/// The report of one subgraph: its first lines; the associated files of the
/// model, `top_files`; its lists.
pub open spec fn subgraph_lines(
    top_files: Option<Seq<AssociatedFileView>>,
    sub: SubGraphMetadataView,
    outcomes: Seq<DecodingView>,
    base: nat,
) -> Seq<Seq<char>> {
    subgraph_head_lines(sub) + subgraph_files_section(top_files) + subgraph_lists_lines(
        sub,
        outcomes,
        base,
    )
}

/// Writes a tensor group in the structured notation.
pub fn tensor_group_text(g: &TensorGroup) -> (out: String)
    ensures
        out@ == tensor_group_debug(g.deep_view()),
{
    let mut fields: Vec<String> = Vec::new();
    fields.push(field_text("name", option_quoted_text(&g.name).as_str()));
    fields.push(field_text("tensor_names", optional_strings_text(&g.tensor_names).as_str()));
    assert(fields.deep_view() =~= seq![
        debug_field("name"@, debug_option(optional_quoted(g.deep_view().name))),
        debug_field("tensor_names"@, optional_strings_debug(g.deep_view().tensor_names)),
    ]);
    struct_text("TensorGroup", &fields)
}

/// Lists tensor groups.
pub fn render_tensor_groups(groups: &Vec<TensorGroup>) -> (lines: Vec<String>)
    ensures
        lines.deep_view() == tensor_groups_lines(groups.deep_view()),
{
    let mut lines: Vec<String> = Vec::new();
    let mut i: usize = 0;
    while i < groups.len()
        invariant
            i <= groups.len(),
            lines.len() == i,
            forall|j: int|
                0 <= j < i ==> lines[j]@ == "    - "@ + tensor_group_debug(groups[j].deep_view()),
        decreases groups.len() - i,
    {
        lines.push(concat2("    - ", tensor_group_text(&groups[i]).as_str()));
        i = i + 1;
    }
    assert(lines.deep_view() =~= tensor_groups_lines(groups.deep_view()));
    lines
}

/// The heading of a list of a subgraph: the number of its items, then what
/// they are.
fn section_heading(count: usize, heading: &str) -> (out: String)
    ensures
        out@ == "  - "@ + decimal(count as nat) + heading@,
{
    let mut out = String::from_str("  - ");
    out.append(unsigned_text(count as u64).as_str());
    out.append(heading);
    out
}

/// Reports a tensor list of a subgraph with its heading.
fn render_tensor_section(heading: &str, tensors: &Option<Vec<TensorMetadata>>) -> (lines: Vec<
    String,
>)
    ensures
        lines.deep_view() == tensor_section(heading@, tensors.deep_view()),
{
    let mut lines: Vec<String> = Vec::new();
    match tensors {
        Some(list) => {
            push_line(&mut lines, section_heading(list.len(), heading));
            push_lines(&mut lines, render_tensors(Indent(2), list));
        },
        None => {},
    }
    assert(lines.deep_view() =~= tensor_section(heading@, tensors.deep_view()));
    lines
}

/// Reports a process unit list of a subgraph with its heading.
fn render_unit_section(heading: &str, units: &Option<Vec<ProcessUnit>>) -> (lines: Vec<String>)
    ensures
        lines.deep_view() == unit_section(heading@, units.deep_view()),
{
    let mut lines: Vec<String> = Vec::new();
    match units {
        Some(list) => {
            push_line(&mut lines, section_heading(list.len(), heading));
            push_lines(&mut lines, render_process_units(Indent(2), list));
        },
        None => {},
    }
    assert(lines.deep_view() =~= unit_section(heading@, units.deep_view()));
    lines
}

/// Reports a tensor group list of a subgraph with its heading.
fn render_group_section(heading: &str, groups: &Option<Vec<TensorGroup>>) -> (lines: Vec<String>)
    ensures
        lines.deep_view() == group_section(heading@, groups.deep_view()),
{
    let mut lines: Vec<String> = Vec::new();
    match groups {
        Some(list) => {
            push_line(&mut lines, section_heading(list.len(), heading));
            push_lines(&mut lines, render_tensor_groups(list));
        },
        None => {},
    }
    assert(lines.deep_view() =~= group_section(heading@, groups.deep_view()));
    lines
}

/// Reports the custom entries of a subgraph with their heading, taking the
/// outcomes for its tagged entries from index `base` of `outcomes` on. Gives
/// the lines and the index after the last outcome taken, or nothing where
/// `outcomes` has too few.
fn render_custom_section(
    entries: &Option<Vec<CustomMetadata>>,
    outcomes: &Vec<Decoding>,
    base: usize,
) -> (r: Option<(Vec<String>, usize)>)
    ensures
        match r {
            Some((lines, next)) => {
                &&& next == base + section_detectors(entries.deep_view())
                &&& next <= outcomes.len()
                &&& lines.deep_view() == custom_section(
                    entries.deep_view(),
                    outcomes.deep_view(),
                    base as nat,
                )
            },
            None => base + section_detectors(entries.deep_view()) > outcomes.len(),
        },
{
    if base > outcomes.len() {
        return None;
    }
    let mut lines: Vec<String> = Vec::new();
    match entries {
        Some(list) => {
            match render_custom_entries(list, outcomes, base) {
                Some((listing, next)) => {
                    push_line(&mut lines, section_heading(list.len(), " custom metadata entries"));
                    push_lines(&mut lines, listing);
                    assert(lines.deep_view() =~= custom_section(
                        entries.deep_view(),
                        outcomes.deep_view(),
                        base as nat,
                    ));
                    Some((lines, next))
                },
                None => None,
            }
        },
        None => {
            assert(lines.deep_view() =~= custom_section(
                entries.deep_view(),
                outcomes.deep_view(),
                base as nat,
            ));
            Some((lines, base))
        },
    }
}

/// Reports the name of a subgraph and, where present, its description.
fn render_subgraph_head(sub: &SubGraphMetadata) -> (lines: Vec<String>)
    ensures
        lines.deep_view() == subgraph_head_lines(sub.deep_view()),
{
    let mut lines: Vec<String> = Vec::new();
    push_line(&mut lines, concat2("- name: ", name_text(&sub.name).as_str()));
    assert(lines.deep_view() =~= seq!["- name: "@ + name_or_unnamed(sub.deep_view().name)]);
    push_optional(&mut lines, Indent(0), "  description: ", &sub.description);
    lines
}

/// Reports the lists of a subgraph, taking the outcomes for its tagged
/// entries from index `base` of `outcomes` on. Gives the lines and the index
/// after the last outcome taken, or nothing where `outcomes` has too few.
fn render_subgraph_lists(sub: &SubGraphMetadata, outcomes: &Vec<Decoding>, base: usize) -> (r:
    Option<(Vec<String>, usize)>)
    ensures
        match r {
            Some((lines, next)) => {
                &&& next == base + subgraph_detectors(sub.deep_view())
                &&& next <= outcomes.len()
                &&& lines.deep_view() == subgraph_lists_lines(
                    sub.deep_view(),
                    outcomes.deep_view(),
                    base as nat,
                )
            },
            None => base + subgraph_detectors(sub.deep_view()) > outcomes.len(),
        },
{
    match render_custom_section(&sub.custom_metadata, outcomes, base) {
        Some((custom, next)) => {
            let mut lines = render_tensor_section(
                " input tensor(s) with metadata",
                &sub.input_tensor_metadata,
            );
            push_lines(
                &mut lines,
                render_tensor_section(
                    " output tensor(s) with metadata",
                    &sub.output_tensor_metadata,
                ),
            );
            push_lines(
                &mut lines,
                render_unit_section(" input tensor process units", &sub.input_process_units),
            );
            push_lines(
                &mut lines,
                render_unit_section(" output tensor process units", &sub.output_process_units),
            );
            push_lines(
                &mut lines,
                render_group_section(" input tensor groups", &sub.input_tensor_groups),
            );
            push_lines(
                &mut lines,
                render_group_section(" output tensor groups", &sub.output_tensor_groups),
            );
            push_lines(&mut lines, custom);
            Some((lines, next))
        },
        None => None,
    }
}

/// Reports one subgraph of a model whose own associated files are
/// `top_files`, taking the outcomes for its tagged entries from index `base`
/// of `outcomes` on. Gives the lines and the index after the last outcome
/// taken, or nothing where `outcomes` has too few.
pub fn render_subgraph(
    top_files: &Option<Vec<AssociatedFile>>,
    sub: &SubGraphMetadata,
    outcomes: &Vec<Decoding>,
    base: usize,
) -> (r: Option<(Vec<String>, usize)>)
    ensures
        match r {
            Some((lines, next)) => {
                &&& next == base + subgraph_detectors(sub.deep_view())
                &&& next <= outcomes.len()
                &&& lines.deep_view() == subgraph_lines(
                    top_files.deep_view(),
                    sub.deep_view(),
                    outcomes.deep_view(),
                    base as nat,
                )
            },
            None => base + subgraph_detectors(sub.deep_view()) > outcomes.len(),
        },
{
    match render_subgraph_lists(sub, outcomes, base) {
        Some((lists, next)) => {
            let mut lines = render_subgraph_head(sub);
            push_lines(&mut lines, render_optional_assoc_section(Indent(1), top_files));
            push_lines(&mut lines, lists);
            Some((lines, next))
        },
        None => None,
    }
}

} // verus!
