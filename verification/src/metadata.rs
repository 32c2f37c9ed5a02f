//! The metadata of a model, and the report of it.
//!
//! `detector_payloads` hands out the payloads that are to be decoded as
//! detector options, and `render_report` takes what decoding each of them
//! gave, in the same order.

use vstd::prelude::*;
use vstd::string::StringExecFns;
use crate::custom::{lemma_entry_payload_count, push_entry_payloads, Decoding, DecodingView};
use crate::files::{
    optional_assoc_section, render_optional_assoc_section, AssociatedFile, AssociatedFileView,
};
use crate::subgraph::{
    render_subgraph, subgraph_detectors, subgraph_lines, subgraph_payloads, SubGraphMetadata,
    SubGraphMetadataView,
};
use crate::text::{
    decimal, optional_lines, optional_lines_upto, push_line, push_lines, push_optional,
    unsigned_text, Indent,
};

verus! {

/// The metadata of a model.
#[derive(Clone, Debug)]
pub struct ModelMetadata<'a> {
    pub name: Option<String>,
    pub description: Option<String>,
    pub version: Option<String>,
    pub subgraph_metadata: Option<Vec<SubGraphMetadata<'a>>>,
    pub author: Option<String>,
    pub license: Option<String>,
    pub associated_files: Option<Vec<AssociatedFile>>,
    pub min_parser_version: Option<String>,
}

/// What the metadata of a model holds.
pub struct ModelMetadataView {
    pub name: Option<Seq<char>>,
    pub description: Option<Seq<char>>,
    pub version: Option<Seq<char>>,
    pub subgraph_metadata: Option<Seq<SubGraphMetadataView>>,
    pub author: Option<Seq<char>>,
    pub license: Option<Seq<char>>,
    pub associated_files: Option<Seq<AssociatedFileView>>,
    pub min_parser_version: Option<Seq<char>>,
}

impl<'a> DeepView for ModelMetadata<'a> {
    type V = ModelMetadataView;

    open spec fn deep_view(&self) -> ModelMetadataView {
        ModelMetadataView {
            name: self.name.deep_view(),
            description: self.description.deep_view(),
            version: self.version.deep_view(),
            subgraph_metadata: self.subgraph_metadata.deep_view(),
            author: self.author.deep_view(),
            license: self.license.deep_view(),
            associated_files: self.associated_files.deep_view(),
            min_parser_version: self.min_parser_version.deep_view(),
        }
    }
}

/// How many custom entries of the first `n` subgraphs are tagged
/// `DETECTOR_METADATA`.
pub open spec fn detectors_in_subgraphs(subs: Seq<SubGraphMetadataView>, n: nat) -> nat
    decreases n,
{
    if n == 0 {
        0
    } else {
        detectors_in_subgraphs(subs, (n - 1) as nat) + subgraph_detectors(subs[n - 1])
    }
}

/// The payloads of the tagged custom entries of the first `n` subgraphs, in
/// order.
pub open spec fn payloads_in_subgraphs(subs: Seq<SubGraphMetadataView>, n: nat) -> Seq<Seq<u8>>
    decreases n,
{
    if n == 0 {
        Seq::empty()
    } else {
        payloads_in_subgraphs(subs, (n - 1) as nat) + subgraph_payloads(subs[n - 1])
    }
}

/// The reports of the first `n` subgraphs, in order.
pub open spec fn subgraphs_lines_upto(
    top_files: Option<Seq<AssociatedFileView>>,
    subs: Seq<SubGraphMetadataView>,
    outcomes: Seq<DecodingView>,
    n: nat,
) -> Seq<Seq<char>>
    decreases n,
{
    if n == 0 {
        Seq::empty()
    } else {
        subgraphs_lines_upto(top_files, subs, outcomes, (n - 1) as nat) + subgraph_lines(
            top_files,
            subs[n - 1],
            outcomes,
            detectors_in_subgraphs(subs, (n - 1) as nat),
        )
    }
}

/// How many custom entries of the tree are tagged `DETECTOR_METADATA`.
pub open spec fn detector_count(meta: ModelMetadataView) -> nat {
    match meta.subgraph_metadata {
        Some(subs) => detectors_in_subgraphs(subs, subs.len()),
        None => 0,
    }
}

/// The payloads to decode as detector options: those of the tagged custom
/// entries of the tree, in the order of the report.
pub open spec fn detector_payloads_of(meta: ModelMetadataView) -> Seq<Seq<u8>> {
    match meta.subgraph_metadata {
        Some(subs) => payloads_in_subgraphs(subs, subs.len()),
        None => Seq::empty(),
    }
}

/// The optional fields of the model itself, in the order of the report, each
/// with its label.
pub open spec fn head_fields(meta: ModelMetadataView) -> Seq<(Seq<char>, Option<Seq<char>>)> {
    seq![
        ("name: "@, meta.name),
        ("description: "@, meta.description),
        ("version: "@, meta.version),
        ("author: "@, meta.author),
        ("license: "@, meta.license),
        ("min_parser_version: "@, meta.min_parser_version),
    ]
}

/// The lines of the optional fields of the model itself.
pub open spec fn head_lines(meta: ModelMetadataView) -> Seq<Seq<char>> {
    optional_lines(head_fields(meta))
}

/// The associated files of the model with their heading.
pub open spec fn top_files_section(meta: ModelMetadataView) -> Seq<Seq<char>> {
    optional_assoc_section(0, meta.associated_files)
}

/// The subgraphs of the model with their heading.
pub open spec fn subgraphs_section(meta: ModelMetadataView, outcomes: Seq<DecodingView>) -> Seq<
    Seq<char>,
> {
    match meta.subgraph_metadata {
        Some(subs) => seq![decimal(subs.len()) + " subgraph(s)"@] + subgraphs_lines_upto(
            meta.associated_files,
            subs,
            outcomes,
            subs.len(),
        ),
        None => Seq::empty(),
    }
}

/// The report of a metadata tree: the optional fields of the model, its
/// associated files, its subgraphs. `outcomes` holds what decoding each
/// payload of `detector_payloads_of` gave, in the same order.
pub open spec fn report_lines(meta: ModelMetadataView, outcomes: Seq<DecodingView>) -> Seq<
    Seq<char>,
> {
    head_lines(meta) + top_files_section(meta) + subgraphs_section(meta, outcomes)
}

/// In the first subgraphs of a list there are no more tagged entries than in
/// more of them.
pub proof fn lemma_subgraph_detectors_grow(subs: Seq<SubGraphMetadataView>, fewer: nat, more: nat)
    requires
        fewer <= more,
    ensures
        detectors_in_subgraphs(subs, fewer) <= detectors_in_subgraphs(subs, more),
    decreases more,
{
    if fewer < more {
        lemma_subgraph_detectors_grow(subs, fewer, (more - 1) as nat);
    }
}

/// A list of subgraphs has one payload to decode for each tagged entry.
pub proof fn lemma_subgraph_payload_count(subs: Seq<SubGraphMetadataView>, n: nat)
    ensures
        payloads_in_subgraphs(subs, n).len() == detectors_in_subgraphs(subs, n),
    decreases n,
{
    if n > 0 {
        lemma_subgraph_payload_count(subs, (n - 1) as nat);
        match subs[n - 1].custom_metadata {
            Some(entries) => lemma_entry_payload_count(entries, entries.len()),
            None => {},
        }
    }
}

/// A tree has one payload to decode for each tagged entry.
pub proof fn lemma_payload_count(meta: ModelMetadataView)
    ensures
        detector_payloads_of(meta).len() == detector_count(meta),
{
    match meta.subgraph_metadata {
        Some(subs) => lemma_subgraph_payload_count(subs, subs.len()),
        None => {},
    }
}

/// Reports the optional fields of the model itself.
pub fn render_head(meta: &ModelMetadata) -> (lines: Vec<String>)
    ensures
        lines.deep_view() == head_lines(meta.deep_view()),
{
    let mut lines: Vec<String> = Vec::new();
    push_optional(&mut lines, Indent(0), "name: ", &meta.name);
    push_optional(&mut lines, Indent(0), "description: ", &meta.description);
    push_optional(&mut lines, Indent(0), "version: ", &meta.version);
    push_optional(&mut lines, Indent(0), "author: ", &meta.author);
    push_optional(&mut lines, Indent(0), "license: ", &meta.license);
    push_optional(&mut lines, Indent(0), "min_parser_version: ", &meta.min_parser_version);
    proof {
        reveal_with_fuel(optional_lines_upto, 7);
        assert(lines.deep_view() =~= head_lines(meta.deep_view()));
    }
    lines
}

/// Reports the subgraphs of a model whose own associated files are
/// `top_files`, taking the outcomes from the first on. Gives the lines and
/// the number of outcomes taken, or nothing where `outcomes` has too few.
fn render_subgraphs(
    top_files: &Option<Vec<AssociatedFile>>,
    subs: &Vec<SubGraphMetadata>,
    outcomes: &Vec<Decoding>,
) -> (r: Option<(Vec<String>, usize)>)
    ensures
        match r {
            Some((lines, taken)) => {
                &&& taken == detectors_in_subgraphs(subs.deep_view(), subs.deep_view().len())
                &&& taken <= outcomes.len()
                &&& lines.deep_view() == subgraphs_lines_upto(
                    top_files.deep_view(),
                    subs.deep_view(),
                    outcomes.deep_view(),
                    subs.deep_view().len(),
                )
            },
            None => detectors_in_subgraphs(subs.deep_view(), subs.deep_view().len())
                > outcomes.len(),
        },
{
    let mut lines: Vec<String> = Vec::new();
    let mut next: usize = 0;
    let mut i: usize = 0;
    assert(lines.deep_view() =~= subgraphs_lines_upto(
        top_files.deep_view(),
        subs.deep_view(),
        outcomes.deep_view(),
        0,
    ));
    while i < subs.len()
        invariant
            i <= subs.len(),
            next == detectors_in_subgraphs(subs.deep_view(), i as nat),
            next <= outcomes.len(),
            lines.deep_view() == subgraphs_lines_upto(
                top_files.deep_view(),
                subs.deep_view(),
                outcomes.deep_view(),
                i as nat,
            ),
        decreases subs.len() - i,
    {
        assert(subs.deep_view()[i as int] == subs[i as int].deep_view());
        match render_subgraph(top_files, &subs[i], outcomes, next) {
            Some((part, after)) => {
                push_lines(&mut lines, part);
                next = after;
            },
            None => {
                proof {
                    lemma_subgraph_detectors_grow(
                        subs.deep_view(),
                        (i + 1) as nat,
                        subs.deep_view().len(),
                    );
                }
                return None;
            },
        }
        i = i + 1;
    }
    Some((lines, next))
}

/// Reports the subgraphs of a model with their heading, where it has a
/// list. Gives nothing where `outcomes` does not hold one outcome for each
/// tagged entry.
fn render_subgraphs_section(meta: &ModelMetadata, outcomes: &Vec<Decoding>) -> (r: Option<
    Vec<String>,
>)
    ensures
        r is Some <==> outcomes.deep_view().len() == detector_count(meta.deep_view()),
        r matches Some(lines) ==> lines.deep_view() == subgraphs_section(
            meta.deep_view(),
            outcomes.deep_view(),
        ),
{
    let mut lines: Vec<String> = Vec::new();
    match &meta.subgraph_metadata {
        Some(subs) => {
            match render_subgraphs(&meta.associated_files, subs, outcomes) {
                Some((listing, taken)) => {
                    if taken != outcomes.len() {
                        return None;
                    }
                    let mut heading = unsigned_text(subs.len() as u64);
                    heading.append(" subgraph(s)");
                    push_line(&mut lines, heading);
                    push_lines(&mut lines, listing);
                    assert(lines.deep_view() =~= subgraphs_section(
                        meta.deep_view(),
                        outcomes.deep_view(),
                    ));
                    Some(lines)
                },
                None => None,
            }
        },
        None => {
            if outcomes.len() == 0 {
                assert(lines.deep_view() =~= subgraphs_section(
                    meta.deep_view(),
                    outcomes.deep_view(),
                ));
                Some(lines)
            } else {
                None
            }
        },
    }
}

/// Reports a metadata tree. `outcomes` holds what decoding each payload of
/// `detector_payloads` gave, in the same order; there is no report where it
/// holds more or fewer.
pub fn render_report(meta: &ModelMetadata, outcomes: &Vec<Decoding>) -> (r: Option<Vec<String>>)
    ensures
        r is Some <==> outcomes.deep_view().len() == detector_count(meta.deep_view()),
        r matches Some(lines) ==> lines.deep_view() == report_lines(
            meta.deep_view(),
            outcomes.deep_view(),
        ),
{
    match render_subgraphs_section(meta, outcomes) {
        Some(subgraphs) => {
            let mut lines = render_head(meta);
            push_lines(&mut lines, render_optional_assoc_section(Indent(0), &meta.associated_files));
            push_lines(&mut lines, subgraphs);
            Some(lines)
        },
        None => None,
    }
}

/// The payloads to decode as detector options: those of the custom entries
/// tagged `DETECTOR_METADATA`, in the order of the report.
pub fn detector_payloads<'a>(meta: &ModelMetadata<'a>) -> (payloads: Vec<&'a [u8]>)
    ensures
        payloads.deep_view() == detector_payloads_of(meta.deep_view()),
        payloads@.len() == detector_count(meta.deep_view()),
{
    let mut payloads: Vec<&'a [u8]> = Vec::new();
    match &meta.subgraph_metadata {
        Some(subs) => {
            let mut i: usize = 0;
            assert(payloads.deep_view() =~= payloads_in_subgraphs(subs.deep_view(), 0));
            while i < subs.len()
                invariant
                    i <= subs.len(),
                    payloads.deep_view() == payloads_in_subgraphs(subs.deep_view(), i as nat),
                decreases subs.len() - i,
            {
                let ghost before = payloads.deep_view();
                assert(subs.deep_view()[i as int] == subs[i as int].deep_view());
                match &subs[i].custom_metadata {
                    Some(entries) => {
                        push_entry_payloads(&mut payloads, entries);
                    },
                    None => {},
                }
                assert(payloads.deep_view() =~= before + subgraph_payloads(
                    subs[i as int].deep_view(),
                ));
                i = i + 1;
            }
        },
        None => {},
    }
    assert(payloads.deep_view() =~= detector_payloads_of(meta.deep_view()));
    proof {
        lemma_payload_count(meta.deep_view());
    }
    payloads
}

} // verus!
