//! Custom metadata entries: a name tag and an opaque payload each. The tag
//! says whether a known format applies. One does: an entry tagged
//! `DETECTOR_METADATA` carries detector options.
//!
//! Decoding that format is not done here. The payloads of the tagged entries
//! are handed out, in the order of the report, and the report takes what
//! decoding each of them gave.

use vstd::prelude::*;
use vstd::string::StringExecFns;
use crate::blob::{bytes_of, optional_bytes};
use crate::detector::{
    detector_lines, render_detector_options, ObjectDetectorOptions, ObjectDetectorOptionsView,
};
use crate::files::{name_or_unnamed, name_text};
use crate::text::{concat2, decimal, push_line, push_lines, unsigned_text, Indent};

verus! {

/// A custom metadata entry: a name tag and an opaque payload.
#[derive(Clone, Debug)]
pub struct CustomMetadata<'a> {
    pub name: Option<String>,
    pub data: Option<flatbuffers::Vector<'a, u8>>,
}

/// What decoding a payload as detector options gave: the options, or the
/// message of the failure.
#[derive(Clone, Debug)]
pub enum Decoding {
    Decoded(ObjectDetectorOptions),
    Failed(String),
}

/// What a custom metadata entry holds.
pub struct CustomMetadataView {
    pub name: Option<Seq<char>>,
    pub data: Option<Seq<u8>>,
}

/// What the outcome of a decoding holds.
pub enum DecodingView {
    Decoded(ObjectDetectorOptionsView),
    Failed(Seq<char>),
}

impl<'a> DeepView for CustomMetadata<'a> {
    type V = CustomMetadataView;

    open spec fn deep_view(&self) -> CustomMetadataView {
        CustomMetadataView { name: self.name.deep_view(), data: optional_bytes(self.data) }
    }
}

impl DeepView for Decoding {
    type V = DecodingView;

    open spec fn deep_view(&self) -> DecodingView {
        match self {
            Decoding::Decoded(options) => DecodingView::Decoded(options.deep_view()),
            Decoding::Failed(message) => DecodingView::Failed(message.deep_view()),
        }
    }
}

/// The tag of the custom metadata entries that carry detector options.
pub open spec fn detector_tag() -> Seq<char> {
    "DETECTOR_METADATA"@
}

/// Whether an entry is tagged as carrying detector options.
pub open spec fn is_detector(e: CustomMetadataView) -> bool {
    e.name == Some(detector_tag())
}

/// The payload of an entry: its bytes, none where it has no data.
pub open spec fn payload(e: CustomMetadataView) -> Seq<u8> {
    match e.data {
        Some(d) => d,
        None => Seq::empty(),
    }
}

/// The lines that every custom entry has: its name, or a placeholder, and
/// the length of its payload.
pub open spec fn custom_head_lines(e: CustomMetadataView) -> Seq<Seq<char>> {
    seq![
        "    - name: "@ + name_or_unnamed(e.name),
        "      "@ + decimal(payload(e).len()) + " bytes"@,
    ]
}

/// The lines for the payload of a tagged entry, by what decoding it gave:
/// the report of the options, one level further in than the entry, or one
/// line with the message of the failure.
pub open spec fn decoding_lines(outcome: DecodingView) -> Seq<Seq<char>> {
    match outcome {
        DecodingView::Decoded(options) => detector_lines(3, options),
        DecodingView::Failed(message) => seq!["      decoding error: "@ + message],
    }
}

/// The line for the payload of an entry whose tag names no known format.
pub open spec fn unhandled_line() -> Seq<char> {
    "      (unknown or unhandled format)"@
}

/// The lines of one custom entry. `outcome` is what decoding its payload as
/// detector options gave; it is read only where the entry is tagged
/// `DETECTOR_METADATA`.
pub open spec fn custom_entry_lines(e: CustomMetadataView, outcome: DecodingView) -> Seq<
    Seq<char>,
> {
    custom_head_lines(e) + if is_detector(e) {
        decoding_lines(outcome)
    } else {
        seq![unhandled_line()]
    }
}

/// How many of the first `n` entries are tagged `DETECTOR_METADATA`.
pub open spec fn detectors_upto(entries: Seq<CustomMetadataView>, n: nat) -> nat
    decreases n,
{
    if n == 0 {
        0
    } else {
        detectors_upto(entries, (n - 1) as nat) + if is_detector(entries[n - 1]) {
            1nat
        } else {
            0nat
        }
    }
}

/// The payloads of those of the first `n` entries that are tagged
/// `DETECTOR_METADATA`, in order.
pub open spec fn payloads_upto(entries: Seq<CustomMetadataView>, n: nat) -> Seq<Seq<u8>>
    decreases n,
{
    if n == 0 {
        Seq::empty()
    } else {
        payloads_upto(entries, (n - 1) as nat) + if is_detector(entries[n - 1]) {
            seq![payload(entries[n - 1])]
        } else {
            Seq::empty()
        }
    }
}

/// The lines of the first `n` entries of a list. The outcomes for the tagged
/// entries of this list start at index `base` of `outcomes`.
pub open spec fn custom_lines_upto(
    entries: Seq<CustomMetadataView>,
    outcomes: Seq<DecodingView>,
    base: nat,
    n: nat,
) -> Seq<Seq<char>>
    decreases n,
{
    if n == 0 {
        Seq::empty()
    } else {
        custom_lines_upto(entries, outcomes, base, (n - 1) as nat) + custom_entry_lines(
            entries[n - 1],
            outcomes[(base + detectors_upto(entries, (n - 1) as nat)) as int],
        )
    }
}

/// Among the first entries of a list there are no more tagged ones than among
/// more of them.
pub proof fn lemma_detectors_grow(entries: Seq<CustomMetadataView>, fewer: nat, more: nat)
    requires
        fewer <= more,
    ensures
        detectors_upto(entries, fewer) <= detectors_upto(entries, more),
    decreases more,
{
    if fewer < more {
        lemma_detectors_grow(entries, fewer, (more - 1) as nat);
    }
}

/// A list of entries has one payload to decode for each tagged entry.
pub proof fn lemma_entry_payload_count(entries: Seq<CustomMetadataView>, n: nat)
    ensures
        payloads_upto(entries, n).len() == detectors_upto(entries, n),
    decreases n,
{
    if n > 0 {
        lemma_entry_payload_count(entries, (n - 1) as nat);
    }
}

/// Whether an entry is tagged as carrying detector options.
pub fn is_detector_entry(e: &CustomMetadata) -> (tagged: bool)
    ensures
        tagged == is_detector(e.deep_view()),
{
    match &e.name {
        Some(n) => {
            let tag = String::from_str("DETECTOR_METADATA");
            *n == tag
        },
        None => false,
    }
}

/// The payload of an entry: its bytes, none where it has no data.
pub fn payload_bytes<'a>(e: &CustomMetadata<'a>) -> (out: &'a [u8])
    ensures
        out@ == payload(e.deep_view()),
{
    let nothing: &'static [u8] = &[];
    assert(nothing@ =~= Seq::<u8>::empty());
    match &e.data {
        Some(d) => bytes_of(d),
        None => nothing,
    }
}

/// Reports what every custom entry shows: its name and the length of its
/// payload.
pub fn render_custom_head(e: &CustomMetadata) -> (lines: Vec<String>)
    ensures
        lines.deep_view() == custom_head_lines(e.deep_view()),
{
    let mut lines: Vec<String> = Vec::new();
    push_line(&mut lines, concat2("    - name: ", name_text(&e.name).as_str()));
    let length: usize = payload_bytes(e).len();
    let mut bytes = String::from_str("      ");
    bytes.append(unsigned_text(length as u64).as_str());
    bytes.append(" bytes");
    push_line(&mut lines, bytes);
    assert(lines.deep_view() =~= custom_head_lines(e.deep_view()));
    lines
}

/// Reports the payload of a tagged entry, by what decoding it gave.
pub fn render_decoding(outcome: &Decoding) -> (lines: Vec<String>)
    ensures
        lines.deep_view() == decoding_lines(outcome.deep_view()),
{
    match outcome {
        Decoding::Decoded(options) => render_detector_options(Indent(3), options),
        Decoding::Failed(message) => {
            let mut lines: Vec<String> = Vec::new();
            push_line(&mut lines, concat2("      decoding error: ", message.as_str()));
            assert(lines.deep_view() =~= decoding_lines(outcome.deep_view()));
            lines
        },
    }
}

/// Reports the payload of an entry whose tag names no known format.
pub fn render_unhandled() -> (lines: Vec<String>)
    ensures
        lines.deep_view() == seq![unhandled_line()],
{
    let mut lines: Vec<String> = Vec::new();
    push_line(&mut lines, String::from_str("      (unknown or unhandled format)"));
    assert(lines.deep_view() =~= seq![unhandled_line()]);
    lines
}

/// Reports one custom entry. `outcome` is what decoding its payload as
/// detector options gave; it is read only where the entry is tagged
/// `DETECTOR_METADATA`.
pub fn render_custom_entry(e: &CustomMetadata, outcome: &Decoding) -> (lines: Vec<String>)
    ensures
        lines.deep_view() == custom_entry_lines(e.deep_view(), outcome.deep_view()),
{
    let mut lines = render_custom_head(e);
    if is_detector_entry(e) {
        push_lines(&mut lines, render_decoding(outcome));
    } else {
        push_lines(&mut lines, render_unhandled());
    }
    lines
}

/// Reports the entries of a list, taking the outcomes for its tagged entries
/// from index `base` of `outcomes` on. Gives the lines and the index after
/// the last outcome taken, or nothing where `outcomes` has too few.
pub fn render_custom_entries(
    entries: &Vec<CustomMetadata>,
    outcomes: &Vec<Decoding>,
    base: usize,
) -> (r: Option<(Vec<String>, usize)>)
    ensures
        match r {
            Some((lines, next)) => {
                &&& next == base + detectors_upto(entries.deep_view(), entries.deep_view().len())
                &&& next <= outcomes.len()
                &&& lines.deep_view() == custom_lines_upto(
                    entries.deep_view(),
                    outcomes.deep_view(),
                    base as nat,
                    entries.deep_view().len(),
                )
            },
            None => base + detectors_upto(entries.deep_view(), entries.deep_view().len())
                > outcomes.len(),
        },
{
    if base > outcomes.len() {
        return None;
    }
    let mut lines: Vec<String> = Vec::new();
    let mut next: usize = base;
    let mut i: usize = 0;
    assert(lines.deep_view() =~= custom_lines_upto(
        entries.deep_view(),
        outcomes.deep_view(),
        base as nat,
        0,
    ));
    while i < entries.len()
        invariant
            i <= entries.len(),
            next == base + detectors_upto(entries.deep_view(), i as nat),
            next <= outcomes.len(),
            lines.deep_view() == custom_lines_upto(
                entries.deep_view(),
                outcomes.deep_view(),
                base as nat,
                i as nat,
            ),
        decreases entries.len() - i,
    {
        let e = &entries[i];
        assert(entries.deep_view()[i as int] == e.deep_view());
        if is_detector_entry(e) {
            if next >= outcomes.len() {
                proof {
                    lemma_detectors_grow(
                        entries.deep_view(),
                        (i + 1) as nat,
                        entries.deep_view().len(),
                    );
                }
                return None;
            }
            assert(outcomes.deep_view()[next as int] == outcomes[next as int].deep_view());
            push_lines(&mut lines, render_custom_entry(e, &outcomes[next]));
            next = next + 1;
        } else {
            let mut own = render_custom_head(e);
            push_lines(&mut own, render_unhandled());
            push_lines(&mut lines, own);
        }
        i = i + 1;
    }
    Some((lines, next))
}

/// Adds the payloads of the tagged entries of a list, in order.
pub fn push_entry_payloads<'a>(payloads: &mut Vec<&'a [u8]>, entries: &Vec<CustomMetadata<'a>>)
    ensures
        final(payloads).deep_view() == old(payloads).deep_view() + payloads_upto(
            entries.deep_view(),
            entries.deep_view().len(),
        ),
{
    let mut j: usize = 0;
    assert(payloads.deep_view() =~= old(payloads).deep_view() + payloads_upto(
        entries.deep_view(),
        0,
    ));
    while j < entries.len()
        invariant
            j <= entries.len(),
            payloads.deep_view() == old(payloads).deep_view() + payloads_upto(
                entries.deep_view(),
                j as nat,
            ),
        decreases entries.len() - j,
    {
        let ghost so_far = payloads.deep_view();
        assert(entries.deep_view()[j as int] == entries[j as int].deep_view());
        if is_detector_entry(&entries[j]) {
            let bytes = payload_bytes(&entries[j]);
            assert(bytes.deep_view() =~= bytes@);
            payloads.push(bytes);
            assert(payloads.deep_view() =~= so_far.push(payload(entries[j as int].deep_view())));
        }
        j = j + 1;
        assert(payloads.deep_view() =~= old(payloads).deep_view() + payloads_upto(
            entries.deep_view(),
            j as nat,
        ));
    }
}

} // verus!
