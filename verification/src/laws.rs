//! What holds of every container, of every metadata tree and of every
//! report, stated over the functions that the contracts of the library use.

use vstd::prelude::*;
use crate::container::{
    error_message, first_metadata_entry, is_metadata_entry, located, LocateError,
    MetadataEntryView, Model, ModelView,
};
use crate::detector::{
    anchor_line, anchor_lines_range, anchors_lines, omitted_line, FixedAnchorView,
    DISPLAY_BUDGET,
};
use crate::files::{assoc_section, AssociatedFileView};
use crate::custom::{
    custom_entry_lines, custom_head_lines, custom_lines_upto, detectors_upto, is_detector,
    lemma_entry_payload_count, payload, payloads_upto, unhandled_line, CustomMetadataView,
    Decoding, DecodingView,
};
use crate::metadata::{
    detector_payloads_of, head_fields, head_lines, report_lines, ModelMetadata,
    ModelMetadataView,
};
use crate::subgraph::{
    subgraph_files_section, subgraph_head_lines, subgraph_lines, SubGraphMetadataView,
};
use crate::text::{decimal, indent_text, optional_lines, optional_lines_upto};

verus! {

/// Where the search for the metadata entry from `from` on ends at an index,
/// that entry is the first from `from` on with the name; where it ends
/// without one, no entry from `from` on has the name.
pub proof fn first_entry_is_first_match(entries: Seq<MetadataEntryView>, from: nat, i: nat)
    requires
        from <= i < entries.len(),
    ensures
        match first_metadata_entry(entries, from) {
            Some(found) => {
                &&& from <= found < entries.len()
                &&& is_metadata_entry(entries[found as int])
                &&& i < found ==> !is_metadata_entry(entries[i as int])
            },
            None => !is_metadata_entry(entries[i as int]),
        },
    decreases entries.len() - from,
{
    if !is_metadata_entry(entries[from as int]) {
        if from < i {
            first_entry_is_first_match(entries, from + 1, i);
        } else if from + 1 < entries.len() {
            first_entry_is_first_match(entries, from + 1, from + 1);
        }
    }
}

/// The search for the metadata entry ends without one exactly where no
/// entry of the list has the name.
pub proof fn search_fails_iff_no_match(entries: Seq<MetadataEntryView>, from: nat)
    ensures
        first_metadata_entry(entries, from).is_none() <==> forall|i: int|
            from <= i < entries.len() ==> !is_metadata_entry(#[trigger] entries[i]),
    decreases entries.len() - from,
{
    if from < entries.len() {
        search_fails_iff_no_match(entries, from + 1);
        if first_metadata_entry(entries, from).is_none() {
            assert forall|i: int| from <= i < entries.len() implies !is_metadata_entry(
                #[trigger] entries[i],
            ) by {
                if i > from {
                    assert(from + 1 <= i);
                }
            }
        }
    }
}

/// A container that has an entry list in which no entry is named
/// `TFLITE_METADATA` yields no payload: it fails as `MetadataEntryNotFound`,
/// with that error's message, whatever its buffers hold.
pub proof fn missing_entry_is_reported(model: ModelView)
    requires
        model.metadata matches Some(entries) && forall|i: int|
            0 <= i < entries.len() ==> !is_metadata_entry(#[trigger] entries[i]),
    ensures
        located(model) == Err::<Seq<u8>, LocateError>(LocateError::MetadataEntryNotFound),
        error_message(LocateError::MetadataEntryNotFound)
            == "model contains no `TFLITE_METADATA` entry"@,
{
    search_fails_iff_no_match(model.metadata->0, 0);
}

/// A container fails as `MetadataEntryNotFound` only where it has an entry
/// list in which no entry is named `TFLITE_METADATA`.
pub proof fn not_found_means_no_match(model: ModelView)
    requires
        located(model) == Err::<Seq<u8>, LocateError>(LocateError::MetadataEntryNotFound),
    ensures
        model.metadata matches Some(entries) && forall|i: int|
            0 <= i < entries.len() ==> !is_metadata_entry(#[trigger] entries[i]),
{
    match model.metadata {
        Some(entries) => search_fails_iff_no_match(entries, 0),
        None => {},
    }
}

/// How many of the first `n` fields of a list are present.
pub open spec fn present_upto(fields: Seq<(Seq<char>, Option<Seq<char>>)>, n: nat) -> nat
    decreases n,
{
    if n == 0 {
        0
    } else {
        present_upto(fields, (n - 1) as nat) + if fields[n - 1].1.is_some() {
            1nat
        } else {
            0nat
        }
    }
}

/// A list of optional fields gives one line for each field that is present
/// and none for one that is absent.
pub proof fn one_line_per_present_field(fields: Seq<(Seq<char>, Option<Seq<char>>)>, n: nat)
    ensures
        optional_lines_upto(fields, n).len() == present_upto(fields, n),
    decreases n,
{
    if n > 0 {
        one_line_per_present_field(fields, (n - 1) as nat);
    }
}

/// Of the first fields of a list no more are present than of more of them.
pub proof fn present_fields_grow(fields: Seq<(Seq<char>, Option<Seq<char>>)>, fewer: nat, more: nat)
    requires
        fewer <= more,
    ensures
        present_upto(fields, fewer) <= present_upto(fields, more),
    decreases more,
{
    if fewer < more {
        present_fields_grow(fields, fewer, (more - 1) as nat);
    }
}

/// A field that is present has its line, the label and then the value, at
/// the index that is the number of present fields before it. With
/// `one_line_per_present_field` and `present_fields_keep_their_order` this
/// says that each present field appears exactly once.
pub proof fn present_field_has_its_line(
    fields: Seq<(Seq<char>, Option<Seq<char>>)>,
    i: nat,
    n: nat,
)
    requires
        i < n,
        fields[i as int].1.is_some(),
    ensures
        present_upto(fields, i) < optional_lines_upto(fields, n).len(),
        optional_lines_upto(fields, n)[present_upto(fields, i) as int] == fields[i as int].0
            + fields[i as int].1->0,
    decreases n,
{
    one_line_per_present_field(fields, i);
    one_line_per_present_field(fields, (n - 1) as nat);
    if i + 1 < n {
        present_field_has_its_line(fields, i, (n - 1) as nat);
    } else {
        assert(indent_text(0) + fields[i as int].0 + fields[i as int].1->0 =~= fields[i as int].0
            + fields[i as int].1->0);
    }
}

/// Of two fields that are present, the line of the earlier one stands
/// before the line of the later one.
pub proof fn present_fields_keep_their_order(
    fields: Seq<(Seq<char>, Option<Seq<char>>)>,
    i: nat,
    j: nat,
)
    requires
        i < j,
        fields[i as int].1.is_some(),
    ensures
        present_upto(fields, i) < present_upto(fields, j),
{
    present_fields_grow(fields, i + 1, j);
}

/// The report of a tree begins with the lines of the optional fields of the
/// model: name, description, version, author, licence and minimum parser
/// version, in that order, one line for each that is present.
pub proof fn head_shows_present_fields(meta: ModelMetadataView, outcomes: Seq<DecodingView>)
    ensures
        head_fields(meta).len() == 6,
        head_lines(meta) == optional_lines(head_fields(meta)),
        head_lines(meta).len() == present_upto(head_fields(meta), 6),
        report_lines(meta, outcomes).subrange(0, head_lines(meta).len() as int) == head_lines(
            meta,
        ),
{
    one_line_per_present_field(head_fields(meta), 6);
    assert(report_lines(meta, outcomes).subrange(0, head_lines(meta).len() as int) =~= head_lines(
        meta,
    ));
}

/// Two containers that hold the same give the same payload or the same
/// error; two trees that hold the same hand out the same payloads to decode
/// and, with outcomes that hold the same, give the same report. What a value
/// holds is its view: where it is stored plays no part.
pub proof fn same_input_same_report(
    model_a: Model,
    model_b: Model,
    meta_a: ModelMetadata,
    meta_b: ModelMetadata,
    outcomes_a: Seq<Decoding>,
    outcomes_b: Seq<Decoding>,
)
    requires
        model_a.deep_view() == model_b.deep_view(),
        meta_a.deep_view() == meta_b.deep_view(),
        outcomes_a.len() == outcomes_b.len(),
        forall|i: int|
            0 <= i < outcomes_a.len() ==> (#[trigger] outcomes_a[i]).deep_view()
                == outcomes_b[i].deep_view(),
    ensures
        located(model_a.deep_view()) == located(model_b.deep_view()),
        detector_payloads_of(meta_a.deep_view()) == detector_payloads_of(meta_b.deep_view()),
        report_lines(meta_a.deep_view(), outcomes_view(outcomes_a)) == report_lines(
            meta_b.deep_view(),
            outcomes_view(outcomes_b),
        ),
{
    assert(outcomes_view(outcomes_a) =~= outcomes_view(outcomes_b));
}

/// What a list of outcomes holds.
pub open spec fn outcomes_view(outcomes: Seq<Decoding>) -> Seq<DecodingView> {
    Seq::new(outcomes.len(), |i: int| outcomes[i].deep_view())
}

/// A range of anchors is listed one line for each anchor, in order.
pub proof fn anchor_range_lists_each(
    indent: nat,
    anchors: Seq<FixedAnchorView>,
    from: nat,
    to: nat,
    k: nat,
)
    requires
        from <= to,
        k < to - from,
    ensures
        anchor_lines_range(indent, anchors, from, to).len() == to - from,
        anchor_lines_range(indent, anchors, from, to)[k as int] == anchor_line(
            indent,
            anchors[(from + k) as int],
        ),
    decreases to,
{
    anchor_range_length(indent, anchors, from, to);
    anchor_range_length(indent, anchors, from, (to - 1) as nat);
    if from + k + 1 < to {
        anchor_range_lists_each(indent, anchors, from, (to - 1) as nat, k);
    }
}

/// A range of anchors is listed in as many lines as it has anchors.
pub proof fn anchor_range_length(indent: nat, anchors: Seq<FixedAnchorView>, from: nat, to: nat)
    requires
        from <= to,
    ensures
        anchor_lines_range(indent, anchors, from, to).len() == to - from,
    decreases to,
{
    if from < to {
        anchor_range_length(indent, anchors, from, (to - 1) as nat);
    }
}

/// A list within the display budget is shown whole: the count, then every
/// anchor in order, and no line for omitted anchors.
pub proof fn short_list_is_shown_whole(indent: nat, anchors: Seq<FixedAnchorView>, k: nat)
    requires
        anchors.len() <= DISPLAY_BUDGET,
        k < anchors.len(),
    ensures
        anchors_lines(indent, anchors).len() == 1 + anchors.len(),
        anchors_lines(indent, anchors)[(1 + k) as int] == anchor_line(indent, anchors[k as int]),
{
    anchor_range_lists_each(indent, anchors, 0, anchors.len(), k);
}

/// A list over the display budget is shown in part: the count; the first
/// twelve anchors; one line that gives the length less the budget; then the
/// anchors from index `len - 13` to the last, thirteen of them.
pub proof fn long_list_is_shown_in_part(indent: nat, anchors: Seq<FixedAnchorView>, h: nat, t: nat)
    requires
        anchors.len() > DISPLAY_BUDGET,
        h < 12,
        t < 13,
    ensures
        anchors_lines(indent, anchors).len() == 27,
        anchors_lines(indent, anchors)[(1 + h) as int] == anchor_line(indent, anchors[h as int]),
        anchors_lines(indent, anchors)[13] == omitted_line(indent, anchors.len()),
        omitted_line(indent, anchors.len()) == indent_text(indent) + "    - ..."@ + decimal(
            (anchors.len() - 24) as nat,
        ) + " more"@,
        anchors_lines(indent, anchors)[(14 + t) as int] == anchor_line(
            indent,
            anchors[anchors.len() - 13 + t],
        ),
{
    let n = anchors.len();
    anchor_range_lists_each(indent, anchors, 0, 12, h);
    anchor_range_lists_each(indent, anchors, (n - 13) as nat, n, t);
}

/// An entry tagged `DETECTOR_METADATA` whose payload does not decode shows
/// the line of the failure directly after the line of its length, and
/// nothing else.
pub proof fn failed_decoding_is_shown(e: CustomMetadataView, message: Seq<char>)
    requires
        is_detector(e),
    ensures
        custom_entry_lines(e, DecodingView::Failed(message)) == custom_head_lines(e).push(
            "      decoding error: "@ + message,
        ),
        custom_entry_lines(e, DecodingView::Failed(message)).len() == 3,
        custom_entry_lines(e, DecodingView::Failed(message))[1] == "      "@ + decimal(
            payload(e).len(),
        ) + " bytes"@,
        custom_entry_lines(e, DecodingView::Failed(message))[2] == "      decoding error: "@
            + message,
{
    assert(custom_entry_lines(e, DecodingView::Failed(message)) =~= custom_head_lines(e).push(
        "      decoding error: "@ + message,
    ));
}

/// The lines of an entry of a list depend on the outcome for that entry
/// alone: where the outcome for one tagged entry is replaced, by a failure
/// or by anything else, every entry that takes another of the outcomes, or
/// none, shows the same lines as before.
pub proof fn other_entries_are_unchanged(
    entries: Seq<CustomMetadataView>,
    outcomes: Seq<DecodingView>,
    base: nat,
    replaced: nat,
    replacement: DecodingView,
    j: nat,
)
    requires
        base + replaced < outcomes.len(),
        j < entries.len(),
        is_detector(entries[j as int]) ==> detectors_upto(entries, j) != replaced && base
            + detectors_upto(entries, j) < outcomes.len(),
    ensures
        custom_entry_lines(
            entries[j as int],
            outcomes.update((base + replaced) as int, replacement)[(base + detectors_upto(
                entries,
                j,
            )) as int],
        ) == custom_entry_lines(
            entries[j as int],
            outcomes[(base + detectors_upto(entries, j)) as int],
        ),
{
}

/// A list of entries is reported entry by entry, in order: the lines of the
/// first `n + 1` entries are those of the first `n`, then those of entry
/// `n` with the outcome that is its own.
pub proof fn entries_are_reported_in_turn(
    entries: Seq<CustomMetadataView>,
    outcomes: Seq<DecodingView>,
    base: nat,
    n: nat,
)
    ensures
        custom_lines_upto(entries, outcomes, base, n + 1) == custom_lines_upto(
            entries,
            outcomes,
            base,
            n,
        ) + custom_entry_lines(
            entries[n as int],
            outcomes[(base + detectors_upto(entries, n)) as int],
        ),
{
}

/// An entry whose tag is not `DETECTOR_METADATA` shows the fixed line for
/// an unhandled format after the line of its length, whatever an outcome
/// holds.
pub proof fn unrecognized_tag_is_not_decoded(e: CustomMetadataView, outcome: DecodingView)
    requires
        !is_detector(e),
    ensures
        custom_entry_lines(e, outcome) == custom_head_lines(e).push(unhandled_line()),
        custom_entry_lines(e, outcome).len() == 3,
        custom_entry_lines(e, outcome)[2] == "      (unknown or unhandled format)"@,
{
    assert(custom_entry_lines(e, outcome) =~= custom_head_lines(e).push(unhandled_line()));
}

/// Every payload handed out for decoding is the payload of an entry tagged
/// `DETECTOR_METADATA`: payload `k` of a list belongs to the entry before
/// which `k` tagged entries stand. An entry with another tag hands out none.
pub proof fn payloads_belong_to_tagged_entries(
    entries: Seq<CustomMetadataView>,
    n: nat,
    k: nat,
) -> (j: nat)
    requires
        k < payloads_upto(entries, n).len(),
    ensures
        j < n,
        is_detector(entries[j as int]),
        detectors_upto(entries, j) == k,
        payloads_upto(entries, n)[k as int] == payload(entries[j as int]),
    decreases n,
{
    lemma_entry_payload_count(entries, n);
    lemma_entry_payload_count(entries, (n - 1) as nat);
    if k < payloads_upto(entries, (n - 1) as nat).len() {
        payloads_belong_to_tagged_entries(entries, (n - 1) as nat, k)
    } else {
        (n - 1) as nat
    }
}

/// The associated files shown under a subgraph are those of the model:
/// a subgraph with other files of its own, or with none, shows the same
/// lines.
pub proof fn subgraph_ignores_its_own_files(
    top_files: Option<Seq<AssociatedFileView>>,
    sub: SubGraphMetadataView,
    own_files: Option<Seq<AssociatedFileView>>,
    outcomes: Seq<DecodingView>,
    base: nat,
)
    ensures
        subgraph_lines(
            top_files,
            SubGraphMetadataView { associated_files: own_files, ..sub },
            outcomes,
            base,
        ) == subgraph_lines(top_files, sub, outcomes, base),
{
}

/// The associated files of the model stand under each subgraph directly
/// after its name and its description: their number, then the listing one
/// level in.
pub proof fn subgraph_shows_model_files(
    top_files: Option<Seq<AssociatedFileView>>,
    sub: SubGraphMetadataView,
    outcomes: Seq<DecodingView>,
    base: nat,
)
    ensures
        ({
            let start = subgraph_head_lines(sub).len();
            let section = subgraph_files_section(top_files);
            subgraph_lines(top_files, sub, outcomes, base).subrange(
                start as int,
                (start + section.len()) as int,
            ) == section
        }),
        top_files matches Some(files) ==> subgraph_files_section(top_files) == assoc_section(
            1,
            files,
        ),
        top_files is None ==> subgraph_files_section(top_files).len() == 0,
{
    let start = subgraph_head_lines(sub).len();
    let section = subgraph_files_section(top_files);
    assert(subgraph_lines(top_files, sub, outcomes, base).subrange(
        start as int,
        (start + section.len()) as int,
    ) =~= section);
}

} // verus!
