//! The root container of a model, as far as the metadata needs it: the named
//! metadata entries and the pool of buffers, and how the payload of the
//! metadata tree is found in them.

use vstd::prelude::*;
use vstd::string::StringExecFns;
use crate::blob::{bytes_of, optional_bytes};

verus! {

/// A named metadata entry: the name, and the index of the buffer that holds
/// the payload.
#[derive(Clone, Copy, Debug)]
pub struct MetadataEntry<'a> {
    pub name: Option<&'a str>,
    pub buffer: u32,
}

/// A raw buffer of the pool; some hold no data.
#[derive(Clone, Copy, Debug)]
pub struct Buffer<'a> {
    pub data: Option<flatbuffers::Vector<'a, u8>>,
}

/// The root container. Its names and its buffers are borrowed from the bytes
/// of the container.
#[derive(Clone, Debug)]
pub struct Model<'a> {
    pub metadata: Option<Vec<MetadataEntry<'a>>>,
    pub buffers: Option<Vec<Buffer<'a>>>,
}

/// Why a container yields no metadata payload.
#[derive(Clone, Copy, Debug, PartialEq, Eq)]
pub enum LocateError {
    /// The container has no list of metadata entries.
    NoMetadataEntries,
    /// No entry of the list is named `TFLITE_METADATA`.
    MetadataEntryNotFound,
    /// The container has no pool of buffers.
    NoBufferList,
}

/// What a metadata entry holds.
pub struct MetadataEntryView {
    pub name: Option<Seq<char>>,
    pub buffer: u32,
}

/// What a buffer holds.
pub struct BufferView {
    pub data: Option<Seq<u8>>,
}

/// What a container holds.
pub struct ModelView {
    pub metadata: Option<Seq<MetadataEntryView>>,
    pub buffers: Option<Seq<BufferView>>,
}

impl<'a> DeepView for MetadataEntry<'a> {
    type V = MetadataEntryView;

    open spec fn deep_view(&self) -> MetadataEntryView {
        MetadataEntryView { name: self.name.deep_view(), buffer: self.buffer }
    }
}

impl<'a> DeepView for Buffer<'a> {
    type V = BufferView;

    open spec fn deep_view(&self) -> BufferView {
        BufferView { data: optional_bytes(self.data) }
    }
}

impl<'a> DeepView for Model<'a> {
    type V = ModelView;

    open spec fn deep_view(&self) -> ModelView {
        ModelView { metadata: self.metadata.deep_view(), buffers: self.buffers.deep_view() }
    }
}

/// The name of the entry that holds the metadata tree.
pub open spec fn metadata_tag() -> Seq<char> {
    "TFLITE_METADATA"@
}

/// Whether an entry is the one that holds the metadata tree.
pub open spec fn is_metadata_entry(e: MetadataEntryView) -> bool {
    e.name == Some(metadata_tag())
}

/// The index of the first entry, from index `from` on, that holds the
/// metadata tree.
pub open spec fn first_metadata_entry(entries: Seq<MetadataEntryView>, from: nat) -> Option<nat>
    decreases entries.len() - from,
{
    if from >= entries.len() {
        None
    } else if is_metadata_entry(entries[from as int]) {
        Some(from)
    } else {
        first_metadata_entry(entries, from + 1)
    }
}

/// The payload at an index of the pool: the bytes of that buffer, and no
/// bytes where the index is out of range or the buffer holds no data.
pub open spec fn buffer_payload(buffers: Seq<BufferView>, index: nat) -> Seq<u8> {
    if index < buffers.len() {
        match buffers[index as int].data {
            Some(d) => d,
            None => Seq::empty(),
        }
    } else {
        Seq::empty()
    }
}

/// The payload of the metadata tree in a container, or why there is none.
/// The entry list is asked for first, then the entry, then the pool.
pub open spec fn located(model: ModelView) -> Result<Seq<u8>, LocateError> {
    match model.metadata {
        None => Err(LocateError::NoMetadataEntries),
        Some(entries) => match first_metadata_entry(entries, 0) {
            None => Err(LocateError::MetadataEntryNotFound),
            Some(i) => match model.buffers {
                None => Err(LocateError::NoBufferList),
                Some(buffers) => Ok(buffer_payload(buffers, entries[i as int].buffer as nat)),
            },
        },
    }
}

/// The message of an error.
pub open spec fn error_message(e: LocateError) -> Seq<char> {
    match e {
        LocateError::NoMetadataEntries => "model contains no metadata entries"@,
        LocateError::MetadataEntryNotFound => "model contains no `TFLITE_METADATA` entry"@,
        LocateError::NoBufferList => "model contains no buffer list"@,
    }
}

impl LocateError {
    /// The message of the error.
    pub fn message(&self) -> (out: String)
        ensures
            out@ == error_message(*self),
    {
        match self {
            LocateError::NoMetadataEntries => String::from_str(
                "model contains no metadata entries",
            ),
            LocateError::MetadataEntryNotFound => String::from_str(
                "model contains no `TFLITE_METADATA` entry",
            ),
            LocateError::NoBufferList => String::from_str("model contains no buffer list"),
        }
    }
}

/// Whether an entry is the one that holds the metadata tree.
pub fn is_metadata(e: &MetadataEntry) -> (named: bool)
    ensures
        named == is_metadata_entry(e.deep_view()),
{
    match e.name {
        Some(n) => {
            let name = String::from_str(n);
            let tag = String::from_str("TFLITE_METADATA");
            name == tag
        },
        None => false,
    }
}

/// The index of the first entry that holds the metadata tree.
pub fn find_metadata_entry(entries: &Vec<MetadataEntry>) -> (found: Option<usize>)
    ensures
        match found {
            Some(i) => i < entries@.len() && first_metadata_entry(entries.deep_view(), 0) == Some(
                i as nat,
            ),
            None => first_metadata_entry(entries.deep_view(), 0).is_none(),
        },
{
    let mut i: usize = 0;
    while i < entries.len()
        invariant
            i <= entries.len(),
            first_metadata_entry(entries.deep_view(), 0) == first_metadata_entry(
                entries.deep_view(),
                i as nat,
            ),
        decreases entries.len() - i,
    {
        assert(entries.deep_view()[i as int] == entries[i as int].deep_view());
        if is_metadata(&entries[i]) {
            return Some(i);
        }
        i = i + 1;
    }
    None
}

/// The payload at an index of the pool.
pub fn read_buffer<'a>(buffers: &Vec<Buffer<'a>>, index: u32) -> (bytes: &'a [u8])
    ensures
        bytes@ == buffer_payload(buffers.deep_view(), index as nat),
{
    let nothing: &'static [u8] = &[];
    assert(nothing@ =~= Seq::<u8>::empty());
    if (index as usize) < buffers.len() {
        assert(buffers.deep_view()[index as int] == buffers[index as int].deep_view());
        match &buffers[index as usize].data {
            Some(d) => bytes_of(d),
            None => nothing,
        }
    } else {
        nothing
    }
}

/// Finds the payload of the metadata tree in a container.
pub fn locate_metadata<'a>(model: &Model<'a>) -> (r: Result<&'a [u8], LocateError>)
    ensures
        match r {
            Ok(bytes) => located(model.deep_view()) == Ok::<Seq<u8>, LocateError>(bytes@),
            Err(e) => located(model.deep_view()) == Err::<Seq<u8>, LocateError>(e),
        },
{
    match &model.metadata {
        None => Err(LocateError::NoMetadataEntries),
        Some(entries) => match find_metadata_entry(entries) {
            None => Err(LocateError::MetadataEntryNotFound),
            Some(i) => match &model.buffers {
                None => Err(LocateError::NoBufferList),
                Some(buffers) => {
                    assert(entries.deep_view()[i as int] == entries[i as int].deep_view());
                    Ok(read_buffer(buffers, entries[i].buffer))
                },
            },
        },
    }
}

} // verus!
