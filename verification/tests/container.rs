use metadump::container::{
    find_metadata_entry, is_metadata, locate_metadata, read_buffer, Buffer, LocateError,
    MetadataEntry, Model,
};

fn entry(name: Option<&'static str>, buffer: u32) -> MetadataEntry<'static> {
    MetadataEntry { name, buffer }
}

/// A byte vector as a model file stores it: an offset to the vector, the
/// number of bytes, the bytes.
fn blob(data: &[u8]) -> flatbuffers::Vector<'static, u8> {
    let mut raw = vec![4u8, 0, 0, 0];
    raw.extend_from_slice(&(data.len() as u32).to_le_bytes());
    raw.extend_from_slice(data);
    let raw: &'static [u8] = Box::leak(raw.into_boxed_slice());
    flatbuffers::root::<flatbuffers::Vector<u8>>(raw).unwrap()
}

fn pool() -> Vec<Buffer<'static>> {
    vec![
        Buffer { data: None },
        Buffer { data: Some(blob(&[1, 2, 3])) },
        Buffer { data: Some(blob(&[])) },
        Buffer { data: Some(blob(&[9, 8])) },
    ]
}

const NOTHING: &[u8] = &[];

#[test]
fn container_without_an_entry_list() {
    let model = Model { metadata: None, buffers: Some(pool()) };
    assert_eq!(locate_metadata(&model), Err(LocateError::NoMetadataEntries));
    let model = Model { metadata: None, buffers: None };
    assert_eq!(locate_metadata(&model), Err(LocateError::NoMetadataEntries));
}

#[test]
fn container_without_the_entry() {
    let model = Model {
        metadata: Some(vec![entry(Some("min_runtime_version"), 1), entry(None, 3)]),
        buffers: Some(pool()),
    };
    assert_eq!(locate_metadata(&model), Err(LocateError::MetadataEntryNotFound));
    let model = Model { metadata: Some(vec![]), buffers: Some(pool()) };
    assert_eq!(locate_metadata(&model), Err(LocateError::MetadataEntryNotFound));
}

#[test]
fn missing_entry_comes_before_missing_pool() {
    let model = Model { metadata: Some(vec![entry(Some("other"), 1)]), buffers: None };
    assert_eq!(locate_metadata(&model), Err(LocateError::MetadataEntryNotFound));
}

#[test]
fn container_without_a_pool() {
    let model = Model { metadata: Some(vec![entry(Some("TFLITE_METADATA"), 1)]), buffers: None };
    assert_eq!(locate_metadata(&model), Err(LocateError::NoBufferList));
}

#[test]
fn payload_is_the_buffer_of_the_entry() {
    let model = Model {
        metadata: Some(vec![entry(Some("other"), 3), entry(Some("TFLITE_METADATA"), 1)]),
        buffers: Some(pool()),
    };
    assert_eq!(locate_metadata(&model), Ok(&[1u8, 2, 3][..]));
}

#[test]
fn first_entry_with_the_name_is_taken() {
    let model = Model {
        metadata: Some(vec![
            entry(Some("TFLITE_METADATA"), 3),
            entry(Some("TFLITE_METADATA"), 1),
        ]),
        buffers: Some(pool()),
    };
    assert_eq!(locate_metadata(&model), Ok(&[9u8, 8][..]));
}

#[test]
fn index_out_of_range_gives_no_bytes() {
    let model = Model {
        metadata: Some(vec![entry(Some("TFLITE_METADATA"), 4)]),
        buffers: Some(pool()),
    };
    assert_eq!(locate_metadata(&model), Ok(NOTHING));
    let model = Model {
        metadata: Some(vec![entry(Some("TFLITE_METADATA"), u32::MAX)]),
        buffers: Some(vec![]),
    };
    assert_eq!(locate_metadata(&model), Ok(NOTHING));
}

#[test]
fn buffer_without_data_gives_no_bytes() {
    let model = Model {
        metadata: Some(vec![entry(Some("TFLITE_METADATA"), 0)]),
        buffers: Some(pool()),
    };
    assert_eq!(locate_metadata(&model), Ok(NOTHING));
}

#[test]
fn name_must_match_exactly() {
    assert!(is_metadata(&entry(Some("TFLITE_METADATA"), 0)));
    assert!(!is_metadata(&entry(Some("tflite_metadata"), 0)));
    assert!(!is_metadata(&entry(Some("TFLITE_METADATA "), 0)));
    assert!(!is_metadata(&entry(Some(""), 0)));
    assert!(!is_metadata(&entry(None, 0)));
}

#[test]
fn search_gives_the_first_index() {
    let entries = vec![entry(None, 0), entry(Some("TFLITE_METADATA"), 0), entry(Some("TFLITE_METADATA"), 0)];
    assert_eq!(find_metadata_entry(&entries), Some(1));
    assert_eq!(find_metadata_entry(&vec![entry(None, 0)]), None);
    assert_eq!(find_metadata_entry(&vec![]), None);
}

#[test]
fn buffers_are_read_by_index() {
    assert_eq!(read_buffer(&pool(), 3), &[9u8, 8][..]);
    assert_eq!(read_buffer(&pool(), 2), NOTHING);
    assert_eq!(read_buffer(&pool(), 0), NOTHING);
    assert_eq!(read_buffer(&pool(), 17), NOTHING);
}

#[test]
fn errors_have_distinct_messages() {
    assert_eq!(LocateError::NoMetadataEntries.message(), "model contains no metadata entries");
    assert_eq!(
        LocateError::MetadataEntryNotFound.message(),
        "model contains no `TFLITE_METADATA` entry"
    );
    assert_eq!(LocateError::NoBufferList.message(), "model contains no buffer list");
}
