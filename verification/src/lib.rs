//! Reports the metadata that a compiled model carries, as lines of text.
//!
//! A model file is a container of named metadata entries and raw buffers.
//! The buffer of the entry named `TFLITE_METADATA` holds the metadata tree:
//! the fields of the model, its associated files and its subgraphs, each
//! with tensors, process units, tensor groups and custom entries. A custom
//! entry tagged `DETECTOR_METADATA` holds, in a format of its own, the
//! options of an object detector.
//!
//! Reading the formats is left to the caller. The library takes what was
//! read as plain values, with the byte vectors of the file as they are,
//! decides and writes:
//!
//! 1. `container::locate_metadata` finds the payload of the metadata tree in
//!    the container, or says why there is none;
//! 2. `metadata::detector_payloads` hands out the payloads that are to be
//!    decoded as detector options, in the order of the report;
//! 3. `metadata::render_report` takes the tree and what decoding each of
//!    those payloads gave, and gives the report.
//!
//! Every function states what it gives over the views of its arguments;
//! `laws` holds what follows for every container, tree and report.

pub mod blob;
pub mod container;
pub mod custom;
pub mod detector;
pub mod dump;
pub mod files;
pub mod laws;
pub mod metadata;
pub mod process;
pub mod subgraph;
pub mod tensor;
pub mod text;
