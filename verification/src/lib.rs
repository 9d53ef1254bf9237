//! Cataloguing of astrophotography directories: discovery of raw frames and
//! their previews, header decoding, session grouping and the bookkeeping of a
//! bulk import.

pub mod cache;
pub mod catalog;
pub mod collect;
pub mod count;
pub mod course;
pub mod decimal;
pub mod dedup;
pub mod discovery;
pub mod header;
pub mod metadata;
pub mod pairs;
pub mod preview;
pub mod process;
pub mod progress;
pub mod records;
pub mod scan;
pub mod session;
pub mod text;
pub mod walker;
