//! Side effects of tag mutations: the per-field change trail.

pub mod history_writer;

pub use history_writer::TagHistoryWriter;
