//! Conversion of a note document into an export format chosen by the output
//! file's extension.
//!
//! The document engine and the file system are driven from outside this
//! library; the library decides, step by step, what is done next and how the
//! conversion ends.
pub mod conversion;
pub mod export;

pub use conversion::{Action, Conversion, Event, Phase};
pub use export::{ConvertError, ExportFormat, export_title, select_format};
