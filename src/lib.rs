//! Reorders the pages of documents scanned double-sided on a single-sided
//! scanner, and tracks the progress of a batch of such jobs.
//!
//! The scanner yields all front sides first, then all back sides in reverse
//! physical order. This library uses that reversed-back policy: output
//! position `2*i` takes input page `i`, output position `2*i+1` takes input
//! page `N-1-i`.

pub mod batch;
pub mod document;
pub mod error;
pub mod path;
pub mod reorder;
pub mod text;

pub use batch::{BatchState, SUMMARY_LIFETIME_MS};
pub use document::shuffle_document;
pub use error::JobError;
pub use path::{is_document_extension, output_file_name, plan_job};
pub use reorder::{reorder, reorder_plan};
pub use text::{decimal_string, drop_hint, progress_message, summary_message};
