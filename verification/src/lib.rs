//! Batch PNG optimization planning and accounting.
//!
//! The crate resolves user configuration into an immutable optimization
//! plan, selects candidate file names, classifies per-file optimization
//! outcomes, and aggregates them into a batch summary. The actual pixel
//! work is done by an external optimization engine that a thin binary
//! front end drives; everything here is pure logic on plain values.

pub mod args;
pub mod chars;
pub mod config;
pub mod discover;
pub mod filter;
pub mod outcome;
pub mod plan;
pub mod summary;

pub use args::{resolve_worker_count, Args};
pub use config::Config;
pub use discover::{is_png_name, select_pngs};
pub use filter::{parse_filter, Filter};
pub use outcome::{classify_outcome, run_batch, EngineReport, FileOutcome, OutcomeStatus, Stats};
pub use plan::{build_options, unknown_filters, Deflater, Plan};
pub use summary::{summarize, BatchSummary};
