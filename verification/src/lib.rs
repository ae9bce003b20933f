//! Cost-aware orchestration of a one-shot AI analysis of a source tree.
//!
//! The library decides; it does no input or output of its own.
//!
//! - [`config`]: the stored configuration of the analysis service, its
//!   defaults, and what loading and saving a configuration file come to.
//! - [`cost`]: the estimate of what one analysis costs, and how it is shown.
//! - [`pipeline`]: the run itself as a state machine, from flattening the
//!   project to persisting the report.
//! - [`cli`]: the options of the command line and the command they select.
//! - [`text`]: comparison and decimal rendering of texts.

pub mod cli;
pub mod config;
pub mod cost;
pub mod pipeline;
pub mod text;
