//! Bulk extraction of outline and metric data from font files: drawing
//! command tallies, design-unit outline points, units per em, weight classes,
//! outline storage formats and codepoint coverage, each over an ordered batch
//! of fonts.

pub mod coverage;
pub mod engine;
pub mod error;
pub mod metrics;
pub mod outline;
pub mod pens;
