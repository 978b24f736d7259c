//! An in-memory declarative description of a two-dimensional chart.
//!
//! A columnar data source, visual marks, axes and interactive tools are
//! assembled through mutable builders, frozen and checked by a one-way
//! validation step, and flattened into a deduplicated, identity-tagged
//! reference graph in the external wire format.

pub mod document;
pub mod json;
pub mod model;
pub mod plot;

pub use document::{to_bokeh_json, Document, ValidatedDocument};
pub use model::{
    BasicTickFormatter, BasicTicker, Circle, ColumnDataSource, Glyph, Layout, Position, ToBokeh,
    Tool,
};
pub use plot::{Plot, ValidatedPlot, ValidationError};
