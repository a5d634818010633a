//! Chart layout engine: nice-number scales, tick generation, rectangle
//! partitioning, and data-to-pixel mapping for two-dimensional plots.
//!
//! Data values are exact decimal fixed-point numbers held in millionths
//! (micro-units), so every scale bound and tick lands on a round decimal
//! number rather than a floating-point artifact.

pub mod axis;
pub mod chart;
pub mod decimal;
pub mod domain;
pub mod num;
pub mod path;
pub mod plot;
pub mod point;
pub mod rect;
pub mod scale;
pub mod text;
pub mod title;

pub use chart::AspectRatio;
pub use chart::Chart;
pub use domain::Domain;
pub use plot::Plot;
pub use point::Point;
pub use rect::Edge;
pub use rect::Rect;
pub use title::Title;
