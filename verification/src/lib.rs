//! A procedural 2D ring mesh (a "radial bar") whose filled angular extent
//! reflects a bounded numeric value, such as health or progress.
//!
//! The ring is an annulus subdivided into `segment_count` angular segments.
//! Each segment contributes one outer and one inner vertex and two triangles;
//! trimming whole segments from the tail of the triangle list makes the bar
//! show a fraction `value / max_value` of the full ring, at segment
//! granularity.
//!
//! The [`ring`] module holds the mathematical model of the geometry together
//! with the laws proved about it; the [`bar`] module holds the stateful
//! [`bar::RadialBar2D`] component and the executable triangulation.
//!
//! Positions of the vertices are described exactly (which radius, which
//! fraction of a full turn) rather than as floating-point coordinates; a host
//! renderer evaluates them to coordinates when it builds its vertex buffer.

pub mod bar;
pub mod ring;

pub use crate::bar::InvalidConfiguration;
pub use crate::bar::RadialBar2D;
pub use crate::bar::MAX_SEGMENT_COUNT;
pub use crate::ring::RingVertex;
pub use crate::ring::Triangle;
