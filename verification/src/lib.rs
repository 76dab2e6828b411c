//! Bookkeeping core of a Kerr black-hole ray tracer.
//!
//! A ray is traced backward from each pixel of a pinhole camera to a thin
//! accretion disc around a spinning black hole. The numerics of the trace
//! live outside this crate; what lives here is everything that is decided
//! about a ray and everything that is done with its results: branch signs at
//! turning points, turn counters, termination, the collection of disc
//! crossings by order, the packing of transfer maps, and the files and charts
//! made of them. Numbers are carried as IEEE-754 bit patterns, which are
//! compared, classified and rounded here but never computed with.
pub mod aggregate;
pub mod artifacts;
pub mod charts;
pub mod cli;
pub mod geodesic;
pub mod guards;
pub mod high_precision;
pub mod ieee;
pub mod integration;
pub mod manifest;
pub mod overlay;
pub mod render;
pub mod stats;
pub mod text;
pub mod transfer_maps;
pub mod types;

pub use geodesic::{GeodesicResult, PhotonState};
pub use high_precision::DataStatistics;
pub use ieee::{Double, Single};
pub use integration::integrate_geodesic;
pub use manifest::Manifest;
pub use render::render_transfer_maps;
pub use transfer_maps::{HighPrecisionData, PositionData, TransferMaps};
pub use types::{BlackHole, BlackHoleType, Camera, OrbitDirection, RenderConfig};
