//! Decision engine for spectral objects: band safety, hygiene, catalog
//! promotion, excavation depth and interactive routing, with the catalog
//! that keeps the objects.
//!
//! Every scalar score is a fixed-point number counted in millionths, so that
//! the closed unit interval is the integer range from zero to `score::SCALE`.
//! Quotients are rounded down. A raw scalar comes in as a `score::Reading`,
//! which also stands for values that are not finite.

pub mod score;
pub mod governance;
pub mod excavation_depth;
pub mod spectral_vision;
pub mod xr_grid_core;
pub mod spectral_reality_model;
pub mod excavator;
