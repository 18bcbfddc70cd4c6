//! Rasterization core of a Rutherford scattering simulation: position samples
//! streamed from independent trajectory workers are routed by worker id into
//! one RGB raster per initial configuration.

pub mod aggregator;
pub mod canvas;
pub mod laws;
pub mod raster;
