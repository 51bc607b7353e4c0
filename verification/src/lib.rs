//! Core of a real-time audio spectrum visualizer that drives an addressable
//! LED display over a serial link.
//!
//! The pipeline absorbs variable-length audio callback chunks into a rolling
//! sample window, reduces the magnitude spectrum of each full window into a
//! small number of perceptually scaled output bins, frames the bins as a
//! checksummed wire message, and decides when frames may be sent over the
//! serial link, entering a degraded mode while the link is down.
//!
//! Sample ingestion, spectral reduction, framing and the send/retry decisions
//! are verified here. The surrounding program owns everything the pipeline
//! treats as an external collaborator: audio capture, the floating-point
//! transform of a window, and the serial device itself.

pub mod analyzer;
pub mod config;
pub mod frame;
pub mod link;
pub mod orchestrator;
pub mod window;
