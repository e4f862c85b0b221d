//! A small supervised-learning engine for linear models trained by gradient
//! descent.
//!
//! The library holds the engine's logic, generic over the element type of
//! its matrices: the option kinds a run is configured with and how unset
//! options resolve to defaults; a matrix container that builds the
//! bias-augmented input and slices row batches from it; how one epoch cuts
//! the rows into batches; which shapes each stage of a step accepts; the
//! weight store; and the training run itself, which sequences preparation,
//! initialization and epochs. The arithmetic of a step (losses, gradients,
//! penalties, normalization, products) is supplied by the caller as
//! closures, so the contracts here speak of what each step is handed and in
//! which order, not of the numbers it computes.
pub mod batching;
pub mod config;
pub mod error;
pub mod input;
pub mod kinds;
pub mod matrix;
pub mod normalization;
pub mod shape;
pub mod trainer;
pub mod weight;
