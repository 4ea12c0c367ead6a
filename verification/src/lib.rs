//! Core of a binary-distillation column monitor: fixed-point
//! vapor-liquid-equilibrium calculations, batch mass estimation, data
//! providers for live acquisition and replay, and the streaming controller
//! that drives them.

pub mod calculations;
pub mod data;
pub mod errors;
pub mod estimator;
pub mod live;
pub mod math;
pub mod playback;
pub mod provider;
pub mod settings;
pub mod transmission;
