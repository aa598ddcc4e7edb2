//! The core of a real-time, audio-reactive visualizer, verified with Verus.
//!
//! The engine takes in a live audio stream, derives a smoothed spectrum and
//! a bass energy from it, and drives a particle simulation and a gallery of
//! shader effects on the GPU. This crate holds the engine's rules: how an
//! input stream is negotiated and mixed down to mono ([`audio`]), how the
//! spectrum is scaled and smoothed ([`spectrum`]), how the gallery is read
//! and classified ([`plugin`]), how the active effect is chosen and handed
//! over ([`scheduler`]), how the particle pool is laid out and dispatched
//! ([`particles`]), what each frame is to do ([`app`]) and after it
//! ([`gpu`]), and which input device the user has picked ([`selection`]).
//! Devices, windows and the Fourier transform stay with the host program,
//! which hands the engine plain values and acts on what it returns.
//!
//! Fractions such as intensity, gain and colors are held in thousandths,
//! magnitudes in billionths and times in microseconds, so that every rule
//! is stated and proved in exact arithmetic.
//!
//! The crate also holds the text handling of a companion tool that explains
//! system services ([`service_info`]), with the JSON reading it relies on
//! ([`json`]).

pub mod app;
pub mod audio;
pub mod constants;
pub mod error;
pub mod gpu;
pub mod json;
pub mod particles;
pub mod plugin;
pub mod scheduler;
pub mod selection;
pub mod service_info;
pub mod settings;
pub mod spectrum;
pub mod text;
