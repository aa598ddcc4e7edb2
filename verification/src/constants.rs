use vstd::prelude::*;

verus! {

/// Width of the window the engine starts with, in pixels.
pub const DEFAULT_WINDOW_WIDTH: u32 = 800;

/// Height of the window the engine starts with, in pixels.
pub const DEFAULT_WINDOW_HEIGHT: u32 = 600;

/// Number of mono samples in one audio snapshot, and the size of the FFT.
pub const SAMPLE_SIZE: usize = 512;

/// Number of slots in the particle pool.
pub const NUM_PARTICLES: u32 = 1000;

/// Number of pool slots that one compute workgroup advances.
pub const COMPUTE_WORKGROUP_SIZE: u32 = 64;

/// Directory the effect gallery is loaded from.
pub const SHADER_DIR: &'static str = "shaders";

/// File extension of a shader program.
pub const SHADER_EXTENSION: &'static str = "wgsl";

/// File of the shader that draws the particle overlay; never an effect.
pub const PARTICLE_RENDER_SHADER: &'static str = "particle_render.wgsl";

/// File of the shader that advances the particle pool; never an effect.
pub const COMPUTE_PARTICLES_SHADER: &'static str = "compute_particles.wgsl";

/// Title of the window.
pub const WINDOW_TITLE: &'static str = "Music Visualizer";

/// One, in the thousandths in which the engine holds its control values.
pub const MILLI: u32 = 1000;

/// Intensity the engine starts with, in thousandths.
pub const DEFAULT_INTENSITY: u32 = 1000;

/// Highest intensity, in thousandths.
pub const MAX_INTENSITY: u32 = 10000;

/// Change of intensity per key press, in thousandths.
pub const INTENSITY_STEP: u32 = 100;

/// Number of lowest FFT bins whose mean is the bass energy. With 512
/// samples at 44.1 kHz a bin is about 86 Hz wide, so six bins reach up to
/// roughly 500 Hz.
pub const BASS_BIN_COUNT: usize = 6;

/// Factor applied to normalized magnitudes before intensity and gain.
pub const SPECTRUM_BOOST: u32 = 50;

/// Opacity of the see-through window, out of 255.
pub const DEFAULT_TRANSPARENCY: u8 = 150;

/// Change of opacity per step, out of 255.
pub const TRANSPARENCY_STEP: u8 = 25;

/// Length of the handoff between two effects, in microseconds.
pub const TRANSITION_MICROS: u64 = 500000;

} // verus!
