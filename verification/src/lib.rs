//! A small GPU-renderer core that draws a procedurally synthesized periodic
//! waveform as a line strip.
//!
//! The crate models the hard core of such a renderer as plain verified data
//! and state machines: additive waveform synthesis scheduling, a one-shot
//! barrier-guarded staging upload into a device-local vertex buffer, a fixed
//! render-pass / graphics-pipeline description, and command buffers baked
//! once per back-buffer image and replayed every frame.  Floating-point
//! amplitude evaluation and the engine's I/O surface live outside the
//! verified core and drive it through plain values.

pub mod commands;
pub mod game;
pub mod pipeline;
pub mod resource;
pub mod synth;
pub mod upload;

pub use game::Game;
pub use pipeline::GraphShaderVertexSpecConstants;
pub use resource::DeviceModel;
pub use resource::ResourceUsageState;
pub use synth::SampleBuffer;
pub use synth::SynthStep;
pub use synth::WaveformSynthesizer;
pub use upload::InitError;
pub use upload::StandardMesh;
