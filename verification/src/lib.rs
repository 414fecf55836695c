//! Control protocol, parameter model and frame scheduling of a per-sample
//! spectral denoiser.
//!
//! Every sample, gain and coefficient is carried as the bit pattern of a
//! single-precision number, so that the state the audio callback owns can be
//! described exactly: which fields a control message changes, when the
//! sliding windows are cleared, which sample feeds which output slot.
pub mod text;
pub mod settings;
pub mod constants;
pub mod types;
pub mod sdft;
pub mod messages;
pub mod render;
pub mod mailbox;
pub mod oscillator;
