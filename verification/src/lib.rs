//! Host-side logic of the PS2 recompiler runtime's SDL3 backend: pad mapping,
//! audio stream sizing, memory-card addressing and frame-resource bookkeeping.
//! The SDL calls and file I/O themselves live in the application crate; this
//! library decides what they are asked to do and what their results mean.

pub mod audio;
pub mod card;
pub mod frame;
pub mod host;
pub mod pad;
