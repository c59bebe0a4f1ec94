//! A batch driver for a streaming block codec, in the style of the classic
//! Unix compression tools: suffix-based naming, prompt-guarded overwriting,
//! stdin/stdout special-casing, and a run-wide exit status.

pub mod codec;
pub mod guard;
pub mod names;
pub mod task;
