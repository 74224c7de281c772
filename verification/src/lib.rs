//! Client-side building blocks for the Universal Chess Interface (UCI)
//! protocol: fixed-capacity move buffers, the `info`-line parser that decodes
//! an engine's streamed analysis into a structured record, and the command
//! encoder and dispatch decisions used to drive an engine process.

pub mod analysis;
pub mod buffer;
pub mod numbers;
pub mod tokens;
pub mod uciengine;
