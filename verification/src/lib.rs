//! A Base64 slash-command library: a heuristic classifier that guesses
//! whether text is Base64, a codec wrapper that encodes text to Base64 and
//! decodes it back with three distinct failure kinds, and a command runner
//! that joins argument tokens and dispatches to the codec.

pub mod classifier;
pub mod codec;
pub mod command;
