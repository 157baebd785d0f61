//! Decoder for the binary "stagedef" stage-definition container used by the
//! Monkey Ball game series.
//!
//! The decoder turns a flat byte buffer into a typed object graph: a file
//! header is resolved at fixed offsets, global object lists are read through
//! count/offset pairs, and collision headers re-expose either aliased slices
//! of the global lists or independently embedded lists. Every step of the
//! decode is specified against pure functions over the byte sequence and
//! proved to match them.

pub mod bytes;
pub mod common;
pub mod instance;
pub mod laws;
pub mod objects;
pub mod parser;
pub mod stagedef;
pub mod viewer;

pub use common::DecodeError;
pub use common::Endianness;
pub use common::Game;
pub use parser::decode;
pub use stagedef::StageDef;
