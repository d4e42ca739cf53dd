//! Client/server plumbing around a resident translation engine: the text
//! segmenter that prepares translation units, the naming of the local socket
//! endpoint, and the shape checks of the translate exchange.

pub mod protocol;
pub mod segment;
pub mod socket;

pub use segment::prepare_prompts;

