//! Turning one channel of raw sensor image messages into two row-aligned
//! columnar batches: the pixel buffers with their formats, and the per-frame
//! metadata, both on the channel's timelines.
//!
//! - [`format`]: the pixel-format descriptor and the table of encodings.
//! - [`frame`]: decoding one payload into a frame record.
//! - [`context`]: the timelines that the rows are aligned to.
//! - [`column`]: the builders of the metadata columns.
//! - [`parser`]: the parser of one channel, from the first message to the batches.
//! - [`emit`]: from the batches to the store's chunks.
//! - [`plugin`]: the factory that a registry asks for a parser.
//! - [`error`]: what can go wrong.
//! - [`text`]: comparing text.

pub mod column;
pub mod context;
pub mod emit;
pub mod error;
pub mod format;
pub mod frame;
pub mod parser;
pub mod plugin;
pub mod text;

pub use crate::context::ParserContext;
pub use crate::error::PluginError;
pub use crate::format::decode_image_format;
pub use crate::parser::ImageMessageParser;
pub use crate::plugin::ImageSchemaPlugin;
