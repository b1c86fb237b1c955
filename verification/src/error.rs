//! The one error type that a parser hands to its host.

use vstd::prelude::*;
use crate::format::UnsupportedFormat;
use crate::frame::DecodeError;

verus! {

/// `re_chunk::ChunkError`: why the store refused a chunk, opaque here.
#[verifier::external_type_specification]
#[verifier::external_body]
pub struct ExChunkError(re_chunk::ChunkError);

/// `re_types::SerializationError`: why columns could not be serialized, opaque here.
#[verifier::external_type_specification]
#[verifier::external_body]
pub struct ExSerializationError(re_types::SerializationError);

/// Why the output batches could not be put together.
#[allow(inconsistent_fields)]
#[derive(Debug)]
pub enum BatchError {
    /// A timeline holds another number of times than the batches have rows.
    TimelineLength { timeline: String, times: usize, rows: usize },
    /// The image columns could not be serialized.
    Serialization { cause: re_types::SerializationError },
    /// The chunk's own checks refused the columns.
    Chunk { cause: re_chunk::ChunkError },
}

/// What can go wrong while a channel is parsed. The host decides whether to
/// skip the message, retry or give the channel up.
#[derive(Debug)]
pub enum PluginError {
    /// The payload is truncated or malformed.
    Decode(DecodeError),
    /// The frame's encoding is not in the table.
    UnsupportedFormat(UnsupportedFormat),
    /// The accumulated state does not make well-formed batches.
    BatchConstruction(BatchError),
}

} // verus!
