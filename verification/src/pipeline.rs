//! The dispatcher: tells the container of the source by its first bytes and
//! hands the source to the transcoder that it belongs to.

use vstd::prelude::*;
use std::time::Duration;
use crate::error::{DecodeError, ErrorKind, PipelineError};
use crate::handler::{gif_outcome, handle_gif, handle_image, image_outcome, HandleResponse};
use crate::query::Query;
use crate::raster::{has_known_signature, is_sequence_signature, sniff_sequence};

verus! {

/// Response from a pipeline.
#[derive(Debug)]
pub struct PipelineResponse {
    /// A byte vector containing the encoded media.
    pub bytes: Vec<u8>,
    /// The MIME type of the encoded media.
    pub mime: &'static str,
    /// Execution time.
    pub execution_time: Duration,
}

/// Whether `outcome` is what the pipeline comes to on the bytes of a
/// source: a decode error where the bytes begin with no known signature,
/// what `handle_gif` comes to where they begin with the signature of a
/// frame sequence, and what the still-image transcoder comes to on any
/// other container. Names and extensions play no part.
pub open spec fn query_outcome(bytes: Seq<u8>, query: Query, outcome: Result<Seq<u8>, ErrorKind>) -> bool {
    if !has_known_signature(bytes) {
        outcome == Err::<Seq<u8>, ErrorKind>(ErrorKind::Decode)
    } else if is_sequence_signature(bytes) {
        gif_outcome(bytes, query, outcome)
    } else {
        image_outcome(bytes, query, outcome)
    }
}

/// Tells from the first bytes of a source whether it is a frame sequence.
/// Fails with a decode error where the bytes begin with no known signature.
pub fn sniff(bytes: &[u8]) -> (r: Result<bool, PipelineError>)
    ensures
        match r {
            Ok(sequence) => has_known_signature(bytes@) && sequence == is_sequence_signature(
                bytes@,
            ),
            Err(e) => !has_known_signature(bytes@) && e.kind() == ErrorKind::Decode,
        },
{
    match sniff_sequence(bytes) {
        Ok(sequence) => Ok(sequence),
        Err(e) => Err(PipelineError::Decode(DecodeError::Still(e))),
    }
}

/// Handle a `Query`: transcodes the source bytes as the query asks. The
/// MIME type of the response follows from the requested encoding alone, and
/// the execution time is that of the transcoder.
pub fn handle_query(bytes: Vec<u8>, query: Query) -> (r: Result<PipelineResponse, PipelineError>)
    ensures
        query_outcome(
            bytes@,
            query,
            match r {
                Ok(response) => Ok(response.bytes@),
                Err(e) => Err(e.kind()),
            },
        ),
        r is Ok ==> r->Ok_0.mime@ == query.encoding.mime_text(),
{
    let sequence: bool = match sniff(bytes.as_slice()) {
        Ok(sequence) => sequence,
        Err(e) => {
            return Err(e);
        },
    };
    let mime: &'static str = query.encoding.mime_type();
    let handled: Result<HandleResponse, PipelineError> = if sequence {
        handle_gif(bytes, query)
    } else {
        handle_image(bytes, query)
    };
    match handled {
        Ok(response) => Ok(
            PipelineResponse { bytes: response.bytes, mime, execution_time: response.execution_time },
        ),
        Err(e) => Err(e),
    }
}

} // verus!
