//! The two transcoders: one for a still image, one for a sequence of
//! frames.

use vstd::prelude::*;
use std::time::Duration;
use crate::animation::{
    append_frame, canvas, canvas_size, finish_sequence, header, next_frame, open_stream,
    open_writer, pending, repeat_forever, sequence_bytes, sequence_of, written, FrameStream,
    SequenceWriter,
};
use crate::clock::{start_clock, time_since};
use crate::dimensions::{lemma_box_resolves, resolve, resolved};
use crate::encoder::{encode_image, encode_refusal};
use crate::encoding::Encoding;
use crate::error::{CodecFailure, DecodeError, EncodeError, ErrorKind, PipelineError, ResampleError};
use crate::frame::{count_samples, sample_count, DecodedFrame, FrameView, PixelLayout};
use crate::limits::{LOSSY_QUALITY, MAX_SEQUENCE_SIDE, PALETTE_SPEED};
use crate::mode::ResizeMode;
use crate::query::Query;
use crate::raster::{decode_still, still_bytes, still_frame};
use crate::transform::{check_sizes, refusal, resampled, resize_dynimage, size_refusal};

verus! {

/// Response from a handler.
#[derive(Debug)]
pub struct HandleResponse {
    /// How long the handling took.
    pub execution_time: Duration,
    /// Returned bytes, encoded in the specified format.
    pub bytes: Vec<u8>,
}

/// What a handler gave, without the time it took and the cause of an error.
pub open spec fn outcome_of(r: Result<HandleResponse, PipelineError>) -> Result<Seq<u8>, ErrorKind> {
    match r {
        Ok(response) => Ok(response.bytes@),
        Err(e) => Err(e.kind()),
    }
}

/// The frame that a request turns a still frame into, before it is
/// encoded.
pub open spec fn still_target(frame: FrameView, query: Query) -> FrameView {
    resampled(
        frame,
        query.resize_mode(),
        query.target_box(frame.width, frame.height).0,
        query.target_box(frame.width, frame.height).1,
    )
}

/// Why a still frame is not transcoded, `None` where it is: the resampler's
/// reason, or else the encoder's.
pub open spec fn still_refusal(frame: FrameView, query: Query) -> Option<ErrorKind> {
    match refusal(
        frame,
        query.resize_mode(),
        query.target_box(frame.width, frame.height).0,
        query.target_box(frame.width, frame.height).1,
    ) {
        Some(e) => Some(e.kind()),
        None => encode_refusal(still_target(frame, query), query.encoding),
    }
}

/// Whether `outcome` is what transcoding a still frame comes to. The bytes
/// of JPEG, PNG and GIF are those that the encoder gives for the resampled
/// frame; of the bytes of WebP nothing is said.
pub open spec fn still_outcome(frame: FrameView, query: Query, outcome: Result<Seq<u8>, ErrorKind>) -> bool {
    match outcome {
        Ok(bytes) => still_refusal(frame, query) is None && (query.encoding != Encoding::WebP
            ==> still_bytes(still_target(frame, query), query.encoding, LOSSY_QUALITY) == Some(
            bytes,
        )),
        Err(kind) => still_refusal(frame, query) == Some(kind),
    }
}

/// Whether `outcome` is what the still-image transcoder comes to on the
/// bytes of a source: a decode error where the bytes hold no image, else
/// what transcoding the decoded frame comes to.
pub open spec fn image_outcome(bytes: Seq<u8>, query: Query, outcome: Result<Seq<u8>, ErrorKind>) -> bool {
    match still_frame(bytes) {
        None => outcome == Err::<Seq<u8>, ErrorKind>(ErrorKind::Decode),
        Some(frame) => still_outcome(frame, query, outcome),
    }
}

/// Resamples a frame as a request asks: into the box of the request, by
/// the mode of the request. The dimensions of the result are those that the
/// request resolves to.
pub fn resize_for_query(frame: &DecodedFrame, query: &Query) -> (r: Result<DecodedFrame, ResampleError>)
    ensures
        match r {
            Ok(out) => refusal(
                frame@,
                query.resize_mode(),
                query.target_box(frame.width, frame.height).0,
                query.target_box(frame.width, frame.height).1,
            ) is None && out@ == still_target(frame@, *query),
            Err(e) => refusal(
                frame@,
                query.resize_mode(),
                query.target_box(frame.width, frame.height).0,
                query.target_box(frame.width, frame.height).1,
            ) == Some(e),
        },
        r is Ok ==> r->Ok_0@.valid(),
        r is Ok ==> (r->Ok_0.width, r->Ok_0.height) == resolved(
            frame.width,
            frame.height,
            query.width,
            query.height,
            query.resize_mode(),
        ),
{
    let mode: ResizeMode = ResizeMode::pick(query.mode);
    let target: (u32, u32) = query.box_for(frame.width, frame.height);
    let r = resize_dynimage(frame, &mode, target.0, target.1);
    proof {
        if r is Ok {
            lemma_box_resolves(frame.width, frame.height, query.width, query.height, mode);
        }
    }
    r
}

/// Transcodes a decoded still frame: resamples it as the request asks and
/// encodes the result in the encoding of the request.
pub fn transcode_still(frame: &DecodedFrame, query: &Query) -> (r: Result<Vec<u8>, PipelineError>)
    ensures
        still_outcome(
            frame@,
            *query,
            match r {
                Ok(bytes) => Ok(bytes@),
                Err(e) => Err(e.kind()),
            },
        ),
{
    let resized: DecodedFrame = match resize_for_query(frame, query) {
        Ok(resized) => resized,
        Err(e) => {
            return Err(PipelineError::Resample(e));
        },
    };
    match encode_image(&resized, &query.encoding) {
        Ok(bytes) => Ok(bytes),
        Err(e) => Err(PipelineError::Encode(e)),
    }
}

/// Decodes the bytes of a still image into one frame. Of a source that
/// holds several frames the first is taken.
pub fn decode_image(bytes: &[u8]) -> (r: Result<DecodedFrame, PipelineError>)
    ensures
        match r {
            Ok(frame) => still_frame(bytes@) == Some(frame@),
            Err(e) => still_frame(bytes@) is None && e.kind() == ErrorKind::Decode,
        },
{
    match decode_still(bytes) {
        Ok(frame) => Ok(frame),
        Err(e) => Err(PipelineError::Decode(DecodeError::Still(e))),
    }
}

/// Transcodes the bytes of a still image: decodes them, resamples the
/// frame as the request asks and encodes it in the encoding of the request.
pub fn handle_image(bytes: Vec<u8>, query: Query) -> (r: Result<HandleResponse, PipelineError>)
    ensures
        image_outcome(bytes@, query, outcome_of(r)),
{
    let start = start_clock();
    let frame: DecodedFrame = match decode_image(bytes.as_slice()) {
        Ok(frame) => frame,
        Err(e) => {
            return Err(e);
        },
    };
    let result: Vec<u8> = match transcode_still(&frame, &query) {
        Ok(result) => result,
        Err(e) => {
            return Err(e);
        },
    };
    Ok(HandleResponse { bytes: result, execution_time: time_since(&start) })
}

/// Whether the payload of a frame can be laid out as a canvas of
/// `canvas_w` x `canvas_h` pixels: it holds four samples per pixel and at
/// least as many samples as the canvas has.
pub open spec fn reshapes(canvas_w: u16, canvas_h: u16, raw: FrameView) -> bool {
    &&& raw.layout == PixelLayout::Rgba8
    &&& raw.samples.len() >= sample_count(canvas_w as u32, canvas_h as u32, PixelLayout::Rgba8)
}

/// The frame laid out as a canvas of `canvas_w` x `canvas_h` pixels: the
/// payload's samples from the front, as many as the canvas has, placed at
/// the canvas's origin and shown as long as the frame.
pub open spec fn reshaped(canvas_w: u16, canvas_h: u16, raw: FrameView) -> FrameView {
    FrameView {
        width: canvas_w as u32,
        height: canvas_h as u32,
        layout: PixelLayout::Rgba8,
        samples: raw.samples.take(sample_count(canvas_w as u32, canvas_h as u32, PixelLayout::Rgba8)),
        delay: raw.delay,
        left: 0,
        top: 0,
    }
}

/// Lays the payload of a frame out as a canvas of `canvas_w` x `canvas_h`
/// pixels. Fails with `Unknown` where the payload is too short for the
/// canvas or does not hold four samples per pixel.
pub fn reshape_frame(canvas_w: u16, canvas_h: u16, raw: DecodedFrame) -> (r: Result<
    DecodedFrame,
    PipelineError,
>)
    ensures
        match r {
            Ok(frame) => reshapes(canvas_w, canvas_h, raw@) && frame@ == reshaped(
                canvas_w,
                canvas_h,
                raw@,
            ),
            Err(e) => !reshapes(canvas_w, canvas_h, raw@) && e is Unknown,
        },
{
    let needed: u128 = count_samples(canvas_w as u32, canvas_h as u32, PixelLayout::Rgba8);
    match raw.layout {
        PixelLayout::Rgba8 => {},
        _ => {
            return Err(PipelineError::Unknown);
        },
    }
    if (raw.samples.len() as u128) < needed {
        return Err(PipelineError::Unknown);
    }
    let delay: u16 = raw.delay;
    let mut samples: Vec<u8> = raw.samples;
    samples.truncate(needed as usize);
    Ok(
        DecodedFrame {
            width: canvas_w as u32,
            height: canvas_h as u32,
            layout: PixelLayout::Rgba8,
            samples,
            delay,
            left: 0,
            top: 0,
        },
    )
}

/// The frame of a sequence after it was laid out on the canvas and
/// resampled.
pub open spec fn transcoded(
    canvas_w: u16,
    canvas_h: u16,
    raw: FrameView,
    mode: ResizeMode,
    width: u32,
    height: u32,
) -> FrameView {
    resampled(reshaped(canvas_w, canvas_h, raw), mode, width, height)
}

/// Why a frame of a sequence is not transcoded, `None` where it is.
pub open spec fn frame_refusal(
    canvas_w: u16,
    canvas_h: u16,
    raw: FrameView,
    mode: ResizeMode,
    width: u32,
    height: u32,
) -> Option<ErrorKind> {
    if !reshapes(canvas_w, canvas_h, raw) {
        Some(ErrorKind::Unknown)
    } else {
        match refusal(reshaped(canvas_w, canvas_h, raw), mode, width, height) {
            Some(e) => Some(e.kind()),
            None => None,
        }
    }
}

/// Transcodes one frame of a sequence: lays its payload out on the canvas
/// and resamples the canvas into the box `width` x `height`. The result is
/// shown for as long as the frame.
pub fn transcode_frame(
    canvas_w: u16,
    canvas_h: u16,
    raw: DecodedFrame,
    mode: ResizeMode,
    width: u32,
    height: u32,
) -> (r: Result<DecodedFrame, PipelineError>)
    ensures
        match r {
            Ok(frame) => frame_refusal(canvas_w, canvas_h, raw@, mode, width, height) is None
                && frame@ == transcoded(canvas_w, canvas_h, raw@, mode, width, height),
            Err(e) => frame_refusal(canvas_w, canvas_h, raw@, mode, width, height) == Some(
                e.kind(),
            ),
        },
        r is Ok ==> r->Ok_0@.valid(),
        r is Ok ==> r->Ok_0.delay == raw.delay,
        r is Ok ==> r->Ok_0.layout == PixelLayout::Rgba8,
        r is Ok ==> (r->Ok_0.width, r->Ok_0.height) == resolved(
            canvas_w as u32,
            canvas_h as u32,
            Some(width),
            Some(height),
            mode,
        ),
{
    let whole: DecodedFrame = match reshape_frame(canvas_w, canvas_h, raw) {
        Ok(whole) => whole,
        Err(e) => {
            return Err(e);
        },
    };
    match resize_dynimage(&whole, &mode, width, height) {
        Ok(frame) => Ok(frame),
        Err(e) => Err(PipelineError::Resample(e)),
    }
}

/// Whether a frame of a stream comes through: the decoder yields it and its
/// payload can be laid out on the canvas.
pub open spec fn passes(canvas_w: u16, canvas_h: u16, frame: Option<FrameView>) -> bool {
    frame is Some && reshapes(canvas_w, canvas_h, frame->0)
}

/// Whether the first `n` frames of a stream come through.
pub open spec fn frames_pass(frames: Seq<Option<FrameView>>, canvas_w: u16, canvas_h: u16, n: int) -> bool {
    forall|i: int| 0 <= i < n ==> passes(canvas_w, canvas_h, #[trigger] frames[i])
}

/// Whether frame `k` is the first of a stream that does not come through.
pub open spec fn first_failure(frames: Seq<Option<FrameView>>, canvas_w: u16, canvas_h: u16, k: int) -> bool {
    &&& 0 <= k < frames.len()
    &&& frames_pass(frames, canvas_w, canvas_h, k)
    &&& !passes(canvas_w, canvas_h, frames[k])
}

/// The kind of error that a frame gives that does not come through: a
/// decode error where the decoder fails, `Unknown` where the payload cannot
/// be laid out.
pub open spec fn failure_kind(frame: Option<FrameView>) -> ErrorKind {
    if frame is None {
        ErrorKind::Decode
    } else {
        ErrorKind::Unknown
    }
}

/// The first `n` frames of a stream as they are written: each laid out on
/// the canvas, resampled into the box, with the palette speed of the
/// encoder.
pub open spec fn output_prefix(
    frames: Seq<Option<FrameView>>,
    canvas_w: u16,
    canvas_h: u16,
    mode: ResizeMode,
    width: u32,
    height: u32,
    n: int,
) -> Seq<(FrameView, i32)> {
    Seq::new(
        n as nat,
        |i: int| (transcoded(canvas_w, canvas_h, frames[i]->0, mode, width, height), PALETTE_SPEED),
    )
}

/// Whether `outcome` is what the frame-sequence transcoder comes to on the
/// bytes of a source:
/// - a decode error where the bytes open no sequence;
/// - the resampler's reason where it refuses the canvas;
/// - unsupported where a resolved side is beyond 65535 pixels;
/// - the error of the first frame that does not come through, if there is
///   one;
/// - else the bytes of a sequence that repeats forever, on a canvas of the
///   resolved dimensions, with one resampled frame for every frame of the
///   source, in order.
pub open spec fn sequence_outcome(bytes: Seq<u8>, query: Query, outcome: Result<Seq<u8>, ErrorKind>) -> bool {
    match sequence_of(bytes) {
        None => outcome == Err::<Seq<u8>, ErrorKind>(ErrorKind::Decode),
        Some((size, frames)) => {
            let mode = query.resize_mode();
            let target = query.target_box(size.0 as u32, size.1 as u32);
            let dims = resolved(size.0 as u32, size.1 as u32, query.width, query.height, mode);
            match size_refusal(
                size.0 as u32,
                size.1 as u32,
                PixelLayout::Rgba8,
                mode,
                target.0,
                target.1,
            ) {
                Some(e) => outcome == Err::<Seq<u8>, ErrorKind>(e.kind()),
                None => if dims.0 > MAX_SEQUENCE_SIDE || dims.1 > MAX_SEQUENCE_SIDE {
                    outcome == Err::<Seq<u8>, ErrorKind>(ErrorKind::Unsupported)
                } else {
                    match outcome {
                        Ok(out) => frames_pass(frames, size.0, size.1, frames.len() as int) && out
                            == sequence_bytes(
                            dims.0 as u16,
                            dims.1 as u16,
                            output_prefix(
                                frames,
                                size.0,
                                size.1,
                                mode,
                                target.0,
                                target.1,
                                frames.len() as int,
                            ),
                        ),
                        Err(kind) => exists|k: int| #[trigger]
                            first_failure(frames, size.0, size.1, k) && kind == failure_kind(
                                frames[k],
                            ),
                    }
                },
            }
        },
    }
}

/// Whether `outcome` is what `handle_gif` comes to: the frame-sequence
/// transcoder's outcome where the requested encoding holds frames, the
/// still-image transcoder's where it does not.
pub open spec fn gif_outcome(bytes: Seq<u8>, query: Query, outcome: Result<Seq<u8>, ErrorKind>) -> bool {
    if query.encoding.holds_frames() {
        sequence_outcome(bytes, query, outcome)
    } else {
        image_outcome(bytes, query, outcome)
    }
}

/// Reads the frames of a stream to its end and appends each, transcoded, to
/// the writer. Stops at the first frame that does not come through.
fn copy_frames(
    stream: &mut FrameStream,
    writer: &mut SequenceWriter,
    mode: ResizeMode,
    width: u32,
    height: u32,
) -> (r: Result<(), PipelineError>)
    requires
        written(*old(writer)).len() == 0,
        size_refusal(
            canvas(*old(stream)).0 as u32,
            canvas(*old(stream)).1 as u32,
            PixelLayout::Rgba8,
            mode,
            width,
            height,
        ) is None,
        resolved(
            canvas(*old(stream)).0 as u32,
            canvas(*old(stream)).1 as u32,
            Some(width),
            Some(height),
            mode,
        ).0 <= MAX_SEQUENCE_SIDE,
        resolved(
            canvas(*old(stream)).0 as u32,
            canvas(*old(stream)).1 as u32,
            Some(width),
            Some(height),
            mode,
        ).1 <= MAX_SEQUENCE_SIDE,
    ensures
        header(*final(writer)) == header(*old(writer)),
        match r {
            Ok(_) => frames_pass(
                pending(*old(stream)),
                canvas(*old(stream)).0,
                canvas(*old(stream)).1,
                pending(*old(stream)).len() as int,
            ) && written(*final(writer)) == output_prefix(
                pending(*old(stream)),
                canvas(*old(stream)).0,
                canvas(*old(stream)).1,
                mode,
                width,
                height,
                pending(*old(stream)).len() as int,
            ),
            Err(e) => exists|k: int| #[trigger]
                first_failure(
                    pending(*old(stream)),
                    canvas(*old(stream)).0,
                    canvas(*old(stream)).1,
                    k,
                ) && e.kind() == failure_kind(pending(*old(stream))[k]),
        },
{
    let ghost frames = pending(*stream);
    let ghost mut k: int = 0;
    let size: (u16, u16) = canvas_size(stream);
    loop
        invariant
            size == canvas(*old(stream)),
            canvas(*stream) == size,
            frames == pending(*old(stream)),
            0 <= k <= frames.len(),
            pending(*stream) == frames.skip(k),
            frames_pass(frames, size.0, size.1, k),
            written(*writer) == output_prefix(frames, size.0, size.1, mode, width, height, k),
            header(*writer) == header(*old(writer)),
            size_refusal(size.0 as u32, size.1 as u32, PixelLayout::Rgba8, mode, width, height) is None,
            resolved(size.0 as u32, size.1 as u32, Some(width), Some(height), mode).0
                <= MAX_SEQUENCE_SIDE,
            resolved(size.0 as u32, size.1 as u32, Some(width), Some(height), mode).1
                <= MAX_SEQUENCE_SIDE,
        ensures
            k == frames.len(),
        decreases pending(*stream).len(),
    {
        let raw: DecodedFrame = match next_frame(stream) {
            Ok(Some(raw)) => raw,
            Ok(None) => {
                break ;
            },
            Err(e) => {
                assert(first_failure(frames, size.0, size.1, k));
                return Err(PipelineError::Decode(DecodeError::Sequence(e)));
            },
        };
        assert(frames[k] == Some(raw@));
        let ghost seen = raw@;
        let frame: DecodedFrame = match transcode_frame(size.0, size.1, raw, mode, width, height) {
            Ok(frame) => frame,
            Err(e) => {
                assert(first_failure(frames, size.0, size.1, k));
                return Err(e);
            },
        };
        let ghost before = written(*writer);
        match append_frame(writer, &frame, PALETTE_SPEED) {
            Ok(_) => {},
            Err(e) => {
                return Err(PipelineError::Encode(EncodeError::Underlying(CodecFailure::Sequence(e))));
            },
        }
        proof {
            assert(frame@ == transcoded(size.0, size.1, seen, mode, width, height));
            assert(before.push((frame@, PALETTE_SPEED)) =~= output_prefix(
                frames,
                size.0,
                size.1,
                mode,
                width,
                height,
                k + 1,
            ));
            assert(frames.skip(k).skip(1) =~= frames.skip(k + 1));
            k = k + 1;
        }
    }
    Ok(())
}

/// Transcodes the bytes of a frame sequence. Where the requested encoding
/// holds frames, every frame is resampled to the same dimensions and the
/// frames are written as one sequence that repeats forever, each shown for
/// as long as in the source; no bytes come back unless every frame came
/// through. Where the requested encoding holds a single image, the source
/// is handed to the still-image transcoder.
pub fn handle_gif(bytes: Vec<u8>, query: Query) -> (r: Result<HandleResponse, PipelineError>)
    ensures
        gif_outcome(bytes@, query, outcome_of(r)),
{
    if !query.encoding.is_video() {
        return handle_image(bytes, query);
    }
    let start = start_clock();
    let mut stream: FrameStream = match open_stream(bytes) {
        Ok(stream) => stream,
        Err(e) => {
            return Err(PipelineError::Decode(DecodeError::Sequence(e)));
        },
    };
    let size: (u16, u16) = canvas_size(&stream);
    let mode: ResizeMode = ResizeMode::pick(query.mode);
    let target: (u32, u32) = query.box_for(size.0 as u32, size.1 as u32);
    match check_sizes(size.0 as u32, size.1 as u32, PixelLayout::Rgba8, mode, target.0, target.1) {
        Some(e) => {
            return Err(PipelineError::Resample(e));
        },
        None => {},
    }
    proof {
        lemma_box_resolves(size.0 as u32, size.1 as u32, query.width, query.height, mode);
    }
    let dims: (u32, u32) = resolve(size.0 as u32, size.1 as u32, Some(target.0), Some(target.1), mode);
    if dims.0 > MAX_SEQUENCE_SIDE || dims.1 > MAX_SEQUENCE_SIDE {
        return Err(PipelineError::Encode(EncodeError::Unsupported));
    }
    let mut writer: SequenceWriter = match open_writer(dims.0 as u16, dims.1 as u16) {
        Ok(writer) => writer,
        Err(e) => {
            return Err(PipelineError::Encode(EncodeError::Underlying(CodecFailure::Sequence(e))));
        },
    };
    match repeat_forever(&mut writer) {
        Ok(_) => {},
        Err(e) => {
            return Err(PipelineError::Encode(EncodeError::Underlying(CodecFailure::Sequence(e))));
        },
    }
    match copy_frames(&mut stream, &mut writer, mode, target.0, target.1) {
        Ok(_) => {},
        Err(e) => {
            return Err(e);
        },
    }
    let output: Vec<u8> = match finish_sequence(writer) {
        Ok(output) => output,
        Err(e) => {
            return Err(PipelineError::Encode(EncodeError::Underlying(CodecFailure::Sequence(e))));
        },
    };
    Ok(HandleResponse { bytes: output, execution_time: time_since(&start) })
}

/// A request that names neither side leaves the size of a still frame as it
/// is, in every mode.
pub proof fn lemma_still_passthrough(frame: FrameView, query: Query)
    requires
        frame.valid(),
        query.width is None,
        query.height is None,
    ensures
        still_target(frame, query).width == frame.width,
        still_target(frame, query).height == frame.height,
{
    lemma_box_resolves(frame.width, frame.height, query.width, query.height, query.resize_mode());
}

/// The frames that are written stand one for one for the frames of the
/// source, in order: each has the delay of its source frame, the dimensions
/// that the box resolves to for the canvas, and the encoder's palette speed.
pub proof fn lemma_frames_kept(
    frames: Seq<Option<FrameView>>,
    canvas_w: u16,
    canvas_h: u16,
    mode: ResizeMode,
    width: u32,
    height: u32,
)
    ensures
        output_prefix(frames, canvas_w, canvas_h, mode, width, height, frames.len() as int).len()
            == frames.len(),
        forall|i: int|
            0 <= i < frames.len() ==> {
                let out = #[trigger] output_prefix(
                    frames,
                    canvas_w,
                    canvas_h,
                    mode,
                    width,
                    height,
                    frames.len() as int,
                )[i];
                &&& out.0.delay == frames[i]->0.delay
                &&& (out.0.width, out.0.height) == resolved(
                    canvas_w as u32,
                    canvas_h as u32,
                    Some(width),
                    Some(height),
                    mode,
                )
                &&& out.1 == PALETTE_SPEED
            },
{
}

/// The frames that a request writes for the frames of a source.
pub open spec fn written_frames(size: (u16, u16), frames: Seq<Option<FrameView>>, query: Query) -> Seq<
    (FrameView, i32),
> {
    output_prefix(
        frames,
        size.0,
        size.1,
        query.resize_mode(),
        query.target_box(size.0 as u32, size.1 as u32).0,
        query.target_box(size.0 as u32, size.1 as u32).1,
        frames.len() as int,
    )
}

/// When the frame-sequence transcoder gives bytes, they are the bytes of a
/// sequence that repeats forever and holds as many frames as the source,
/// each with the delay of its source frame, on a canvas of the dimensions
/// that the request resolves to, which every frame shares.
pub proof fn lemma_frame_count_kept(
    bytes: Seq<u8>,
    query: Query,
    out: Seq<u8>,
    size: (u16, u16),
    frames: Seq<Option<FrameView>>,
)
    requires
        sequence_of(bytes) == Some((size, frames)),
        sequence_outcome(bytes, query, Ok(out)),
    ensures
        written_frames(size, frames, query).len() == frames.len(),
        out == sequence_bytes(
            resolved(size.0 as u32, size.1 as u32, query.width, query.height, query.resize_mode()).0 as u16,
            resolved(size.0 as u32, size.1 as u32, query.width, query.height, query.resize_mode()).1 as u16,
            written_frames(size, frames, query),
        ),
        forall|i: int|
            0 <= i < frames.len() ==> (#[trigger] written_frames(size, frames, query)[i]).0.delay
                == frames[i]->0.delay && (
            written_frames(size, frames, query)[i].0.width,
            written_frames(size, frames, query)[i].0.height,
        ) == resolved(size.0 as u32, size.1 as u32, query.width, query.height, query.resize_mode()),
{
    let mode = query.resize_mode();
    let target = query.target_box(size.0 as u32, size.1 as u32);
    lemma_frames_kept(frames, size.0, size.1, mode, target.0, target.1);
    lemma_box_resolves(size.0 as u32, size.1 as u32, query.width, query.height, mode);
}

/// All or nothing: where one frame of the source does not come through,
/// the frame-sequence transcoder gives an error and no bytes.
pub proof fn lemma_all_or_nothing(
    bytes: Seq<u8>,
    query: Query,
    outcome: Result<Seq<u8>, ErrorKind>,
    size: (u16, u16),
    frames: Seq<Option<FrameView>>,
    k: int,
)
    requires
        sequence_of(bytes) == Some((size, frames)),
        sequence_outcome(bytes, query, outcome),
        0 <= k < frames.len(),
        !passes(size.0, size.1, frames[k]),
    ensures
        outcome is Err,
{
}

/// A frame sequence that is asked for in an encoding of a single image
/// takes the way of the still-image transcoder.
pub proof fn lemma_flattening(bytes: Seq<u8>, query: Query, outcome: Result<Seq<u8>, ErrorKind>)
    requires
        query.encoding != Encoding::Gif,
        gif_outcome(bytes, query, outcome),
    ensures
        image_outcome(bytes, query, outcome),
{
}

} // verus!
