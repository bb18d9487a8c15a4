//! Frame sequences: the calls into the `gif` crate. A decoder is a stream
//! of frames that is read from the front; an encoder is a sequence of frames
//! that grows at the back. Both are held behind contracts that are taken on
//! trust from that crate's source.

use vstd::prelude::*;
use crate::frame::{DecodedFrame, FrameView, PixelLayout};
use crate::limits::MAX_SEQUENCE_SIDE;

verus! {

/// A decoder over the bytes of a frame sequence. It yields the frames in
/// the order of the source, one at a time, and cannot be rewound.
#[verifier::external_body]
pub struct FrameStream {
    decoder: gif::Decoder<std::io::Cursor<Vec<u8>>>,
}

/// An encoder that collects the frames of a sequence in memory.
#[verifier::external_body]
pub struct SequenceWriter {
    encoder: gif::Encoder<Vec<u8>>,
}

/// What a stream has yet to yield, in order: a frame, or `None` where the
/// decoder fails instead.
pub uninterp spec fn pending(stream: FrameStream) -> Seq<Option<FrameView>>;

/// The width and height of the logical canvas of a stream.
pub uninterp spec fn canvas(stream: FrameStream) -> (u16, u16);

/// The canvas and the frames that the bytes of a frame sequence hold,
/// `None` where they begin no such sequence.
pub uninterp spec fn sequence_of(bytes: Seq<u8>) -> Option<((u16, u16), Seq<Option<FrameView>>)>;

/// The frames that a writer has taken so far, each with the speed of its
/// palette search.
pub uninterp spec fn written(writer: SequenceWriter) -> Seq<(FrameView, i32)>;

/// The width and height of the canvas that a writer was opened with, and
/// whether the sequence was marked to repeat forever.
pub uninterp spec fn header(writer: SequenceWriter) -> (u16, u16, bool);

/// The bytes of a sequence that repeats forever, with the given canvas and
/// frames.
pub uninterp spec fn sequence_bytes(width: u16, height: u16, frames: Seq<(FrameView, i32)>) -> Seq<u8>;

/// Opens a decoder that expands every frame to red, green, blue and alpha,
/// and reads the logical screen of the sequence.
///
/// Calls `gif::DecodeOptions::read_info`, after `set_color_output`.
/// Trusted: what the decoder reads depends on the bytes alone, so the canvas
/// and the frames that it will yield have a name.
#[verifier::external_body]
pub(crate) fn open_stream(bytes: Vec<u8>) -> (r: Result<FrameStream, gif::DecodingError>)
    ensures
        match r {
            Ok(stream) => sequence_of(bytes@) == Some((canvas(stream), pending(stream))),
            Err(_) => sequence_of(bytes@) is None,
        },
{
    let mut options = gif::DecodeOptions::new();
    options.set_color_output(gif::ColorOutput::RGBA);
    Ok(FrameStream { decoder: options.read_info(std::io::Cursor::new(bytes))? })
}

/// The width and height of the logical canvas.
///
/// Calls `gif::Decoder::width` and `gif::Decoder::height`.
#[verifier::external_body]
pub(crate) fn canvas_size(stream: &FrameStream) -> (size: (u16, u16))
    ensures
        size == canvas(*stream),
{
    (stream.decoder.width(), stream.decoder.height())
}

/// Decodes the next frame of the stream, `None` at its end.
///
/// Calls `gif::Decoder::read_next_frame`. Trusted: the decoder hands out
/// what it has yet to yield from the front, one frame per call, and nothing
/// once it is at the end. The frame comes with its rectangle on the canvas,
/// its delay and its samples, four per pixel.
#[verifier::external_body]
pub(crate) fn next_frame(stream: &mut FrameStream) -> (r: Result<Option<DecodedFrame>, gif::DecodingError>)
    ensures
        canvas(*final(stream)) == canvas(*old(stream)),
        match r {
            Ok(Some(frame)) => pending(*old(stream)).len() > 0 && pending(*old(stream))[0] == Some(
                frame@,
            ) && pending(*final(stream)) == pending(*old(stream)).skip(1),
            Ok(None) => pending(*old(stream)).len() == 0 && pending(*final(stream)) == pending(
                *old(stream),
            ),
            Err(_) => pending(*old(stream)).len() > 0 && pending(*old(stream))[0] is None,
        },
{
    let frame = match stream.decoder.read_next_frame()? {
        Some(frame) => frame,
        None => return Ok(None),
    };
    let (width, height, samples) = (frame.width.into(), frame.height.into(), frame.buffer.to_vec());
    let (layout, delay, left, top) = (PixelLayout::Rgba8, frame.delay, frame.left, frame.top);
    Ok(Some(DecodedFrame { width, height, layout, samples, delay, left, top }))
}

/// Opens a writer for a sequence with the given canvas and no global
/// palette.
///
/// Calls `gif::Encoder::new`. Trusted: the encoder writes the screen
/// descriptor and the colour table, which an empty palette cannot overfill,
/// and a write into a vector does not fail.
#[verifier::external_body]
pub(crate) fn open_writer(width: u16, height: u16) -> (r: Result<SequenceWriter, gif::EncodingError>)
    ensures
        r is Ok,
        header(r->Ok_0) == (width, height, false),
        written(r->Ok_0) == Seq::<(FrameView, i32)>::empty(),
{
    Ok(SequenceWriter { encoder: gif::Encoder::new(Vec::new(), width, height, &[])? })
}

/// Marks the sequence to repeat forever. This comes before the first frame.
///
/// Calls `gif::Encoder::set_repeat` with `Repeat::Infinite`. Trusted: the
/// encoder writes the extension for the loop count, and a write into a
/// vector does not fail.
#[verifier::external_body]
pub(crate) fn repeat_forever(writer: &mut SequenceWriter) -> (r: Result<(), gif::EncodingError>)
    requires
        written(*old(writer)).len() == 0,
    ensures
        r is Ok,
        header(*final(writer)) == (header(*old(writer)).0, header(*old(writer)).1, true),
        written(*final(writer)) == written(*old(writer)),
{
    writer.encoder.set_repeat(gif::Repeat::Infinite)
}

/// Whether a frame can be appended to a sequence: its geometry is valid, it
/// has four samples per pixel and no side is beyond 65535 pixels.
pub open spec fn sequence_takes(frame: FrameView) -> bool {
    &&& frame.valid()
    &&& frame.layout == PixelLayout::Rgba8
    &&& frame.width <= MAX_SEQUENCE_SIDE
    &&& frame.height <= MAX_SEQUENCE_SIDE
}

/// Appends a frame to the sequence, with the frame's own delay and
/// placement and a palette of its own.
///
/// Calls `gif::Frame::from_rgba_speed` and `gif::Encoder::write_frame`.
/// Trusted: the first panics on a sample count other than `width * height *
/// 4` and on a speed outside 1 to 30, which the precondition leaves out, and
/// gives the frame a palette of at most 256 colours, so the second has
/// nothing to refuse, and a write into a vector does not fail.
#[verifier::external_body]
pub(crate) fn append_frame(writer: &mut SequenceWriter, frame: &DecodedFrame, speed: i32) -> (r: Result<
    (),
    gif::EncodingError,
>)
    requires
        sequence_takes(frame@),
        1 <= speed <= 30,
    ensures
        r is Ok,
        header(*final(writer)) == header(*old(writer)),
        written(*final(writer)) == written(*old(writer)).push((frame@, speed)),
{
    let mut samples = frame.samples.clone();
    let mut out = gif::Frame::from_rgba_speed(frame.width as u16, frame.height as u16, &mut samples, speed);
    out.delay = frame.delay;
    out.left = frame.left;
    out.top = frame.top;
    writer.encoder.write_frame(&out)
}

/// Ends the sequence and hands out its bytes.
///
/// Calls `gif::Encoder::into_inner`. Trusted: the encoder writes the
/// trailer and gives back the vector that it wrote to; the bytes depend on
/// the canvas and the frames alone, so they have a name.
#[verifier::external_body]
pub(crate) fn finish_sequence(writer: SequenceWriter) -> (r: Result<Vec<u8>, gif::EncodingError>)
    requires
        header(writer).2,
    ensures
        r is Ok,
        r->Ok_0@ == sequence_bytes(header(writer).0, header(writer).1, written(writer)),
{
    writer.encoder.into_inner().map_err(gif::EncodingError::from)
}

} // verus!
