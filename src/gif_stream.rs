use vstd::prelude::*;

verus! {

/// A GIF encoder writing into memory, always started with a full global
/// colour table by `new_gif_encoder`.
#[verifier::external_body]
pub struct GifStream {
    inner: gif::Encoder<Vec<u8>>,
}

#[verifier::external_type_specification]
#[verifier::external_body]
pub struct ExEncodingError(gif::EncodingError);

/// The bytes that a GIF encoder has written to its output vector so far.
pub uninterp spec fn gif_bytes(e: GifStream) -> Seq<u8>;

/// The bytes of one frame without a local colour table: graphic control
/// extension, image descriptor and compressed indices.
pub uninterp spec fn gif_frame_bytes(width: u16, height: u16, delay: u16, indices: Seq<u8>) -> Seq<u8>;

pub open spec fn le16(v: u16) -> Seq<u8> {
    seq![(v % 256) as u8, (v / 256) as u8]
}

/// Signature, logical screen descriptor of a 256-colour global table, and
/// the table itself.
pub open spec fn gif_header(width: u16, height: u16, table: Seq<u8>) -> Seq<u8> {
    seq![0x47u8, 0x49, 0x46, 0x38, 0x39, 0x61] + le16(width) + le16(height) + seq![0xF7u8, 0, 0]
        + table
}

/// The application extension that makes the animation loop forever.
pub open spec fn loop_forever_block() -> Seq<u8> {
    seq![0x21u8, 0xFF, 11, 0x4E, 0x45, 0x54, 0x53, 0x43, 0x41, 0x50, 0x45, 0x32, 0x2E, 0x30, 3, 1, 0, 0, 0]
}

/// Relies on gif::Encoder::new: writes the signature, the screen descriptor
/// and the 256-entry colour table into an empty vector; writing to a vector
/// does not fail.
#[verifier::external_body]
pub(crate) fn new_gif_encoder(width: u16, height: u16, palette: &Vec<u8>) -> (r: Result<
    GifStream,
    gif::EncodingError,
>)
    requires
        palette@.len() == 768,
    ensures
        r is Ok,
        r matches Ok(e) ==> gif_bytes(e) == gif_header(width, height, palette@),
{
    gif::Encoder::new(Vec::new(), width, height, palette.as_slice()).map(|inner| GifStream { inner })
}

/// Relies on gif::Encoder::set_repeat with Repeat::Infinite: appends the
/// NETSCAPE2.0 extension with a loop count of 0.
#[verifier::external_body]
pub(crate) fn set_loop_forever(e: &mut GifStream) -> (r: Result<(), gif::EncodingError>)
    ensures
        r is Ok,
        gif_bytes(*final(e)) == gif_bytes(*old(e)) + loop_forever_block(),
{
    e.inner.set_repeat(gif::Repeat::Infinite)
}

/// Relies on gif::Encoder::get_ref: the length of the output written so far.
#[verifier::external_body]
pub(crate) fn written_len(e: &GifStream) -> (r: usize)
    ensures
        r == gif_bytes(*e).len(),
{
    e.inner.get_ref().len()
}

/// Relies on gif::Encoder::write_frame: appends one frame of palette indices
/// with the given delay, drawn with the global colour table; the index buffer
/// is handed back for reuse.
#[verifier::external_body]
pub(crate) fn write_indexed_frame(
    e: &mut GifStream,
    width: u16,
    height: u16,
    delay: u16,
    indices: Vec<u8>,
) -> (r: (Result<(), gif::EncodingError>, Vec<u8>))
    requires
        width > 0,
        height > 0,
        indices@.len() >= width * height,
    ensures
        r.0 is Ok,
        r.1@ == indices@,
        gif_bytes(*final(e)) == gif_bytes(*old(e)) + gif_frame_bytes(width, height, delay, indices@),
{
    let mut frame = gif::Frame::default();
    frame.width = width;
    frame.height = height;
    frame.delay = delay;
    frame.buffer = std::borrow::Cow::Owned(indices);
    let res = e.inner.write_frame(&frame);
    (res, frame.buffer.into_owned())
}

/// Relies on gif::Encoder::into_inner: writes the trailer byte 0x3B and hands
/// back the output vector.
#[verifier::external_body]
pub(crate) fn finish_gif(e: GifStream) -> (r: Option<Vec<u8>>)
    ensures
        r is Some,
        r matches Some(v) ==> v@ == gif_bytes(e).push(0x3Bu8),
{
    e.inner.into_inner().ok()
}

} // verus!
