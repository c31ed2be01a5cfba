//! Compression of an in-memory buffer into a fixed region, and of a byte
//! stream into a sink, as LZ4 frames.
use vstd::prelude::*;

use crate::encoder::FrameEncoder;
use crate::error::{codec_error, CodecStep, Error};
use crate::stream::{copy, ByteSource};

verus! {

/// The LZ4 frame that the encoder, with its default settings, makes of `data`
/// on this target.
pub uninterp spec fn lz4_frame(data: Seq<u8>) -> Seq<u8>;

/// The four bytes that open every LZ4 frame: the magic number 0x184D2204,
/// little-endian.
pub open spec fn lz4_magic() -> Seq<u8> {
    seq![0x04u8, 0x22u8, 0x4Du8, 0x18u8]
}

/// Relies on `lz4::EncoderBuilder::build` over a `Vec`, one `write_all` of
/// `data` and `lz4::Encoder::finish`: the whole frame of `data`, which the
/// frame format opens with its magic number. Writing to a `Vec` never fails,
/// and the encoder sizes its own buffer by `LZ4F_compressBound`, so the calls
/// fail only where memory runs out.
#[verifier::external_body]
fn lz4_frame_bytes(data: &[u8]) -> (r: Result<Vec<u8>, std::io::Error>)
    ensures
        r is Ok,
        r matches Ok(v) ==> v@ == lz4_frame(data@),
        r matches Ok(v) ==> v@.len() >= 4 && v@.subrange(0, 4) == lz4_magic(),
{
    let mut e = lz4::EncoderBuilder::new().build(Vec::new())?;
    std::io::Write::write_all(&mut e, data)?;
    let (v, res) = e.finish();
    res.map(|_| v)
}

/// Compresses all of `src` as one LZ4 frame into the front of `dst`, which is
/// never grown and keeps its bytes past the frame. It succeeds exactly when
/// the frame fits; otherwise it fails with a capacity error and leaves `dst`
/// as it was.
pub fn compress_buf(src: &[u8], dst: &mut [u8]) -> (r: Result<(), Error>)
    ensures
        final(dst)@.len() == old(dst)@.len(),
        r is Ok ==> lz4_frame(src@).len() <= old(dst)@.len(),
        r is Ok ==> final(dst)@.subrange(0, lz4_frame(src@).len() as int) == lz4_frame(src@),
        r is Ok ==> final(dst)@.subrange(0, 4) == lz4_magic(),
        r is Ok ==> final(dst)@.subrange(lz4_frame(src@).len() as int, old(dst)@.len() as int)
            == old(dst)@.subrange(lz4_frame(src@).len() as int, old(dst)@.len() as int),
        r is Ok <==> lz4_frame(src@).len() <= old(dst)@.len(),
        lz4_frame(src@).len() > old(dst)@.len()
            ==> r == Err::<(), Error>(Error::Codec { step: CodecStep::Capacity, os_code: None }),
        r is Err ==> final(dst)@ == old(dst)@,
{
    let frame = match lz4_frame_bytes(src) {
        Ok(v) => v,
        Err(e) => return Err(codec_error(CodecStep::Build, &e)),
    };
    let n = frame.len();
    if n > dst.len() {
        return Err(Error::Codec { step: CodecStep::Capacity, os_code: None });
    }
    let ghost d0 = dst@;
    let mut i: usize = 0;
    while i < n
        invariant
            i <= n,
            n == frame@.len(),
            n <= dst@.len(),
            dst@.len() == d0.len(),
            forall|k: int| 0 <= k < i ==> dst@[k] == frame@[k],
            forall|k: int| n <= k < dst@.len() ==> dst@[k] == d0[k],
        decreases n - i,
    {
        dst[i] = frame[i];
        i = i + 1;
    }
    assert(dst@.subrange(0, n as int) =~= frame@);
    assert(dst@.subrange(n as int, dst@.len() as int) =~= d0.subrange(n as int, d0.len() as int));
    assert(dst@.subrange(0, 4) =~= frame@.subrange(0, 4));
    Ok(())
}

/// Compresses every remaining byte of `src` as one LZ4 frame into `sink`,
/// through a chunk buffer of fixed size, and hands the sink back.
///
/// Reading stops at the end of `src`; a failure to start the frame, to read,
/// to write or to end the frame ends the call with that error.
pub fn compress_stream<R: ByteSource, W: std::io::Write>(src: &mut R, sink: W) -> (r: Result<W, Error>)
    ensures
        r is Ok ==> final(src).rest().len() == 0,
        r matches Err(e) ==> {
            ||| e matches Error::Codec { step: CodecStep::Build, .. }
            ||| e is Io
            ||| e matches Error::Codec { step: CodecStep::Finish, .. }
        },
{
    let mut out = match FrameEncoder::new(sink) {
        Ok(e) => e,
        Err(e) => return Err(e),
    };
    match copy(src, &mut out) {
        Ok(()) => {},
        Err(e) => return Err(e),
    }
    let (sink, res) = out.finish();
    match res {
        Ok(()) => Ok(sink),
        Err(e) => Err(e),
    }
}

} // verus!
