//! The LZ4 frame encoder, bound to a sink through an open, write, finish
//! protocol.
use vstd::prelude::*;

use crate::error::{codec_error, io_error, CodecStep, Error};

verus! {

#[verifier::external_type_specification]
#[verifier::external_body]
#[verifier::reject_recursive_types(W)]
pub struct ExLz4Encoder<W>(lz4::Encoder<W>);

/// Relies on `lz4::EncoderBuilder::build` with the builder's defaults: makes
/// an encoder over `w` and writes the frame header to it.
#[verifier::external_body]
fn lz4_build<W: std::io::Write>(w: W) -> (r: Result<lz4::Encoder<W>, std::io::Error>) {
    lz4::EncoderBuilder::new().build(w)
}

/// Relies on `std::io::Write::write_all` of `lz4::Encoder`: feeds all of
/// `data` to the codec, or fails.
#[verifier::external_body]
fn lz4_write_all<W: std::io::Write>(e: &mut lz4::Encoder<W>, data: &[u8]) -> (r: Result<(), std::io::Error>) {
    std::io::Write::write_all(e, data)
}

/// Relies on `lz4::Encoder::finish`: writes the end of the frame and hands
/// the sink back, with or without an error.
#[verifier::external_body]
fn lz4_finish<W: std::io::Write>(e: lz4::Encoder<W>) -> (r: (W, Result<(), std::io::Error>)) {
    e.finish()
}

/// An LZ4 frame encoder that owns its sink until `finish` hands it back.
///
/// Once built it accepts writes; `finish` consumes it, so that nothing can be
/// written after the frame is closed. A failed write leaves it poisoned: every
/// later write fails at once, and so does `finish`.
#[verifier::reject_recursive_types(W)]
pub struct FrameEncoder<W> {
    inner: lz4::Encoder<W>,
    poisoned: bool,
    fed: Ghost<Seq<u8>>,
}

impl<W> FrameEncoder<W> {
    /// The bytes of the successful writes so far, in order.
    pub closed spec fn fed(&self) -> Seq<u8> {
        self.fed@
    }

    /// Whether a write has failed.
    pub closed spec fn is_poisoned(&self) -> bool {
        self.poisoned
    }

    /// Whether a write has failed: no further write is accepted.
    pub fn poisoned(&self) -> (r: bool)
        ensures
            r == self.is_poisoned(),
    {
        self.poisoned
    }
}

impl<W: std::io::Write> FrameEncoder<W> {
    /// Binds a new encoder to `sink` and writes the frame header to it.
    pub fn new(sink: W) -> (r: Result<Self, Error>)
        ensures
            r matches Ok(e) ==> e.fed() == Seq::<u8>::empty() && !e.is_poisoned(),
            r matches Err(e) ==> e matches Error::Codec { step: CodecStep::Build, .. },
    {
        match lz4_build(sink) {
            Ok(inner) => Ok(FrameEncoder { inner, poisoned: false, fed: Ghost(Seq::empty()) }),
            Err(e) => Err(codec_error(CodecStep::Build, &e)),
        }
    }

    /// Feeds all of `data` to the codec. A poisoned encoder refuses the write.
    pub fn write(&mut self, data: &[u8]) -> (r: Result<(), Error>)
        ensures
            old(self).is_poisoned() ==> r matches Err(Error::Codec { step: CodecStep::Poisoned, .. }),
            old(self).is_poisoned() ==> final(self).is_poisoned(),
            !old(self).is_poisoned() ==> (r is Ok <==> !final(self).is_poisoned()),
            !old(self).is_poisoned() && r is Err ==> r->Err_0 is Io,
            r is Ok ==> final(self).fed() == old(self).fed() + data@,
            r is Err ==> final(self).fed() == old(self).fed(),
    {
        if self.poisoned {
            return Err(Error::Codec { step: CodecStep::Poisoned, os_code: None });
        }
        match lz4_write_all(&mut self.inner, data) {
            Ok(()) => {
                self.fed = Ghost(self.fed@ + data@);
                Ok(())
            },
            Err(e) => {
                self.poisoned = true;
                Err(io_error(&e))
            },
        }
    }

    /// Writes the end of the frame and hands the sink back. A poisoned
    /// encoder still ends the frame, and reports its earlier failure.
    pub fn finish(self) -> (r: (W, Result<(), Error>))
        ensures
            self.is_poisoned() ==> r.1 matches Err(Error::Codec { step: CodecStep::Poisoned, .. }),
            !self.is_poisoned() && r.1 is Err ==> r.1 matches Err(Error::Codec { step: CodecStep::Finish, .. }),
    {
        let poisoned = self.poisoned;
        let (sink, res) = lz4_finish(self.inner);
        if poisoned {
            return (sink, Err(Error::Codec { step: CodecStep::Poisoned, os_code: None }));
        }
        match res {
            Ok(()) => (sink, Ok(())),
            Err(e) => (sink, Err(codec_error(CodecStep::Finish, &e))),
        }
    }
}

} // verus!
