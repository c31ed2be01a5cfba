//! Byte sources, and the chunked copy from a source into a frame encoder.
use vstd::prelude::*;

use crate::encoder::FrameEncoder;
use crate::error::{CodecStep, Error};

verus! {

/// Capacity of the buffer that carries each chunk of a copy.
pub const CHUNK_SIZE: usize = 8192;

/// A read-only stream of bytes.
pub trait ByteSource {
    /// The bytes that the stream has yet to deliver, in order.
    spec fn rest(&self) -> Seq<u8>;

    /// Whether every read of this stream succeeds.
    spec fn never_fails(&self) -> bool;

    /// Reads the next bytes of the stream into the front of `buf`, and
    /// returns how many it read. It reads none only at the end of the
    /// stream, or into an empty `buf`.
    fn read(&mut self, buf: &mut [u8]) -> (r: Result<usize, Error>)
        ensures
            final(buf)@.len() == old(buf)@.len(),
            old(self).never_fails() ==> r is Ok && final(self).never_fails(),
            r matches Err(e) ==> e is Io,
            r matches Ok(n) ==> {
                &&& n <= old(buf)@.len()
                &&& n <= old(self).rest().len()
                &&& (n == 0 <==> (old(buf)@.len() == 0 || old(self).rest().len() == 0))
                &&& final(buf)@.subrange(0, n as int) == old(self).rest().subrange(0, n as int)
                &&& final(self).rest() == old(self).rest().skip(n as int)
            },
    ;
}

/// Feeds every remaining byte of `src` to the encoder `dst`, one chunk at a
/// time, through a single buffer of `CHUNK_SIZE` bytes. Stops at the first
/// failure of either side; what `dst` accepted before it stays there.
pub fn copy<R: ByteSource, W: std::io::Write>(src: &mut R, dst: &mut FrameEncoder<W>) -> (r: Result<(), Error>)
    ensures
        r is Ok ==> final(src).rest().len() == 0,
        r is Ok ==> final(dst).fed() == old(dst).fed() + old(src).rest(),
        r is Ok ==> final(dst).is_poisoned() == old(dst).is_poisoned(),
        final(dst).fed().len() - old(dst).fed().len() <= old(src).rest().len(),
        final(dst).fed() == old(dst).fed() + old(src).rest().subrange(0, final(dst).fed().len() - old(dst).fed().len()),
        old(src).never_fails() && !final(dst).is_poisoned() ==> r is Ok,
        old(dst).is_poisoned() && old(src).rest().len() > 0 ==> r is Err,
        r matches Err(e) ==> e is Io || (old(dst).is_poisoned() && e matches Error::Codec { step: CodecStep::Poisoned, .. }),
{
    let ghost start = dst.fed();
    let ghost all = src.rest();
    let ghost mut done: Seq<u8> = Seq::empty();
    let mut buf: Vec<u8> = vec![0u8; CHUNK_SIZE];
    loop
        invariant
            buf@.len() == CHUNK_SIZE,
            all == done + src.rest(),
            dst.fed() == start + done,
            start == old(dst).fed(),
            old(dst).is_poisoned() ==> done.len() == 0,
            dst.is_poisoned() == old(dst).is_poisoned(),
            all == old(src).rest(),
            old(src).never_fails() ==> src.never_fails(),
        decreases src.rest().len(),
    {
        let ghost rest0 = src.rest();
        let read = src.read(buf.as_mut_slice());
        let ghost n = if read is Ok { read->Ok_0 as int } else { 0 };
        let more = match feed_chunk(dst, read, buf.as_slice()) {
            Ok(m) => m,
            Err(e) => {
                assert(all.subrange(0, done.len() as int) =~= done);
                return Err(e);
            },
        };
        if !more {
            assert(done + src.rest() =~= done);
            assert(all.subrange(0, done.len() as int) =~= done);
            return Ok(());
        }
        proof {
            let chunk = buf@.subrange(0, n);
            assert(chunk =~= rest0.subrange(0, n));
            assert(rest0 =~= rest0.subrange(0, n) + rest0.skip(n));
            assert(all =~= (done + chunk) + src.rest());
            assert(dst.fed() =~= start + (done + chunk));
            done = done + chunk;
        }
    }
}

/// One step of a chunked copy whose reads are made elsewhere: hands `dst`
/// the bytes that a read put at the front of `buf`. Returns whether the
/// stream goes on: `false` when the read reported its end. A failed read is
/// passed on as it came, and `dst` is left alone.
pub fn feed_chunk<W: std::io::Write>(dst: &mut FrameEncoder<W>, read: Result<usize, Error>, buf: &[u8]) -> (r: Result<bool, Error>)
    requires
        read matches Ok(n) ==> n <= buf@.len(),
    ensures
        read is Err ==> r is Err && r->Err_0 == read->Err_0 && final(dst).fed() == old(dst).fed()
            && final(dst).is_poisoned() == old(dst).is_poisoned(),
        read == Ok::<usize, Error>(0) ==> r == Ok::<bool, Error>(false) && final(dst).fed() == old(dst).fed()
            && final(dst).is_poisoned() == old(dst).is_poisoned(),
        read is Ok && read->Ok_0 > 0 ==> {
            &&& (r is Ok <==> !final(dst).is_poisoned())
            &&& (r is Ok ==> r == Ok::<bool, Error>(true)
                && final(dst).fed() == old(dst).fed() + buf@.subrange(0, read->Ok_0 as int))
            &&& (r is Err ==> final(dst).fed() == old(dst).fed())
            &&& (old(dst).is_poisoned() ==> r matches Err(Error::Codec { step: CodecStep::Poisoned, .. }))
            &&& (!old(dst).is_poisoned() && r is Err ==> r->Err_0 is Io)
        },
{
    match read {
        Err(e) => Err(e),
        Ok(n) => {
            if n == 0 {
                return Ok(false);
            }
            match dst.write(&buf[0..n]) {
                Ok(()) => Ok(true),
                Err(e) => Err(e),
            }
        },
    }
}

/// A source that delivers the bytes of an in-memory buffer.
pub struct SliceSource<'a> {
    data: &'a [u8],
    pos: usize,
}

impl<'a> SliceSource<'a> {
    /// The bytes of the whole buffer, delivered or not.
    pub closed spec fn data(&self) -> Seq<u8> {
        self.data@
    }

    /// How many bytes were delivered so far.
    pub closed spec fn pos(&self) -> nat {
        self.pos as nat
    }

    /// A source positioned at the start of `data`.
    pub fn new(data: &'a [u8]) -> (r: Self)
        ensures
            r.data() == data@,
            r.pos() == 0,
            r.rest() == data@,
    {
        let r = SliceSource { data, pos: 0 };
        assert(r.data@.skip(0) =~= data@);
        r
    }

    /// How many bytes were delivered so far.
    pub fn position(&self) -> (r: usize)
        ensures
            r == self.pos(),
    {
        self.pos
    }
}

impl<'a> ByteSource for SliceSource<'a> {
    closed spec fn never_fails(&self) -> bool {
        true
    }

    closed spec fn rest(&self) -> Seq<u8> {
        if self.pos <= self.data@.len() {
            self.data@.skip(self.pos as int)
        } else {
            Seq::empty()
        }
    }

    fn read(&mut self, buf: &mut [u8]) -> (r: Result<usize, Error>)
    {
        let ghost pos0 = self.pos as int;
        let data = self.data;
        let pos = self.pos;
        let len = data.len();
        let avail = if pos <= len { len - pos } else { 0 };
        let n = if buf.len() < avail { buf.len() } else { avail };
        let mut i: usize = 0;
        while i < n
            invariant
                i <= n,
                n <= buf@.len(),
                n <= avail,
                self.pos == pos0,
                pos == pos0,
                data@ == self.data@,
                len == data@.len(),
                n > 0 ==> pos0 + n <= data@.len(),
                avail == if pos0 <= self.data@.len() { self.data@.len() - pos0 } else { 0 },
                buf@.len() == old(buf)@.len(),
                forall|k: int| 0 <= k < i ==> buf@[k] == self.data@[pos0 + k],
            decreases n - i,
        {
            buf[i] = data[pos + i];
            i = i + 1;
        }
        if n > 0 {
            self.pos = self.pos + n;
        }
        proof {
            if pos0 <= self.data@.len() {
                let rest0 = self.data@.skip(pos0);
                assert(buf@.subrange(0, n as int) =~= rest0.subrange(0, n as int));
                assert(self.data@.skip(self.pos as int) =~= rest0.skip(n as int));
            } else {
                assert(buf@.subrange(0, 0) =~= Seq::<u8>::empty().subrange(0, 0));
            }
        }
        Ok(n)
    }
}

} // verus!
