//! The codec: frames out of, and into, a buffer of bytes that a stream fills
//! and drains.

use crate::frame::extent;
use crate::frame::scan;
use crate::frame::wire;
use crate::frame::Cursor;
use crate::frame::Fault;
use crate::frame::Frame;
use crate::frame::FrameView;
use crate::wire::cut;
use crate::wire::lemma_cut_wire;
use crate::wire::lemma_read_wire;
use crate::wire::portable;
use crate::wire::spelled;
use bytes::Buf;
use bytes::BytesMut;
use vstd::prelude::*;
use vstd::string::StringExecFns;

verus! {

/// `bytes::BytesMut`, a growable buffer of bytes, as Verus sees it: opaque.
#[verifier::external_type_specification]
#[verifier::external_body]
pub struct ExBytesMut(bytes::BytesMut);

/// The bytes that wait in `buf`, in order.
pub uninterp spec fn buffered(buf: BytesMut) -> Seq<u8>;

/// Borrows what waits in `buf`, as `&buf[..]` does.
///
/// Trusted: the slice is the contents of the buffer.
#[verifier::external_body]
pub(crate) fn buffer_bytes(buf: &BytesMut) -> (r: &[u8])
    ensures
        r@ == buffered(*buf),
{
    &buf[..]
}

/// Drops the first `cnt` bytes of `buf` with `Buf::advance`.
///
/// Trusted: the rest stays, in order. The crate panics where `cnt` is more
/// than what waits, so that is not asked of it.
#[verifier::external_body]
pub(crate) fn buffer_advance(buf: &mut BytesMut, cnt: usize)
    requires
        cnt <= buffered(*old(buf)).len(),
    ensures
        buffered(*final(buf)) == buffered(*old(buf)).skip(cnt as int),
{
    buf.advance(cnt)
}

/// Adds `extend` to the end of `buf` with `BytesMut::extend_from_slice`.
///
/// Trusted: what waited stays in front, in order. The crate grows the buffer
/// as needed and gives up only where memory does.
#[verifier::external_body]
pub(crate) fn buffer_extend(buf: &mut BytesMut, extend: &[u8])
    ensures
        buffered(*final(buf)) == buffered(*old(buf)) + extend@,
{
    buf.extend_from_slice(extend)
}

/// The codec of the wire protocol. It keeps no state between calls.
#[derive(Debug)]
pub struct FrameCodec;

/// Why the codec could not hand out or take a frame.
#[derive(Debug)]
pub enum Error {
    /// The bytes end before the frame does.
    Incomplete {
        /// What was being read.
        detail: String,
    },
    /// The bytes are no frame.
    InvalidFrame {
        /// What the frame reader reported.
        source: crate::frame::Error,
        /// What was being read.
        detail: String,
    },
    /// The bytes of a frame break the format.
    UnexpectedBytes {
        /// What was being read.
        detail: String,
    },
    /// Reading or writing the bytes failed.
    IoError {
        /// What the system reported.
        detail: String,
    },
}

impl Error {
    /// The error as a line of text.
    pub open spec fn text(&self) -> Seq<char> {
        match self {
            Error::Incomplete { detail } => "Incomplete Frame: "@ + detail@,
            Error::InvalidFrame { source, detail } => "Invalid Frame: "@ + detail@ + " >> "@ + (
            source.heading() + source.detail()),
            Error::UnexpectedBytes { detail } => "Invalid Frame Content: "@ + detail@,
            Error::IoError { detail } => "Frame IO Error: "@ + detail@,
        }
    }

    /// The error as a line of text.
    pub fn to_string(&self) -> (r: String)
        ensures
            r@ == self.text(),
    {
        match self {
            Error::Incomplete { detail } => {
                let mut text = String::from_str("Incomplete Frame: ");
                text.append(detail.as_str());
                text
            },
            Error::InvalidFrame { source, detail } => {
                let mut text = String::from_str("Invalid Frame: ");
                text.append(detail.as_str());
                text.append(" >> ");
                text.append(source.to_string().as_str());
                assert(text@ =~= self.text());
                text
            },
            Error::UnexpectedBytes { detail } => {
                let mut text = String::from_str("Invalid Frame Content: ");
                text.append(detail.as_str());
                text
            },
            Error::IoError { detail } => {
                let mut text = String::from_str("Frame IO Error: ");
                text.append(detail.as_str());
                text
            },
        }
    }
}

/// What the codec makes of the bytes that wait in a buffer.
pub enum Decoded {
    /// A whole frame stands at the start, in `used` bytes.
    Frame {
        /// The frame.
        frame: FrameView,
        /// How many bytes it takes.
        used: int,
    },
    /// No whole frame is there yet.
    NeedMore,
    /// The bytes at the start are no frame.
    Refused(Fault),
}

/// What the codec makes of the bytes `s`: first the walk that looks for a
/// whole frame, then the walk that builds it.
pub open spec fn decoded(s: Seq<u8>) -> Decoded {
    if s.len() == 0 {
        Decoded::NeedMore
    } else {
        match extent(s, 0) {
            Ok(used) => match scan(s, 0) {
                Ok((frame, _)) => Decoded::Frame { frame, used },
                Err(fault) => Decoded::Refused(fault),
            },
            Err(Fault::Incomplete) => Decoded::NeedMore,
            Err(fault) => Decoded::Refused(fault),
        }
    }
}

impl FrameCodec {
    /// Takes one frame from the front of `src`, if a whole one waits there.
    /// Where none does, or the bytes are no frame, `src` stays as it is.
    pub fn decode(&mut self, src: &mut BytesMut) -> (r: Result<Option<Frame>, Error>)
        ensures
            match decoded(buffered(*old(src))) {
                Decoded::Frame { frame, used } => {
                    &&& r matches Ok(Some(found))
                    &&& found@ == frame
                    &&& buffered(*final(src)) == buffered(*old(src)).skip(used)
                },
                Decoded::NeedMore => {
                    &&& r matches Ok(None)
                    &&& buffered(*final(src)) == buffered(*old(src))
                },
                Decoded::Refused(fault) => {
                    &&& r matches Err(Error::InvalidFrame { source, detail })
                    &&& source.reports(fault)
                    &&& detail@ == ""@
                    &&& buffered(*final(src)) == buffered(*old(src))
                },
            },
    {
        let bytes = buffer_bytes(src);
        let mut buf = Cursor::new(bytes);
        if !buf.has_remaining() {
            return Ok(None);
        }
        match Frame::check(&mut buf) {
            Ok(_) => {
                let total = bytes.len();
                assert(buf.pos <= total);
                let len = buf.position() as usize;
                buf.set_position(0);
                match Frame::parse(&mut buf) {
                    Ok(frame) => {
                        buffer_advance(src, len);
                        Ok(Some(frame))
                    },
                    Err(err) => Err(Error::InvalidFrame { source: err, detail: String::from_str("") }),
                }
            },
            Err(crate::frame::Error::Incomplete { .. }) => Ok(None),
            Err(err) => Err(Error::InvalidFrame { source: err, detail: String::from_str("") }),
        }
    }

    /// Adds the bytes of `frame` to the end of `dst`. It cannot fail.
    pub fn encode(&mut self, frame: Frame, dst: &mut BytesMut) -> (r: Result<(), Error>)
        ensures
            r is Ok,
            buffered(*final(dst)) == buffered(*old(dst)) + wire(frame@),
    {
        let mut bytes: Vec<u8> = Vec::new();
        frame.write_value(&mut bytes);
        buffer_extend(dst, bytes.as_slice());
        assert(buffered(*final(dst)) =~= buffered(*old(dst)) + wire(frame@));
        Ok(())
    }
}

/// Round trip: the codec reads back the frame that was written, whatever
/// follows it in the buffer, and takes exactly its bytes.
pub proof fn lemma_round_trip(frame: FrameView, rest: Seq<u8>)
    requires
        portable(frame),
    ensures
        decoded(wire(frame) + rest) == (Decoded::Frame { frame, used: wire(frame).len() as int }),
{
    let s = wire(frame) + rest;
    assert(s.subrange(0, wire(frame).len() as int) =~= wire(frame));
    assert(spelled(s, 0, wire(frame)));
    lemma_read_wire(frame, s, 0);
}

/// The last byte: once all the bytes of a frame are there, and nothing else,
/// the codec hands out that frame and leaves the buffer empty.
pub proof fn lemma_whole_frame(frame: FrameView)
    requires
        portable(frame),
    ensures
        decoded(wire(frame)) == (Decoded::Frame { frame, used: wire(frame).len() as int }),
        wire(frame).skip(wire(frame).len() as int) == Seq::<u8>::empty(),
{
    lemma_round_trip(frame, Seq::empty());
    assert(wire(frame) + Seq::<u8>::empty() =~= wire(frame));
    assert(wire(frame).skip(wire(frame).len() as int) =~= Seq::<u8>::empty());
}

/// Partial buffer: while the bytes of a frame are not all there, the codec
/// hands out nothing (and so, by its contract, leaves the buffer alone).
pub proof fn lemma_partial_buffer(frame: FrameView, k: int)
    requires
        portable(frame),
        0 <= k < wire(frame).len(),
    ensures
        decoded(wire(frame).take(k)) == Decoded::NeedMore,
{
    let s = wire(frame).take(k);
    if k > 0 {
        assert(s.subrange(0, s.len() as int) =~= wire(frame).take(s.len() - 0));
        assert(cut(s, 0, wire(frame)));
        lemma_cut_wire(frame, s, 0);
    }
}

} // verus!
