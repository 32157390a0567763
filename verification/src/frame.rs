//! Frames: the tagged values that travel on the wire, and their byte form.

use crate::decimal::atoi_integer;
use crate::decimal::atoi_unsigned;
use crate::decimal::decimal;
use crate::decimal::decimal_text;
use crate::decimal::integer_numeral;
use crate::decimal::push_decimal;
use crate::decimal::push_decimal_text;
use crate::decimal::push_signed_decimal;
use crate::decimal::signed_decimal;
use crate::decimal::unsigned_numeral;
use bytes::Bytes;
use vstd::prelude::*;
use vstd::slice::slice_subrange;
use vstd::slice::slice_to_vec;
use vstd::string::StringExecFns;
use vstd::utf8::decode_utf8;
use vstd::utf8::encode_utf8;
use vstd::utf8::valid_utf8;

verus! {

/// `bytes::Bytes`, an immutable run of bytes, as Verus sees it: opaque.
#[verifier::external_type_specification]
#[verifier::external_body]
pub struct ExBytes(bytes::Bytes);

/// The bytes that `b` holds, in order.
pub uninterp spec fn bulk_contents(b: Bytes) -> Seq<u8>;

/// Copies `data` into a new `Bytes` with `Bytes::copy_from_slice`.
///
/// Trusted: the result holds the bytes of `data`, in order.
#[verifier::external_body]
pub(crate) fn bytes_from_slice(data: &[u8]) -> (r: Bytes)
    ensures
        bulk_contents(r) == data@,
{
    Bytes::copy_from_slice(data)
}

/// Borrows what `data` holds with `Bytes::as_ref`.
///
/// Trusted: the slice is the contents of `data`.
#[verifier::external_body]
pub(crate) fn bytes_as_slice(data: &Bytes) -> (r: &[u8])
    ensures
        r@ == bulk_contents(*data),
{
    data.as_ref()
}

/// `Bytes::clone` hands out a second handle on the same memory.
///
/// Trusted: the clone holds the same bytes.
pub assume_specification[ <bytes::Bytes as Clone>::clone ](data: &Bytes) -> (r: Bytes)
    ensures
        bulk_contents(r) == bulk_contents(*data),
;

/// A frame of the wire protocol.
#[derive(Debug)]
pub enum Frame {
    /// A line of text.
    String(String),
    /// A line of text that reports an error.
    Error(String),
    /// An unsigned integer.
    UInt(u64),
    /// A signed integer.
    Int(i64),
    /// Raw bytes, with their length in front.
    Bulk(Bytes),
    /// The empty frame.
    Null,
    /// A list of frames, which may hold lists in turn.
    Array(Vec<Frame>),
}

/// What a frame is, as a mathematical value.
pub enum FrameView {
    /// A line of text.
    String(Seq<char>),
    /// A line of text that reports an error.
    Error(Seq<char>),
    /// An unsigned integer.
    UInt(u64),
    /// A signed integer.
    Int(i64),
    /// Raw bytes.
    Bulk(Seq<u8>),
    /// The empty frame.
    Null,
    /// A list of frames.
    Array(Seq<FrameView>),
}

impl View for Frame {
    type V = FrameView;

    open spec fn view(&self) -> FrameView
        decreases self,
    {
        match self {
            Frame::String(text) => FrameView::String(text@),
            Frame::Error(text) => FrameView::Error(text@),
            Frame::UInt(value) => FrameView::UInt(*value),
            Frame::Int(value) => FrameView::Int(*value),
            Frame::Bulk(data) => FrameView::Bulk(bulk_contents(*data)),
            Frame::Null => FrameView::Null,
            Frame::Array(items) => FrameView::Array(frames_view(items@)),
        }
    }
}

/// The values of a list of frames, item by item.
pub open spec fn frames_view(items: Seq<Frame>) -> Seq<FrameView>
    decreases items,
{
    Seq::new(items.len(), |i: int| if 0 <= i < items.len() { items[i].view() } else { FrameView::Null })
}

/// The byte that tags a string frame: `+`.
pub const TAG_STRING: u8 = 43;

/// The byte that tags an error frame: `-`. It is also the minus sign.
pub const TAG_ERROR: u8 = 45;

/// The byte that tags an unsigned integer: `:`.
pub const TAG_UINT: u8 = 58;

/// The byte that tags a signed integer: `@`.
pub const TAG_INT: u8 = 64;

/// The byte that tags a bulk frame and the empty frame: `$`.
pub const TAG_BULK: u8 = 36;

/// The byte that tags a list: `*`.
pub const TAG_ARRAY: u8 = 42;

/// The first byte of the end of a record: carriage return.
pub const CR: u8 = 13;

/// The second byte of the end of a record: line feed.
pub const LF: u8 = 10;

/// The digit `1`, which follows the minus sign in the empty frame.
pub const DIGIT_ONE: u8 = 49;

/// The two bytes that end a record.
pub open spec fn crlf() -> Seq<u8> {
    seq![CR, LF]
}

/// The bytes that a frame is written as.
pub open spec fn wire(frame: FrameView) -> Seq<u8>
    decreases frame,
{
    match frame {
        FrameView::String(text) => seq![TAG_STRING] + encode_utf8(text) + crlf(),
        FrameView::Error(text) => seq![TAG_ERROR] + encode_utf8(text) + crlf(),
        FrameView::UInt(value) => seq![TAG_UINT] + decimal(value as nat) + crlf(),
        FrameView::Int(value) => seq![TAG_INT] + signed_decimal(value as int) + crlf(),
        FrameView::Bulk(data) => seq![TAG_BULK] + decimal(data.len()) + crlf() + data + crlf(),
        FrameView::Null => seq![TAG_BULK, TAG_ERROR, DIGIT_ONE, CR, LF],
        FrameView::Array(items) => seq![TAG_ARRAY] + decimal(items.len()) + crlf() + wire_all(items),
    }
}

/// The bytes that a list of frames is written as: one frame after the other.
pub open spec fn wire_all(items: Seq<FrameView>) -> Seq<u8>
    decreases items,
{
    if items.len() == 0 {
        Seq::empty()
    } else {
        wire_all(items.drop_last()) + wire(items.last())
    }
}

impl Clone for Frame {
    fn clone(&self) -> (r: Self)
        ensures
            r@ == self@,
        decreases self,
    {
        match self {
            Frame::String(text) => Frame::String(text.clone()),
            Frame::Error(text) => Frame::Error(text.clone()),
            Frame::UInt(value) => Frame::UInt(*value),
            Frame::Int(value) => Frame::Int(*value),
            Frame::Bulk(data) => Frame::Bulk(data.clone()),
            Frame::Null => Frame::Null,
            Frame::Array(items) => {
                let mut copies: Vec<Frame> = Vec::new();
                let mut i: usize = 0;
                while i < items.len()
                    invariant
                        decreases_to!(self => items),
                        i <= items.len(),
                        copies.len() == i,
                        forall|k: int| 0 <= k < i ==> copies[k]@ == items[k]@,
                    decreases items.len() - i,
                {
                    proof {
                        vstd::std_specs::vec::axiom_vec_index_decreases(*items, i as int);
                    }
                    let copy = items[i].clone();
                    copies.push(copy);
                    i += 1;
                }
                assert(frames_view(copies@) =~= frames_view(items@));
                Frame::Array(copies)
            },
        }
    }
}

/// Why a run of bytes is not a frame.
pub enum Fault {
    /// The bytes end before the frame does.
    Incomplete,
    /// The frame starts with a byte that tags no kind of frame.
    InvalidFrameType(u8),
    /// The text of a frame is not UTF-8.
    InvalidText,
    /// No unsigned number stands where one is due.
    InvalidUnsigned,
    /// No signed number stands where one is due.
    InvalidInteger,
    /// A frame that starts like the empty frame is not spelled `$-1`.
    InvalidNull,
    /// The bytes of a bulk frame are not followed by the end of a record.
    InvalidBulk,
    /// A list is longer than this machine can address.
    InvalidLength,
}

/// Why a frame could not be read or built.
#[derive(Debug)]
pub enum Error {
    /// The bytes end before the frame does.
    Incomplete {
        /// What was being read.
        detail: String,
    },
    /// A frame of another kind was due.
    InvalidFrameType {
        /// What was found.
        detail: String,
    },
    /// The bytes of a frame break the format.
    UnexpectedBytes {
        /// What was being read.
        detail: String,
    },
    /// A number does not fit where it is used.
    InvalidNumeric {
        /// What was being read.
        detail: String,
    },
    /// Reading or writing the bytes failed.
    IoError {
        /// What the system reported.
        detail: String,
    },
}

/// The text that an error carries for a fault.
pub open spec fn fault_detail(fault: Fault) -> Seq<char> {
    match fault {
        Fault::Incomplete => "get line, buflen < 2"@,
        Fault::InvalidFrameType(tag) => "Unexpected frame id: "@ + decimal_text(tag as nat),
        Fault::InvalidText => "Invalid UTF8"@,
        Fault::InvalidUnsigned => "Invalid unsigned frame"@,
        Fault::InvalidInteger => "Invalid integer frame"@,
        Fault::InvalidNull => "Invalid null frame"@,
        Fault::InvalidBulk => "Invalid bulk frame"@,
        Fault::InvalidLength => "Could not convert to numerical value"@,
    }
}

impl Error {
    /// Whether this error is the one that reports `fault`: its variant and its text.
    pub open spec fn reports(&self, fault: Fault) -> bool {
        match fault {
            Fault::Incomplete => self matches Error::Incomplete { detail } && detail@
                == fault_detail(fault),
            Fault::InvalidFrameType(_) => self matches Error::InvalidFrameType { detail }
                && detail@ == fault_detail(fault),
            Fault::InvalidLength => self matches Error::InvalidNumeric { detail } && detail@
                == fault_detail(fault),
            _ => self matches Error::UnexpectedBytes { detail } && detail@ == fault_detail(fault),
        }
    }

    /// The text of this error's variant, before the detail.
    pub open spec fn heading(&self) -> Seq<char> {
        match self {
            Error::Incomplete { .. } => "Incomplete Frame: "@,
            Error::InvalidFrameType { .. } => "Invalid Frame Type: "@,
            Error::UnexpectedBytes { .. } => "Invalid Frame Content: "@,
            Error::InvalidNumeric { .. } => "Invalid Numerical Value: "@,
            Error::IoError { .. } => "IO Error: "@,
        }
    }

    /// The detail that this error carries.
    pub open spec fn detail(&self) -> Seq<char> {
        match self {
            Error::Incomplete { detail } => detail@,
            Error::InvalidFrameType { detail } => detail@,
            Error::UnexpectedBytes { detail } => detail@,
            Error::InvalidNumeric { detail } => detail@,
            Error::IoError { detail } => detail@,
        }
    }

    /// The error as a line of text: the heading of its variant, then its detail.
    pub fn to_string(&self) -> (r: String)
        ensures
            r@ == self.heading() + self.detail(),
    {
        match self {
            Error::Incomplete { detail } => {
                let mut text = String::from_str("Incomplete Frame: ");
                text.append(detail.as_str());
                text
            },
            Error::InvalidFrameType { detail } => {
                let mut text = String::from_str("Invalid Frame Type: ");
                text.append(detail.as_str());
                text
            },
            Error::UnexpectedBytes { detail } => {
                let mut text = String::from_str("Invalid Frame Content: ");
                text.append(detail.as_str());
                text
            },
            Error::InvalidNumeric { detail } => {
                let mut text = String::from_str("Invalid Numerical Value: ");
                text.append(detail.as_str());
                text
            },
            Error::IoError { detail } => {
                let mut text = String::from_str("IO Error: ");
                text.append(detail.as_str());
                text
            },
        }
    }

    /// The error that reports `fault`.
    pub fn from_fault(fault: Fault) -> (r: Error)
        ensures
            r.reports(fault),
    {
        match fault {
            Fault::Incomplete => Error::Incomplete {
                detail: String::from_str("get line, buflen < 2"),
            },
            Fault::InvalidFrameType(tag) => {
                let mut detail = String::from_str("Unexpected frame id: ");
                push_decimal_text(&mut detail, tag as u64);
                Error::InvalidFrameType { detail }
            },
            Fault::InvalidText => Error::UnexpectedBytes { detail: String::from_str("Invalid UTF8") },
            Fault::InvalidUnsigned => Error::UnexpectedBytes {
                detail: String::from_str("Invalid unsigned frame"),
            },
            Fault::InvalidInteger => Error::UnexpectedBytes {
                detail: String::from_str("Invalid integer frame"),
            },
            Fault::InvalidNull => Error::UnexpectedBytes {
                detail: String::from_str("Invalid null frame"),
            },
            Fault::InvalidBulk => Error::UnexpectedBytes {
                detail: String::from_str("Invalid bulk frame"),
            },
            Fault::InvalidLength => Error::InvalidNumeric {
                detail: String::from_str("Could not convert to numerical value"),
            },
        }
    }
}

/// Where the first end of a record at or after `from` starts, if there is one.
pub open spec fn find_crlf(s: Seq<u8>, from: int) -> Option<int>
    decreases s.len() - from,
{
    if from < 0 || from + 1 >= s.len() {
        None
    } else if s[from] == CR && s[from + 1] == LF {
        Some(from)
    } else {
        find_crlf(s, from + 1)
    }
}

/// The unsigned number on the line that starts at `pos`, and where the next line starts.
pub open spec fn unsigned_at(s: Seq<u8>, pos: int) -> Result<(u64, int), Fault> {
    match find_crlf(s, pos) {
        Some(end) => match unsigned_numeral(s.subrange(pos, end)) {
            Some(value) => Ok((value, end + 2)),
            None => Err(Fault::InvalidUnsigned),
        },
        None => Err(Fault::Incomplete),
    }
}

/// The signed number on the line that starts at `pos`, and where the next line starts.
pub open spec fn integer_at(s: Seq<u8>, pos: int) -> Result<(i64, int), Fault> {
    match find_crlf(s, pos) {
        Some(end) => match integer_numeral(s.subrange(pos, end)) {
            Some(value) => Ok((value, end + 2)),
            None => Err(Fault::InvalidInteger),
        },
        None => Err(Fault::Incomplete),
    }
}

/// The text on the line that starts at `pos`, and where the next line starts.
pub open spec fn text_at(s: Seq<u8>, pos: int) -> Result<(Seq<char>, int), Fault> {
    match find_crlf(s, pos) {
        Some(end) => if valid_utf8(s.subrange(pos, end)) {
            Ok((decode_utf8(s.subrange(pos, end)), end + 2))
        } else {
            Err(Fault::InvalidText)
        },
        None => Err(Fault::Incomplete),
    }
}

/// The bulk or empty frame whose tag stands just before `pos`, and where the next frame starts.
pub open spec fn bulk_at(s: Seq<u8>, pos: int) -> Result<(FrameView, int), Fault> {
    if pos < 0 || pos >= s.len() {
        Err(Fault::Incomplete)
    } else if s[pos] == TAG_ERROR {
        match find_crlf(s, pos) {
            Some(end) => if s.subrange(pos, end) == seq![TAG_ERROR, DIGIT_ONE] {
                Ok((FrameView::Null, end + 2))
            } else {
                Err(Fault::InvalidNull)
            },
            None => Err(Fault::Incomplete),
        }
    } else {
        match unsigned_at(s, pos) {
            Ok((len, start)) => if start + len + 2 > s.len() {
                Err(Fault::Incomplete)
            } else if s[start + len] == CR && s[start + len + 1] == LF {
                Ok((FrameView::Bulk(s.subrange(start, start + len)), start + len + 2))
            } else {
                Err(Fault::InvalidBulk)
            },
            Err(fault) => Err(fault),
        }
    }
}

/// Where the frame that starts at `pos` ends, as far as its shape shows: the
/// lines are there, the numbers read, and a list holds as many frames as it
/// announces. Whether its text is UTF-8 is not asked.
pub open spec fn extent(s: Seq<u8>, pos: int) -> Result<int, Fault>
    decreases s.len() - pos, 0nat,
{
    if pos < 0 || pos >= s.len() {
        Err(Fault::Incomplete)
    } else if s[pos] == TAG_STRING || s[pos] == TAG_ERROR {
        match find_crlf(s, pos + 1) {
            Some(end) => Ok(end + 2),
            None => Err(Fault::Incomplete),
        }
    } else if s[pos] == TAG_UINT {
        match unsigned_at(s, pos + 1) {
            Ok((_, next)) => Ok(next),
            Err(fault) => Err(fault),
        }
    } else if s[pos] == TAG_INT {
        match integer_at(s, pos + 1) {
            Ok((_, next)) => Ok(next),
            Err(fault) => Err(fault),
        }
    } else if s[pos] == TAG_BULK {
        match bulk_at(s, pos + 1) {
            Ok((_, next)) => Ok(next),
            Err(fault) => Err(fault),
        }
    } else if s[pos] == TAG_ARRAY {
        match unsigned_at(s, pos + 1) {
            Ok((count, next)) => if pos < next <= s.len() {
                extent_all(s, next, count as nat)
            } else {
                Err(Fault::Incomplete)
            },
            Err(fault) => Err(fault),
        }
    } else {
        Err(Fault::InvalidFrameType(s[pos]))
    }
}

/// Where a run of `count` frames that starts at `pos` ends. The test that a
/// frame has moved the walk ahead lets the definition end; it never fails,
/// for a frame takes bytes.
pub open spec fn extent_all(s: Seq<u8>, pos: int, count: nat) -> Result<int, Fault>
    decreases s.len() - pos, count + 1,
{
    if count == 0 {
        Ok(pos)
    } else {
        match extent(s, pos) {
            Ok(next) => if pos < next <= s.len() {
                extent_all(s, next, (count - 1) as nat)
            } else {
                Err(Fault::Incomplete)
            },
            Err(fault) => Err(fault),
        }
    }
}

/// The frame that starts at `pos`, and where the next one starts.
pub open spec fn scan(s: Seq<u8>, pos: int) -> Result<(FrameView, int), Fault>
    decreases s.len() - pos, 0nat,
{
    if pos < 0 || pos >= s.len() {
        Err(Fault::Incomplete)
    } else if s[pos] == TAG_STRING {
        match text_at(s, pos + 1) {
            Ok((text, next)) => Ok((FrameView::String(text), next)),
            Err(fault) => Err(fault),
        }
    } else if s[pos] == TAG_ERROR {
        match text_at(s, pos + 1) {
            Ok((text, next)) => Ok((FrameView::Error(text), next)),
            Err(fault) => Err(fault),
        }
    } else if s[pos] == TAG_UINT {
        match unsigned_at(s, pos + 1) {
            Ok((value, next)) => Ok((FrameView::UInt(value), next)),
            Err(fault) => Err(fault),
        }
    } else if s[pos] == TAG_INT {
        match integer_at(s, pos + 1) {
            Ok((value, next)) => Ok((FrameView::Int(value), next)),
            Err(fault) => Err(fault),
        }
    } else if s[pos] == TAG_BULK {
        bulk_at(s, pos + 1)
    } else if s[pos] == TAG_ARRAY {
        match unsigned_at(s, pos + 1) {
            Ok((count, next)) => if count > usize::MAX {
                Err(Fault::InvalidLength)
            } else if pos < next <= s.len() {
                match scan_all(s, next, count as nat) {
                    Ok((items, end)) => Ok((FrameView::Array(items), end)),
                    Err(fault) => Err(fault),
                }
            } else {
                Err(Fault::Incomplete)
            },
            Err(fault) => Err(fault),
        }
    } else {
        Err(Fault::InvalidFrameType(s[pos]))
    }
}

/// The run of `count` frames that starts at `pos`, and where the next frame
/// starts. The test that a frame has moved the walk ahead lets the definition
/// end; it never fails, for a frame takes bytes.
pub open spec fn scan_all(s: Seq<u8>, pos: int, count: nat) -> Result<(Seq<FrameView>, int), Fault>
    decreases s.len() - pos, count + 1,
{
    if count == 0 {
        Ok((Seq::empty(), pos))
    } else {
        match scan(s, pos) {
            Ok((first, next)) => if pos < next <= s.len() {
                match scan_all(s, next, (count - 1) as nat) {
                    Ok((rest, end)) => Ok((seq![first] + rest, end)),
                    Err(fault) => Err(fault),
                }
            } else {
                Err(Fault::Incomplete)
            },
            Err(fault) => Err(fault),
        }
    }
}

/// Reads `bytes` as UTF-8 with `String::from_utf8`.
///
/// Trusted: std documents that the call succeeds exactly on valid UTF-8, and
/// that the string then holds the characters that the bytes encode.
#[verifier::external_body]
pub(crate) fn text_from_utf8(bytes: Vec<u8>) -> (r: Option<String>)
    ensures
        match r {
            Some(text) => valid_utf8(bytes@) && text@ == decode_utf8(bytes@),
            None => !valid_utf8(bytes@),
        },
{
    String::from_utf8(bytes).ok()
}

/// A position in a run of bytes that is being read.
pub struct Cursor<'a> {
    /// The bytes.
    pub buf: &'a [u8],
    /// How many of them have been read.
    pub pos: u64,
}

impl<'a> Cursor<'a> {
    /// A cursor at the start of `buf`.
    pub fn new(buf: &'a [u8]) -> (r: Cursor<'a>)
        ensures
            r.buf@ == buf@,
            r.pos == 0,
    {
        Cursor { buf, pos: 0 }
    }

    /// How many bytes have been read.
    pub fn position(&self) -> (r: u64)
        ensures
            r == self.pos,
    {
        self.pos
    }

    /// Moves the cursor to `pos`.
    pub fn set_position(&mut self, pos: u64)
        ensures
            final(self).buf@ == old(self).buf@,
            final(self).pos == pos,
    {
        self.pos = pos;
    }

    /// The bytes that the cursor walks, read or not.
    pub fn get_ref(&self) -> (r: &'a [u8])
        ensures
            r@ == self.buf@,
    {
        self.buf
    }

    /// Whether any byte is left to read.
    pub fn has_remaining(&self) -> (r: bool)
        ensures
            r == (self.pos < self.buf@.len()),
    {
        self.pos < self.buf.len() as u64
    }
}

/// Appends `src` to `dst`.
fn append(dst: &mut Vec<u8>, src: &[u8])
    ensures
        final(dst)@ == old(dst)@ + src@,
{
    dst.extend_from_slice(src);
    assert(final(dst)@ =~= old(dst)@ + src@);
}

/// Finds the first end of a record at or after `from`.
fn find_line_end(buf: &[u8], from: usize) -> (r: Option<usize>)
    ensures
        match find_crlf(buf@, from as int) {
            Some(end) => r == Some(end as usize) && from <= end && end + 2 <= buf.len(),
            None => r is None,
        },
{
    let len = buf.len();
    if len < 2 {
        return None;
    }
    let mut i = from;
    while i < len - 1
        invariant
            from <= i,
            len == buf.len(),
            len >= 2,
            find_crlf(buf@, from as int) == find_crlf(buf@, i as int),
        decreases len - i,
    {
        if buf[i] == CR && buf[i + 1] == LF {
            return Some(i);
        }
        i += 1;
    }
    None
}

/// Finds the end of the line that starts at the cursor, hands the line out
/// without its end, and moves the cursor behind the end. Where no line ends,
/// the cursor stays.
pub fn get_line<'a>(src: &mut Cursor<'a>) -> (r: Result<&'a [u8], Error>)
    ensures
        final(src).buf@ == old(src).buf@,
        match find_crlf(old(src).buf@, old(src).pos as int) {
            Some(end) => r matches Ok(line) && line@ == old(src).buf@.subrange(
                old(src).pos as int,
                end,
            ) && final(src).pos == end + 2,
            None => r matches Err(e) && e.reports(Fault::Incomplete) && final(src).pos == old(
                src,
            ).pos,
        },
{
    let buf = src.buf;
    if src.pos >= buf.len() as u64 {
        return Err(Error::from_fault(Fault::Incomplete));
    }
    let start = src.pos as usize;
    match find_line_end(buf, start) {
        Some(end) => {
            src.pos = (end + 2) as u64;
            Ok(slice_subrange(buf, start, end))
        },
        None => Err(Error::from_fault(Fault::Incomplete)),
    }
}

/// Reads the unsigned number on the line that starts at the cursor, and
/// moves the cursor behind the line, whether or not a number stands on it.
pub fn get_unsigned(src: &mut Cursor) -> (r: Result<u64, Error>)
    ensures
        final(src).buf@ == old(src).buf@,
        final(src).pos == match find_crlf(old(src).buf@, old(src).pos as int) {
            Some(end) => end + 2,
            None => old(src).pos as int,
        },
        match unsigned_at(old(src).buf@, old(src).pos as int) {
            Ok((value, _)) => r == Ok::<u64, Error>(value),
            Err(fault) => r matches Err(e) && e.reports(fault),
        },
{
    match get_line(src) {
        Ok(line) => match atoi_unsigned(line) {
            Some(value) => Ok(value),
            None => Err(Error::from_fault(Fault::InvalidUnsigned)),
        },
        Err(e) => Err(e),
    }
}

/// Reads the signed number on the line that starts at the cursor, and moves
/// the cursor behind the line, whether or not a number stands on it.
pub fn get_integer(src: &mut Cursor) -> (r: Result<i64, Error>)
    ensures
        final(src).buf@ == old(src).buf@,
        final(src).pos == match find_crlf(old(src).buf@, old(src).pos as int) {
            Some(end) => end + 2,
            None => old(src).pos as int,
        },
        match integer_at(old(src).buf@, old(src).pos as int) {
            Ok((value, _)) => r == Ok::<i64, Error>(value),
            Err(fault) => r matches Err(e) && e.reports(fault),
        },
{
    match get_line(src) {
        Ok(line) => match atoi_integer(line) {
            Some(value) => Ok(value),
            None => Err(Error::from_fault(Fault::InvalidInteger)),
        },
        Err(e) => Err(e),
    }
}

/// Reads the unsigned number on the line that starts at `pos`.
fn read_unsigned(buf: &[u8], pos: usize) -> (r: Result<(u64, usize), Error>)
    ensures
        match unsigned_at(buf@, pos as int) {
            Ok((value, next)) => r == Ok::<(u64, usize), Error>((value, next as usize)) && pos
                < next <= buf.len(),
            Err(fault) => r matches Err(e) && e.reports(fault),
        },
{
    match find_line_end(buf, pos) {
        Some(end) => match atoi_unsigned(slice_subrange(buf, pos, end)) {
            Some(value) => Ok((value, end + 2)),
            None => Err(Error::from_fault(Fault::InvalidUnsigned)),
        },
        None => Err(Error::from_fault(Fault::Incomplete)),
    }
}

/// Reads the signed number on the line that starts at `pos`.
fn read_integer(buf: &[u8], pos: usize) -> (r: Result<(i64, usize), Error>)
    ensures
        match integer_at(buf@, pos as int) {
            Ok((value, next)) => r == Ok::<(i64, usize), Error>((value, next as usize)) && pos
                < next <= buf.len(),
            Err(fault) => r matches Err(e) && e.reports(fault),
        },
{
    match find_line_end(buf, pos) {
        Some(end) => match atoi_integer(slice_subrange(buf, pos, end)) {
            Some(value) => Ok((value, end + 2)),
            None => Err(Error::from_fault(Fault::InvalidInteger)),
        },
        None => Err(Error::from_fault(Fault::Incomplete)),
    }
}

/// Reads the text on the line that starts at `pos`.
fn read_text(buf: &[u8], pos: usize) -> (r: Result<(String, usize), Error>)
    ensures
        match text_at(buf@, pos as int) {
            Ok((text, next)) => r matches Ok((found, n)) && found@ == text && n == next && pos
                < n <= buf.len(),
            Err(fault) => r matches Err(e) && e.reports(fault),
        },
{
    match find_line_end(buf, pos) {
        Some(end) => match text_from_utf8(slice_to_vec(slice_subrange(buf, pos, end))) {
            Some(text) => Ok((text, end + 2)),
            None => Err(Error::from_fault(Fault::InvalidText)),
        },
        None => Err(Error::from_fault(Fault::Incomplete)),
    }
}

/// Reads the bulk or empty frame whose tag stands just before `pos`.
fn read_bulk(buf: &[u8], pos: usize) -> (r: Result<(Frame, usize), Error>)
    ensures
        match bulk_at(buf@, pos as int) {
            Ok((value, next)) => r matches Ok((frame, n)) && frame@ == value && n == next && pos
                < n <= buf.len(),
            Err(fault) => r matches Err(e) && e.reports(fault),
        },
{
    if pos >= buf.len() {
        return Err(Error::from_fault(Fault::Incomplete));
    }
    if buf[pos] == TAG_ERROR {
        match find_line_end(buf, pos) {
            Some(end) => {
                let line = slice_subrange(buf, pos, end);
                if line.len() == 2 && line[0] == TAG_ERROR && line[1] == DIGIT_ONE {
                    assert(line@ =~= seq![TAG_ERROR, DIGIT_ONE]);
                    Ok((Frame::Null, end + 2))
                } else {
                    Err(Error::from_fault(Fault::InvalidNull))
                }
            },
            None => Err(Error::from_fault(Fault::Incomplete)),
        }
    } else {
        match read_unsigned(buf, pos) {
            Ok((len, start)) => {
                let left = buf.len() - start;
                if left < 2 || len > (left - 2) as u64 {
                    return Err(Error::from_fault(Fault::Incomplete));
                }
                let end = start + len as usize;
                if buf[end] == CR && buf[end + 1] == LF {
                    let data = bytes_from_slice(slice_subrange(buf, start, end));
                    Ok((Frame::Bulk(data), end + 2))
                } else {
                    Err(Error::from_fault(Fault::InvalidBulk))
                }
            },
            Err(e) => Err(e),
        }
    }
}

/// Walks the frame that starts at `pos` without building it.
fn check_at(buf: &[u8], pos: usize) -> (r: Result<usize, Error>)
    ensures
        match extent(buf@, pos as int) {
            Ok(next) => r == Ok::<usize, Error>(next as usize) && pos < next <= buf.len(),
            Err(fault) => r matches Err(e) && e.reports(fault),
        },
    decreases buf.len() - pos,
{
    if pos >= buf.len() {
        return Err(Error::from_fault(Fault::Incomplete));
    }
    let tag = buf[pos];
    if tag == TAG_STRING || tag == TAG_ERROR {
        match find_line_end(buf, pos + 1) {
            Some(end) => Ok(end + 2),
            None => Err(Error::from_fault(Fault::Incomplete)),
        }
    } else if tag == TAG_UINT {
        match read_unsigned(buf, pos + 1) {
            Ok((_, next)) => Ok(next),
            Err(e) => Err(e),
        }
    } else if tag == TAG_INT {
        match read_integer(buf, pos + 1) {
            Ok((_, next)) => Ok(next),
            Err(e) => Err(e),
        }
    } else if tag == TAG_BULK {
        match read_bulk(buf, pos + 1) {
            Ok((_, next)) => Ok(next),
            Err(e) => Err(e),
        }
    } else if tag == TAG_ARRAY {
        match read_unsigned(buf, pos + 1) {
            Ok((count, start)) => {
                let mut at = start;
                let mut done: u64 = 0;
                while done < count
                    invariant
                        pos < at <= buf.len(),
                        done <= count,
                        extent(buf@, pos as int) == extent_all(
                            buf@,
                            at as int,
                            (count - done) as nat,
                        ),
                    decreases count - done,
                {
                    match check_at(buf, at) {
                        Ok(next) => {
                            at = next;
                            done += 1;
                        },
                        Err(e) => {
                            return Err(e);
                        },
                    }
                }
                Ok(at)
            },
            Err(e) => Err(e),
        }
    } else {
        Err(Error::from_fault(Fault::InvalidFrameType(tag)))
    }
}

/// Builds the frame that starts at `pos`.
fn parse_at(buf: &[u8], pos: usize) -> (r: Result<(Frame, usize), Error>)
    ensures
        match scan(buf@, pos as int) {
            Ok((value, next)) => r matches Ok((frame, n)) && frame@ == value && n == next && pos
                < n <= buf.len(),
            Err(fault) => r matches Err(e) && e.reports(fault),
        },
    decreases buf.len() - pos,
{
    if pos >= buf.len() {
        return Err(Error::from_fault(Fault::Incomplete));
    }
    let tag = buf[pos];
    if tag == TAG_STRING {
        match read_text(buf, pos + 1) {
            Ok((text, next)) => Ok((Frame::String(text), next)),
            Err(e) => Err(e),
        }
    } else if tag == TAG_ERROR {
        match read_text(buf, pos + 1) {
            Ok((text, next)) => Ok((Frame::Error(text), next)),
            Err(e) => Err(e),
        }
    } else if tag == TAG_UINT {
        match read_unsigned(buf, pos + 1) {
            Ok((value, next)) => Ok((Frame::UInt(value), next)),
            Err(e) => Err(e),
        }
    } else if tag == TAG_INT {
        match read_integer(buf, pos + 1) {
            Ok((value, next)) => Ok((Frame::Int(value), next)),
            Err(e) => Err(e),
        }
    } else if tag == TAG_BULK {
        read_bulk(buf, pos + 1)
    } else if tag == TAG_ARRAY {
        match read_unsigned(buf, pos + 1) {
            Ok((count, start)) => {
                if count > usize::MAX as u64 {
                    return Err(Error::from_fault(Fault::InvalidLength));
                }
                let mut frames: Vec<Frame> = Vec::new();
                let mut at = start;
                let mut done: u64 = 0;
                while done < count
                    invariant
                        pos < at <= buf.len(),
                        done <= count,
                        scan(buf@, pos as int) == (match scan_all(
                            buf@,
                            start as int,
                            count as nat,
                        ) {
                            Ok((items, end)) => Ok::<(FrameView, int), Fault>(
                                (FrameView::Array(items), end),
                            ),
                            Err(fault) => Err(fault),
                        }),
                        scan_all(buf@, start as int, count as nat) == (match scan_all(
                            buf@,
                            at as int,
                            (count - done) as nat,
                        ) {
                            Ok((rest, end)) => Ok::<(Seq<FrameView>, int), Fault>(
                                (frames_view(frames@) + rest, end),
                            ),
                            Err(fault) => Err(fault),
                        }),
                    decreases count - done,
                {
                    match parse_at(buf, at) {
                        Ok((frame, next)) => {
                            proof {
                                let rest = scan_all(buf@, next as int, (count - done - 1) as nat);
                                if rest is Ok {
                                    assert(frames_view(frames@.push(frame)) + rest->Ok_0.0
                                        =~= frames_view(frames@) + (seq![frame@] + rest->Ok_0.0));
                                }
                            }
                            frames.push(frame);
                            at = next;
                            done += 1;
                        },
                        Err(e) => {
                            return Err(e);
                        },
                    }
                }
                assert(frames_view(frames@) + Seq::<FrameView>::empty() =~= frames_view(frames@));
                Ok((Frame::Array(frames), at))
            },
            Err(e) => Err(e),
        }
    } else {
        Err(Error::from_fault(Fault::InvalidFrameType(tag)))
    }
}

/// Appends the decimal digits of `val` and the end of the record.
pub fn write_unsigned(dst: &mut Vec<u8>, val: u64)
    ensures
        final(dst)@ == old(dst)@ + decimal(val as nat) + crlf(),
{
    push_decimal(dst, val);
    dst.push(CR);
    dst.push(LF);
    assert(final(dst)@ =~= old(dst)@ + decimal(val as nat) + crlf());
}

/// Appends the decimal text of `val` and the end of the record.
pub fn write_integer(dst: &mut Vec<u8>, val: i64)
    ensures
        final(dst)@ == old(dst)@ + signed_decimal(val as int) + crlf(),
{
    push_signed_decimal(dst, val);
    dst.push(CR);
    dst.push(LF);
    assert(final(dst)@ =~= old(dst)@ + signed_decimal(val as int) + crlf());
}

impl Frame {
    /// An empty list.
    pub fn array() -> (r: Frame)
        ensures
            r@ == FrameView::Array(Seq::empty()),
    {
        let r = Frame::Array(Vec::new());
        assert(frames_view(Seq::<Frame>::empty()) =~= Seq::<FrameView>::empty());
        r
    }

    /// Adds a line of text to the end of a list; any other frame refuses.
    pub fn push_string(&mut self, s: String) -> (r: Result<(), Error>)
        ensures
            pushed(old(self)@, FrameView::String(s@), final(self)@, r),
    {
        self.push_frame(Frame::String(s))
    }

    /// Adds a signed integer to the end of a list; any other frame refuses.
    pub fn push_integer(&mut self, i: i64) -> (r: Result<(), Error>)
        ensures
            pushed(old(self)@, FrameView::Int(i), final(self)@, r),
    {
        self.push_frame(Frame::Int(i))
    }

    /// Adds an unsigned integer to the end of a list; any other frame refuses.
    pub fn push_unsigned(&mut self, u: u64) -> (r: Result<(), Error>)
        ensures
            pushed(old(self)@, FrameView::UInt(u), final(self)@, r),
    {
        self.push_frame(Frame::UInt(u))
    }

    /// Adds a frame to the end of a list; any other frame refuses.
    pub fn push_frame(&mut self, f: Frame) -> (r: Result<(), Error>)
        ensures
            pushed(old(self)@, f@, final(self)@, r),
    {
        match self {
            Frame::Array(vec) => {
                assert(frames_view(vec@.push(f)) =~= frames_view(vec@).push(f@));
                vec.push(f);
                Ok(())
            },
            _ => Err(Error::InvalidFrameType { detail: String::from_str("Expected Frame Type Array") }),
        }
    }

    /// Walks one frame from the cursor on, to see that all of it is there,
    /// and leaves the cursor behind it. On an error the cursor stays.
    pub fn check(src: &mut Cursor) -> (r: Result<(), Error>)
        ensures
            final(src).buf@ == old(src).buf@,
            match extent(old(src).buf@, old(src).pos as int) {
                Ok(next) => r is Ok && final(src).pos == next && next <= old(src).buf@.len(),
                Err(fault) => r matches Err(e) && e.reports(fault) && final(src).pos == old(
                    src,
                ).pos,
            },
    {
        if src.pos >= src.buf.len() as u64 {
            return Err(Error::from_fault(Fault::Incomplete));
        }
        match check_at(src.buf, src.pos as usize) {
            Ok(next) => {
                src.pos = next as u64;
                Ok(())
            },
            Err(e) => Err(e),
        }
    }

    /// Builds the frame that starts at the cursor and leaves the cursor
    /// behind it. On an error the cursor stays.
    pub fn parse(src: &mut Cursor) -> (r: Result<Frame, Error>)
        ensures
            final(src).buf@ == old(src).buf@,
            match scan(old(src).buf@, old(src).pos as int) {
                Ok((value, next)) => r matches Ok(frame) && frame@ == value && final(src).pos
                    == next && next <= old(src).buf@.len(),
                Err(fault) => r matches Err(e) && e.reports(fault) && final(src).pos == old(
                    src,
                ).pos,
            },
    {
        if src.pos >= src.buf.len() as u64 {
            return Err(Error::from_fault(Fault::Incomplete));
        }
        match parse_at(src.buf, src.pos as usize) {
            Ok((frame, next)) => {
                src.pos = next as u64;
                Ok(frame)
            },
            Err(e) => Err(e),
        }
    }

    /// Appends the bytes of the frame to `dst`. It cannot fail.
    pub fn write(&self, dst: &mut Vec<u8>) -> (r: Result<(), Error>)
        ensures
            r is Ok,
            final(dst)@ == old(dst)@ + wire(self@),
    {
        self.write_value(dst);
        Ok(())
    }

    /// Appends the bytes of the frame to `dst`, a list item by item.
    pub fn write_value(&self, dst: &mut Vec<u8>)
        ensures
            final(dst)@ == old(dst)@ + wire(self@),
        decreases self,
    {
        match self {
            Frame::String(val) => {
                dst.push(TAG_STRING);
                append(dst, val.as_str().as_bytes());
                dst.push(CR);
                dst.push(LF);
                assert(final(dst)@ =~= old(dst)@ + wire(self@));
            },
            Frame::Error(val) => {
                dst.push(TAG_ERROR);
                append(dst, val.as_str().as_bytes());
                dst.push(CR);
                dst.push(LF);
                assert(final(dst)@ =~= old(dst)@ + wire(self@));
            },
            Frame::UInt(val) => {
                dst.push(TAG_UINT);
                write_unsigned(dst, *val);
                assert(final(dst)@ =~= old(dst)@ + wire(self@));
            },
            Frame::Int(val) => {
                dst.push(TAG_INT);
                write_integer(dst, *val);
                assert(final(dst)@ =~= old(dst)@ + wire(self@));
            },
            Frame::Null => {
                dst.push(TAG_BULK);
                dst.push(TAG_ERROR);
                dst.push(DIGIT_ONE);
                dst.push(CR);
                dst.push(LF);
                assert(final(dst)@ =~= old(dst)@ + wire(self@));
            },
            Frame::Bulk(val) => {
                let data = bytes_as_slice(val);
                dst.push(TAG_BULK);
                write_unsigned(dst, data.len() as u64);
                append(dst, data);
                dst.push(CR);
                dst.push(LF);
                assert(final(dst)@ =~= old(dst)@ + wire(self@));
            },
            Frame::Array(val) => {
                dst.push(TAG_ARRAY);
                write_unsigned(dst, val.len() as u64);
                let ghost head = dst@;
                let ghost items = frames_view(val@);
                assert(head =~= old(dst)@ + seq![TAG_ARRAY] + decimal(items.len()) + crlf());
                assert(items.take(0) =~= Seq::<FrameView>::empty());
                let mut i: usize = 0;
                while i < val.len()
                    invariant
                        decreases_to!(self => val),
                        items == frames_view(val@),
                        i <= val.len(),
                        dst@ == head + wire_all(items.take(i as int)),
                    decreases val.len() - i,
                {
                    proof {
                        vstd::std_specs::vec::axiom_vec_index_decreases(*val, i as int);
                        assert(items.take(i + 1).drop_last() =~= items.take(i as int));
                        assert(items.take(i + 1).last() == val[i as int]@);
                    }
                    val[i].write_value(dst);
                    i += 1;
                }
                assert(items.take(i as int) =~= items);
                assert(final(dst)@ =~= old(dst)@ + wire(self@));
            },
        }
    }
}

/// What adding `item` to the frame `before` gives: a list grows by the item;
/// any other frame stays as it is and the call fails.
pub open spec fn pushed(before: FrameView, item: FrameView, after: FrameView, r: Result<(), Error>) -> bool {
    match before {
        FrameView::Array(items) => r is Ok && after == FrameView::Array(items.push(item)),
        _ => {
            &&& after == before
            &&& r matches Err(Error::InvalidFrameType { detail })
            &&& detail@ == "Expected Frame Type Array"@
        },
    }
}

} // verus!
