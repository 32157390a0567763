//! The error that reading or writing a message gives.

use crate::frame::FrameView;
use crate::parse::first_integer;
use crate::parse::first_string;
use crate::parse::first_unsigned;
use crate::parse::finished;
use crate::parse::Parse;
use vstd::prelude::*;
use vstd::string::StringExecFns;

verus! {

/// Why a message could not be read or written.
#[derive(Debug)]
#[allow(inconsistent_fields)]
pub enum Error {
    /// The frames of the message are not the ones that are due.
    Parse {
        /// What the frame cursor reported.
        source: crate::parse::Error,
    },
    /// A frame could not be built.
    Frame {
        /// What the frame reported.
        source: crate::frame::Error,
    },
    /// The opcode names no message.
    UnexpectedMessage {
        /// The opcode, in upper case.
        detail: String,
    },
}

/// What a message error is, as a mathematical value.
pub enum ErrorView {
    /// The frames of the message are not the ones that are due.
    Parse(crate::parse::ErrorView),
    /// A frame could not be built: the text of the frame's error.
    Frame(Seq<char>),
    /// The opcode, in upper case, names no message.
    UnexpectedMessage(Seq<char>),
}

impl View for Error {
    type V = ErrorView;

    open spec fn view(&self) -> ErrorView {
        match self {
            Error::Parse { source } => ErrorView::Parse(source@),
            Error::Frame { source } => ErrorView::Frame(source.heading() + source.detail()),
            Error::UnexpectedMessage { detail } => ErrorView::UnexpectedMessage(detail@),
        }
    }
}

impl Error {
    /// The error as a line of text.
    pub open spec fn text(&self) -> Seq<char> {
        match self {
            Error::Parse { source } => "Parsing Error: "@ + source.text(),
            Error::Frame { source } => "Framing Error: "@ + (source.heading() + source.detail()),
            Error::UnexpectedMessage { detail } => "Unexpected Message "@ + detail@,
        }
    }

    /// The error as a line of text.
    pub fn to_string(&self) -> (r: String)
        ensures
            r@ == self.text(),
    {
        match self {
            Error::Parse { source } => {
                let mut text = String::from_str("Parsing Error: ");
                text.append(source.to_string().as_str());
                text
            },
            Error::Frame { source } => {
                let mut text = String::from_str("Framing Error: ");
                text.append(source.to_string().as_str());
                text
            },
            Error::UnexpectedMessage { detail } => {
                let mut text = String::from_str("Unexpected Message ");
                text.append(detail.as_str());
                text
            },
        }
    }
}

/// Whether `r` is what reading a message's part gave: the value `expected`,
/// by its view, or the parse error that `expected` names.
pub open spec fn read_as<T: View>(
    r: Result<T, Error>,
    expected: Result<T::V, crate::parse::ErrorView>,
) -> bool {
    match expected {
        Ok(value) => r matches Ok(found) && found@ == value,
        Err(fault) => r matches Err(Error::Parse { source }) && source@ == fault,
    }
}

/// Takes a text from the cursor.
pub fn take_string(parse: &mut Parse) -> (r: Result<String, Error>)
    ensures
        final(parse)@ == first_string(old(parse)@).rest,
        read_as(r, first_string(old(parse)@).value),
{
    match parse.next_string() {
        Ok(text) => Ok(text),
        Err(source) => Err(Error::Parse { source }),
    }
}

/// Takes a signed integer from the cursor.
pub fn take_integer(parse: &mut Parse) -> (r: Result<i64, Error>)
    ensures
        final(parse)@ == first_integer(old(parse)@).rest,
        match first_integer(old(parse)@).value {
            Ok(value) => r == Ok::<i64, Error>(value),
            Err(fault) => r matches Err(Error::Parse { source }) && source@ == fault,
        },
{
    match parse.next_integer() {
        Ok(value) => Ok(value),
        Err(source) => Err(Error::Parse { source }),
    }
}

/// Takes an unsigned integer from the cursor.
pub fn take_unsigned(parse: &mut Parse) -> (r: Result<u64, Error>)
    ensures
        final(parse)@ == first_unsigned(old(parse)@).rest,
        match first_unsigned(old(parse)@).value {
            Ok(value) => r == Ok::<u64, Error>(value),
            Err(fault) => r matches Err(Error::Parse { source }) && source@ == fault,
        },
{
    match parse.next_unsigned() {
        Ok(value) => Ok(value),
        Err(source) => Err(Error::Parse { source }),
    }
}

/// Sees that the cursor holds no further frame.
pub fn take_end(parse: &mut Parse) -> (r: Result<(), Error>)
    ensures
        final(parse)@ == finished(old(parse)@).rest,
        match finished(old(parse)@).value {
            Ok(_) => r is Ok,
            Err(fault) => r matches Err(Error::Parse { source }) && source@ == fault,
        },
{
    match parse.finish() {
        Ok(()) => Ok(()),
        Err(source) => Err(Error::Parse { source }),
    }
}

/// What building a frame gave, as a message's result: a frame error becomes
/// the message error that holds it.
pub fn framed(r: Result<(), crate::frame::Error>) -> (out: Result<(), Error>)
    ensures
        match r {
            Ok(_) => out is Ok,
            Err(e) => out matches Err(Error::Frame { source }) && source == e,
        },
{
    match r {
        Ok(()) => Ok(()),
        Err(source) => Err(Error::Frame { source }),
    }
}

} // verus!
