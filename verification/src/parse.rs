//! A cursor over the frames of a list, from which the messages are read.

use crate::frame::frames_view;
use crate::frame::Frame;
use crate::frame::FrameView;
use vstd::prelude::*;
use vstd::string::StringExecFns;

verus! {

/// The frames of a list that are still to be read, first to last.
#[derive(Debug)]
pub struct Parse {
    parts: Vec<Frame>,
}

impl View for Parse {
    type V = Seq<FrameView>;

    closed spec fn view(&self) -> Seq<FrameView> {
        frames_view(self.parts@)
    }
}

/// Why a frame could not be read from a list.
#[derive(Debug)]
pub enum Error {
    /// The list holds no further frame.
    EndOfStream,
    /// The list holds a frame too many.
    UnexpectedFrame,
    /// A frame of another kind was due.
    InvalidFrameType {
        /// Which kind was due.
        detail: String,
        /// The frame that was found.
        frame: Frame,
    },
}

/// What a parse error is, as a mathematical value.
pub enum ErrorView {
    /// The list holds no further frame.
    EndOfStream,
    /// The list holds a frame too many.
    UnexpectedFrame,
    /// A frame of another kind was due.
    InvalidFrameType {
        /// Which kind was due.
        detail: Seq<char>,
        /// The frame that was found.
        frame: FrameView,
    },
}

impl View for Error {
    type V = ErrorView;

    open spec fn view(&self) -> ErrorView {
        match self {
            Error::EndOfStream => ErrorView::EndOfStream,
            Error::UnexpectedFrame => ErrorView::UnexpectedFrame,
            Error::InvalidFrameType { detail, frame } => ErrorView::InvalidFrameType {
                detail: detail@,
                frame: frame@,
            },
        }
    }
}

impl Error {
    /// The error as a line of text.
    pub open spec fn text(&self) -> Seq<char> {
        match self {
            Error::EndOfStream => "Unexpected End Of Stream"@,
            Error::UnexpectedFrame => "Unexpected Frame"@,
            Error::InvalidFrameType { detail, .. } => "Invalid Frame Type: "@ + detail@,
        }
    }

    /// The error as a line of text.
    pub fn to_string(&self) -> (r: String)
        ensures
            r@ == self.text(),
    {
        match self {
            Error::EndOfStream => String::from_str("Unexpected End Of Stream"),
            Error::UnexpectedFrame => String::from_str("Unexpected Frame"),
            Error::InvalidFrameType { detail, .. } => {
                let mut text = String::from_str("Invalid Frame Type: ");
                text.append(detail.as_str());
                text
            },
        }
    }
}

/// What reading one value from the front of a list gives: the value or the
/// reason why there is none, and the frames that are left.
pub struct Taken<T> {
    /// The value, or why there is none.
    pub value: Result<T, ErrorView>,
    /// The frames that are left.
    pub rest: Seq<FrameView>,
}

/// Reading the first frame of `items`: an empty list has none.
pub open spec fn first_frame(items: Seq<FrameView>) -> Taken<FrameView> {
    if items.len() == 0 {
        Taken { value: Err(ErrorView::EndOfStream), rest: items }
    } else {
        Taken { value: Ok(items[0]), rest: items.drop_first() }
    }
}

/// Reading a text from the front of `items`: the first frame is taken, and
/// has to be a string.
pub open spec fn first_string(items: Seq<FrameView>) -> Taken<Seq<char>> {
    let first = first_frame(items);
    match first.value {
        Ok(FrameView::String(text)) => Taken { value: Ok(text), rest: first.rest },
        Ok(frame) => Taken {
            value: Err(ErrorView::InvalidFrameType { detail: "Expected String Frame"@, frame }),
            rest: first.rest,
        },
        Err(e) => Taken { value: Err(e), rest: first.rest },
    }
}

/// Reading a signed integer from the front of `items`: the first frame is
/// taken, and has to be one.
pub open spec fn first_integer(items: Seq<FrameView>) -> Taken<i64> {
    let first = first_frame(items);
    match first.value {
        Ok(FrameView::Int(value)) => Taken { value: Ok(value), rest: first.rest },
        Ok(frame) => Taken {
            value: Err(ErrorView::InvalidFrameType { detail: "Expected Int Frame"@, frame }),
            rest: first.rest,
        },
        Err(e) => Taken { value: Err(e), rest: first.rest },
    }
}

/// Reading an unsigned integer from the front of `items`: the first frame is
/// taken, and has to be one.
pub open spec fn first_unsigned(items: Seq<FrameView>) -> Taken<u64> {
    let first = first_frame(items);
    match first.value {
        Ok(FrameView::UInt(value)) => Taken { value: Ok(value), rest: first.rest },
        Ok(frame) => Taken {
            value: Err(ErrorView::InvalidFrameType { detail: "Expected UInt Frame"@, frame }),
            rest: first.rest,
        },
        Err(e) => Taken { value: Err(e), rest: first.rest },
    }
}

/// Seeing that nothing is left in `items`: a frame that is left is taken.
pub open spec fn finished(items: Seq<FrameView>) -> Taken<()> {
    if items.len() == 0 {
        Taken { value: Ok(()), rest: items }
    } else {
        Taken { value: Err(ErrorView::UnexpectedFrame), rest: items.drop_first() }
    }
}

impl Parse {
    /// A cursor over the frames of `frame`, which has to be a list.
    pub fn new(frame: Frame) -> (r: Result<Parse, Error>)
        ensures
            match frame@ {
                FrameView::Array(items) => r matches Ok(parse) && parse@ == items,
                other => r matches Err(e) && e@ == (ErrorView::InvalidFrameType {
                    detail: "Expected Array Frame"@,
                    frame: other,
                }),
            },
    {
        match frame {
            Frame::Array(array) => Ok(Parse { parts: array }),
            frame => Err(
                Error::InvalidFrameType { detail: String::from_str("Expected Array Frame"), frame },
            ),
        }
    }

    /// Takes the next frame.
    pub fn next_frame(&mut self) -> (r: Result<Frame, Error>)
        ensures
            final(self)@ == first_frame(old(self)@).rest,
            match first_frame(old(self)@).value {
                Ok(value) => r matches Ok(frame) && frame@ == value,
                Err(fault) => r matches Err(e) && e@ == fault,
            },
    {
        if self.parts.len() == 0 {
            return Err(Error::EndOfStream);
        }
        let frame = self.parts.remove(0);
        assert(frames_view(self.parts@) =~= frames_view(old(self).parts@).drop_first());
        Ok(frame)
    }

    /// Takes the next frame, which has to be a string, and hands out its text.
    pub fn next_string(&mut self) -> (r: Result<String, Error>)
        ensures
            final(self)@ == first_string(old(self)@).rest,
            match first_string(old(self)@).value {
                Ok(value) => r matches Ok(text) && text@ == value,
                Err(fault) => r matches Err(e) && e@ == fault,
            },
    {
        match self.next_frame() {
            Ok(Frame::String(s)) => Ok(s),
            Ok(frame) => Err(
                Error::InvalidFrameType { detail: String::from_str("Expected String Frame"), frame },
            ),
            Err(e) => Err(e),
        }
    }

    /// Takes the next frame, which has to be a signed integer, and hands out its value.
    pub fn next_integer(&mut self) -> (r: Result<i64, Error>)
        ensures
            final(self)@ == first_integer(old(self)@).rest,
            match first_integer(old(self)@).value {
                Ok(value) => r == Ok::<i64, Error>(value),
                Err(fault) => r matches Err(e) && e@ == fault,
            },
    {
        match self.next_frame() {
            Ok(Frame::Int(i)) => Ok(i),
            Ok(frame) => Err(
                Error::InvalidFrameType { detail: String::from_str("Expected Int Frame"), frame },
            ),
            Err(e) => Err(e),
        }
    }

    /// Takes the next frame, which has to be an unsigned integer, and hands out its value.
    pub fn next_unsigned(&mut self) -> (r: Result<u64, Error>)
        ensures
            final(self)@ == first_unsigned(old(self)@).rest,
            match first_unsigned(old(self)@).value {
                Ok(value) => r == Ok::<u64, Error>(value),
                Err(fault) => r matches Err(e) && e@ == fault,
            },
    {
        match self.next_frame() {
            Ok(Frame::UInt(u)) => Ok(u),
            Ok(frame) => Err(
                Error::InvalidFrameType { detail: String::from_str("Expected UInt Frame"), frame },
            ),
            Err(e) => Err(e),
        }
    }

    /// Succeeds where no frame is left; a frame that is left is taken.
    pub fn finish(&mut self) -> (r: Result<(), Error>)
        ensures
            final(self)@ == finished(old(self)@).rest,
            match finished(old(self)@).value {
                Ok(_) => r is Ok,
                Err(fault) => r matches Err(e) && e@ == fault,
            },
    {
        match self.next_frame() {
            Ok(_) => Err(Error::UnexpectedFrame),
            Err(_) => Ok(()),
        }
    }
}

} // verus!
