//! The request for the addresses that the other side knows.

use super::error::framed;
use super::error::read_as;
use super::error::Error;
use crate::frame::Frame;
use crate::frame::FrameView;
use crate::parse::Parse;
use crate::parse::Taken;
use vstd::prelude::*;
use vstd::string::StringExecFns;

verus! {

/// The request for the addresses that the other side knows. It carries nothing.
#[derive(Debug)]
pub struct ContactRequest;

/// The message as a mathematical value.
pub struct ContactRequestView;

impl View for ContactRequest {
    type V = ContactRequestView;

    open spec fn view(&self) -> ContactRequestView {
        ContactRequestView
    }
}

impl ContactRequest {
    /// The opcode of the message.
    pub open spec fn opcode() -> Seq<char> {
        "CTCT_REQ"@
    }

    /// The payload read from the front of `items`: nothing.
    pub open spec fn parsed(items: Seq<FrameView>) -> Taken<ContactRequestView> {
        Taken { value: Ok(ContactRequestView), rest: items }
    }

    /// The frame that carries the message: the opcode alone.
    pub open spec fn frame_of(message: ContactRequestView) -> FrameView {
        FrameView::Array(seq![FrameView::String(Self::opcode())])
    }

    /// Reads the payload from the cursor, which stands behind the opcode.
    pub fn parse_frames(parse: &mut Parse) -> (r: Result<ContactRequest, Error>)
        ensures
            final(parse)@ == Self::parsed(old(parse)@).rest,
            read_as(r, Self::parsed(old(parse)@).value),
    {
        Ok(ContactRequest)
    }

    /// The frame that carries the message. It cannot fail.
    pub fn into_frame(self) -> (r: Result<Frame, Error>)
        ensures
            r matches Ok(frame) && frame@ == Self::frame_of(self@),
    {
        let mut frame = Frame::array();
        framed(frame.push_string(String::from_str("CTCT_REQ")))?;
        assert(frame@->Array_0 =~= Self::frame_of(self@)->Array_0);
        Ok(frame)
    }
}

} // verus!
