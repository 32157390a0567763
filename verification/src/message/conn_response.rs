//! The response that completes a handshake.

use super::error::framed;
use super::error::read_as;
use super::error::take_string;
use super::error::Error;
use crate::frame::Frame;
use crate::frame::FrameView;
use crate::parse::first_string;
use crate::parse::Parse;
use crate::parse::Taken;
use vstd::prelude::*;
use vstd::string::StringExecFns;

verus! {

/// What the responder of a connection says of itself.
#[derive(Debug)]
pub struct ConnResponse {
    /// The id of the responder's controller.
    pub id: String,
    /// The label of the responder's controller.
    pub label: String,
}

/// The message as a mathematical value.
pub struct ConnResponseView {
    /// The id of the responder's controller.
    pub id: Seq<char>,
    /// The label of the responder's controller.
    pub label: Seq<char>,
}

impl View for ConnResponse {
    type V = ConnResponseView;

    open spec fn view(&self) -> ConnResponseView {
        ConnResponseView { id: self.id@, label: self.label@ }
    }
}

impl ConnResponse {
    /// The opcode of the message.
    pub open spec fn opcode() -> Seq<char> {
        "CONN_RESP"@
    }

    /// The payload read from the front of `items`: a string, then a string.
    pub open spec fn parsed(items: Seq<FrameView>) -> Taken<ConnResponseView> {
        let id = first_string(items);
        let label = first_string(id.rest);
        if id.value is Err {
            Taken { value: Err(id.value->Err_0), rest: id.rest }
        } else if label.value is Err {
            Taken { value: Err(label.value->Err_0), rest: label.rest }
        } else {
            Taken {
                value: Ok(ConnResponseView { id: id.value->Ok_0, label: label.value->Ok_0 }),
                rest: label.rest,
            }
        }
    }

    /// The frame that carries the message: the opcode, then the payload.
    pub open spec fn frame_of(message: ConnResponseView) -> FrameView {
        FrameView::Array(
            seq![
                FrameView::String(Self::opcode()),
                FrameView::String(message.id),
                FrameView::String(message.label),
            ],
        )
    }

    /// A message with the given fields.
    pub fn new(id: String, label: String) -> (r: ConnResponse)
        ensures
            r.id == id,
            r.label == label,
    {
        ConnResponse { id, label }
    }

    /// The id of the responder's controller.
    pub fn id(&self) -> (r: &str)
        ensures
            r@ == self.id@,
    {
        self.id.as_str()
    }

    /// The label of the responder's controller.
    pub fn label(&self) -> (r: &str)
        ensures
            r@ == self.label@,
    {
        self.label.as_str()
    }

    /// Reads the payload from the cursor, which stands behind the opcode.
    pub fn parse_frames(parse: &mut Parse) -> (r: Result<ConnResponse, Error>)
        ensures
            final(parse)@ == Self::parsed(old(parse)@).rest,
            read_as(r, Self::parsed(old(parse)@).value),
    {
        let id = take_string(parse)?;
        let label = take_string(parse)?;
        Ok(ConnResponse { id, label })
    }

    /// The frame that carries the message. It cannot fail.
    pub fn into_frame(self) -> (r: Result<Frame, Error>)
        ensures
            r matches Ok(frame) && frame@ == Self::frame_of(self@),
    {
        let ConnResponse { id, label } = self;
        let mut frame = Frame::array();
        framed(frame.push_string(String::from_str("CONN_RESP")))?;
        framed(frame.push_string(id))?;
        framed(frame.push_string(label))?;
        assert(frame@->Array_0 =~= Self::frame_of(self@)->Array_0);
        Ok(frame)
    }
}

} // verus!
