//! The request that opens a handshake.

use super::error::framed;
use super::error::read_as;
use super::error::take_string;
use super::error::Error;
use crate::frame::Frame;
use crate::frame::FrameView;
use crate::parse::first_string;
use crate::parse::Parse;
use crate::parse::Taken;
use vstd::prelude::*;
use vstd::string::StringExecFns;

verus! {

/// What the initiator of a connection says of itself.
#[derive(Debug)]
pub struct ConnRequest {
    /// The id of the initiator's controller.
    pub id: String,
    /// The label of the initiator's controller.
    pub label: String,
    /// The address on which the initiator's controller listens, so that the responder can dial back.
    pub address: String,
}

/// The message as a mathematical value.
pub struct ConnRequestView {
    /// The id of the initiator's controller.
    pub id: Seq<char>,
    /// The label of the initiator's controller.
    pub label: Seq<char>,
    /// The address on which the initiator's controller listens, so that the responder can dial back.
    pub address: Seq<char>,
}

impl View for ConnRequest {
    type V = ConnRequestView;

    open spec fn view(&self) -> ConnRequestView {
        ConnRequestView { id: self.id@, label: self.label@, address: self.address@ }
    }
}

impl ConnRequest {
    /// The opcode of the message.
    pub open spec fn opcode() -> Seq<char> {
        "CONN_REQ"@
    }

    /// The payload read from the front of `items`: a string, then a string, then a string.
    pub open spec fn parsed(items: Seq<FrameView>) -> Taken<ConnRequestView> {
        let id = first_string(items);
        let label = first_string(id.rest);
        let address = first_string(label.rest);
        if id.value is Err {
            Taken { value: Err(id.value->Err_0), rest: id.rest }
        } else if label.value is Err {
            Taken { value: Err(label.value->Err_0), rest: label.rest }
        } else if address.value is Err {
            Taken { value: Err(address.value->Err_0), rest: address.rest }
        } else {
            Taken {
                value: Ok(ConnRequestView { id: id.value->Ok_0, label: label.value->Ok_0, address: address.value->Ok_0 }),
                rest: address.rest,
            }
        }
    }

    /// The frame that carries the message: the opcode, then the payload.
    pub open spec fn frame_of(message: ConnRequestView) -> FrameView {
        FrameView::Array(
            seq![
                FrameView::String(Self::opcode()),
                FrameView::String(message.id),
                FrameView::String(message.label),
                FrameView::String(message.address),
            ],
        )
    }

    /// A message with the given fields.
    pub fn new(id: String, label: String, address: String) -> (r: ConnRequest)
        ensures
            r.id == id,
            r.label == label,
            r.address == address,
    {
        ConnRequest { id, label, address }
    }

    /// The id of the initiator's controller.
    pub fn id(&self) -> (r: &str)
        ensures
            r@ == self.id@,
    {
        self.id.as_str()
    }

    /// The label of the initiator's controller.
    pub fn label(&self) -> (r: &str)
        ensures
            r@ == self.label@,
    {
        self.label.as_str()
    }

    /// The address on which the initiator's controller listens, so that the responder can dial back.
    pub fn address(&self) -> (r: &str)
        ensures
            r@ == self.address@,
    {
        self.address.as_str()
    }

    /// Reads the payload from the cursor, which stands behind the opcode.
    pub fn parse_frames(parse: &mut Parse) -> (r: Result<ConnRequest, Error>)
        ensures
            final(parse)@ == Self::parsed(old(parse)@).rest,
            read_as(r, Self::parsed(old(parse)@).value),
    {
        let id = take_string(parse)?;
        let label = take_string(parse)?;
        let address = take_string(parse)?;
        Ok(ConnRequest { id, label, address })
    }

    /// The frame that carries the message. It cannot fail.
    pub fn into_frame(self) -> (r: Result<Frame, Error>)
        ensures
            r matches Ok(frame) && frame@ == Self::frame_of(self@),
    {
        let ConnRequest { id, label, address } = self;
        let mut frame = Frame::array();
        framed(frame.push_string(String::from_str("CONN_REQ")))?;
        framed(frame.push_string(id))?;
        framed(frame.push_string(label))?;
        framed(frame.push_string(address))?;
        assert(frame@->Array_0 =~= Self::frame_of(self@)->Array_0);
        Ok(frame)
    }
}

} // verus!
