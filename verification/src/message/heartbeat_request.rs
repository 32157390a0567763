//! The heartbeat request.

use super::error::framed;
use super::error::read_as;
use super::error::take_integer;
use super::error::take_string;
use super::error::Error;
use crate::clock::now_micros;
use crate::frame::Frame;
use crate::frame::FrameView;
use crate::parse::first_integer;
use crate::parse::first_string;
use crate::parse::Parse;
use crate::parse::Taken;
use vstd::prelude::*;
use vstd::string::StringExecFns;

verus! {

/// The question whether the other side is alive, with the time at which it was asked.
#[derive(Debug)]
pub struct HeartbeatRequest {
    /// The id of the peer that asks.
    pub id: String,
    /// The label of the peer that asks.
    pub label: String,
    /// When the request was sent, in microseconds since the Unix epoch.
    pub src: i64,
}

/// The message as a mathematical value.
pub struct HeartbeatRequestView {
    /// The id of the peer that asks.
    pub id: Seq<char>,
    /// The label of the peer that asks.
    pub label: Seq<char>,
    /// When the request was sent, in microseconds since the Unix epoch.
    pub src: i64,
}

impl View for HeartbeatRequest {
    type V = HeartbeatRequestView;

    open spec fn view(&self) -> HeartbeatRequestView {
        HeartbeatRequestView { id: self.id@, label: self.label@, src: self.src }
    }
}

impl HeartbeatRequest {
    /// The opcode of the message.
    pub open spec fn opcode() -> Seq<char> {
        "HBT_REQ"@
    }

    /// The payload read from the front of `items`: a string, then a string, then a signed integer.
    pub open spec fn parsed(items: Seq<FrameView>) -> Taken<HeartbeatRequestView> {
        let id = first_string(items);
        let label = first_string(id.rest);
        let src = first_integer(label.rest);
        if id.value is Err {
            Taken { value: Err(id.value->Err_0), rest: id.rest }
        } else if label.value is Err {
            Taken { value: Err(label.value->Err_0), rest: label.rest }
        } else if src.value is Err {
            Taken { value: Err(src.value->Err_0), rest: src.rest }
        } else {
            Taken {
                value: Ok(HeartbeatRequestView { id: id.value->Ok_0, label: label.value->Ok_0, src: src.value->Ok_0 }),
                rest: src.rest,
            }
        }
    }

    /// The frame that carries the message: the opcode, then the payload.
    pub open spec fn frame_of(message: HeartbeatRequestView) -> FrameView {
        FrameView::Array(
            seq![
                FrameView::String(Self::opcode()),
                FrameView::String(message.id),
                FrameView::String(message.label),
                FrameView::Int(message.src),
            ],
        )
    }

    /// A message with the given fields.
    pub fn new(id: String, label: String, src: i64) -> (r: HeartbeatRequest)
        ensures
            r.id == id,
            r.label == label,
            r.src == src,
    {
        HeartbeatRequest { id, label, src }
    }

    /// A request that carries the time the clock shows now.
    pub fn now(id: String, label: String) -> (r: HeartbeatRequest)
        ensures
            r.id == id,
            r.label == label,
    {
        HeartbeatRequest { id, label, src: now_micros() }
    }

    /// The id of the peer that asks.
    pub fn id(&self) -> (r: &str)
        ensures
            r@ == self.id@,
    {
        self.id.as_str()
    }

    /// The label of the peer that asks.
    pub fn label(&self) -> (r: &str)
        ensures
            r@ == self.label@,
    {
        self.label.as_str()
    }

    /// When the request was sent, in microseconds since the Unix epoch.
    pub fn src(&self) -> (r: i64)
        ensures
            r == self.src,
    {
        self.src
    }

    /// Reads the payload from the cursor, which stands behind the opcode.
    pub fn parse_frames(parse: &mut Parse) -> (r: Result<HeartbeatRequest, Error>)
        ensures
            final(parse)@ == Self::parsed(old(parse)@).rest,
            read_as(r, Self::parsed(old(parse)@).value),
    {
        let id = take_string(parse)?;
        let label = take_string(parse)?;
        let src = take_integer(parse)?;
        Ok(HeartbeatRequest { id, label, src })
    }

    /// The frame that carries the message. It cannot fail.
    pub fn into_frame(self) -> (r: Result<Frame, Error>)
        ensures
            r matches Ok(frame) && frame@ == Self::frame_of(self@),
    {
        let HeartbeatRequest { id, label, src } = self;
        let mut frame = Frame::array();
        framed(frame.push_string(String::from_str("HBT_REQ")))?;
        framed(frame.push_string(id))?;
        framed(frame.push_string(label))?;
        framed(frame.push_integer(src))?;
        assert(frame@->Array_0 =~= Self::frame_of(self@)->Array_0);
        Ok(frame)
    }
}

} // verus!
