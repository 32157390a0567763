//! The message that refuses a connection.

use super::error::framed;
use super::error::read_as;
use super::error::take_string;
use super::error::Error;
use crate::frame::Frame;
use crate::frame::FrameView;
use crate::parse::first_string;
use crate::parse::Parse;
use crate::parse::Taken;
use vstd::prelude::*;
use vstd::string::StringExecFns;

verus! {

/// Why a connection is refused.
#[derive(Debug)]
pub struct ConnRejection {
    /// The id of the controller that refuses.
    pub id: String,
    /// Why it refuses.
    pub reason: String,
}

/// The message as a mathematical value.
pub struct ConnRejectionView {
    /// The id of the controller that refuses.
    pub id: Seq<char>,
    /// Why it refuses.
    pub reason: Seq<char>,
}

impl View for ConnRejection {
    type V = ConnRejectionView;

    open spec fn view(&self) -> ConnRejectionView {
        ConnRejectionView { id: self.id@, reason: self.reason@ }
    }
}

impl ConnRejection {
    /// The opcode of the message.
    pub open spec fn opcode() -> Seq<char> {
        "CONN_REJECT"@
    }

    /// The payload read from the front of `items`: a string, then a string.
    pub open spec fn parsed(items: Seq<FrameView>) -> Taken<ConnRejectionView> {
        let id = first_string(items);
        let reason = first_string(id.rest);
        if id.value is Err {
            Taken { value: Err(id.value->Err_0), rest: id.rest }
        } else if reason.value is Err {
            Taken { value: Err(reason.value->Err_0), rest: reason.rest }
        } else {
            Taken {
                value: Ok(ConnRejectionView { id: id.value->Ok_0, reason: reason.value->Ok_0 }),
                rest: reason.rest,
            }
        }
    }

    /// The frame that carries the message: the opcode, then the payload.
    pub open spec fn frame_of(message: ConnRejectionView) -> FrameView {
        FrameView::Array(
            seq![
                FrameView::String(Self::opcode()),
                FrameView::String(message.id),
                FrameView::String(message.reason),
            ],
        )
    }

    /// A message with the given fields.
    pub fn new(id: String, reason: String) -> (r: ConnRejection)
        ensures
            r.id == id,
            r.reason == reason,
    {
        ConnRejection { id, reason }
    }

    /// The id of the controller that refuses.
    pub fn id(&self) -> (r: &str)
        ensures
            r@ == self.id@,
    {
        self.id.as_str()
    }

    /// Why it refuses.
    pub fn reason(&self) -> (r: &str)
        ensures
            r@ == self.reason@,
    {
        self.reason.as_str()
    }

    /// Reads the payload from the cursor, which stands behind the opcode.
    pub fn parse_frames(parse: &mut Parse) -> (r: Result<ConnRejection, Error>)
        ensures
            final(parse)@ == Self::parsed(old(parse)@).rest,
            read_as(r, Self::parsed(old(parse)@).value),
    {
        let id = take_string(parse)?;
        let reason = take_string(parse)?;
        Ok(ConnRejection { id, reason })
    }

    /// The frame that carries the message. It cannot fail.
    pub fn into_frame(self) -> (r: Result<Frame, Error>)
        ensures
            r matches Ok(frame) && frame@ == Self::frame_of(self@),
    {
        let ConnRejection { id, reason } = self;
        let mut frame = Frame::array();
        framed(frame.push_string(String::from_str("CONN_REJECT")))?;
        framed(frame.push_string(id))?;
        framed(frame.push_string(reason))?;
        assert(frame@->Array_0 =~= Self::frame_of(self@)->Array_0);
        Ok(frame)
    }
}

} // verus!
