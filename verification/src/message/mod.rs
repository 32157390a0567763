//! The messages of the peer-to-peer protocol: each is a list of frames whose
//! first item names it.

pub mod conn_rejection;
pub mod conn_request;
pub mod conn_response;
pub mod contact_request;
pub mod contact_response;
pub mod error;
pub mod heartbeat_request;
pub mod heartbeat_response;
pub mod laws;

pub use conn_rejection::ConnRejection;
pub use conn_request::ConnRequest;
pub use conn_response::ConnResponse;
pub use contact_request::ContactRequest;
pub use contact_response::ContactResponse;
pub use error::Error;
pub use heartbeat_request::HeartbeatRequest;
pub use heartbeat_response::HeartbeatResponse;

use crate::frame::Frame;
use crate::frame::FrameView;
use crate::parse::finished;
use crate::parse::first_string;
use crate::parse::Parse;
use crate::parse::Taken;
use conn_rejection::ConnRejectionView;
use conn_request::ConnRequestView;
use conn_response::ConnResponseView;
use contact_request::ContactRequestView;
use contact_response::ContactResponseView;
use error::take_end;
use error::take_string;
use error::ErrorView;
use heartbeat_request::HeartbeatRequestView;
use heartbeat_response::HeartbeatResponseView;
use vstd::prelude::*;
use vstd::string::StringExecFns;
use vstd::utf8::is_ascii_chars;

verus! {

/// A message of the protocol.
#[derive(Debug)]
pub enum Message {
    /// The request that opens a handshake.
    ConnRequest(ConnRequest),
    /// The response that completes a handshake.
    ConnResponse(ConnResponse),
    /// The message that refuses a connection.
    ConnRejection(ConnRejection),
    /// The heartbeat request.
    HeartbeatRequest(HeartbeatRequest),
    /// The heartbeat response.
    HeartbeatResponse(HeartbeatResponse),
    /// The request for the addresses that the other side knows.
    ContactRequest(ContactRequest),
    /// The addresses that a node knows.
    ContactResponse(ContactResponse),
}

/// A message as a mathematical value.
pub enum MessageView {
    /// The request that opens a handshake.
    ConnRequest(ConnRequestView),
    /// The response that completes a handshake.
    ConnResponse(ConnResponseView),
    /// The message that refuses a connection.
    ConnRejection(ConnRejectionView),
    /// The heartbeat request.
    HeartbeatRequest(HeartbeatRequestView),
    /// The heartbeat response.
    HeartbeatResponse(HeartbeatResponseView),
    /// The request for the addresses that the other side knows.
    ContactRequest(ContactRequestView),
    /// The addresses that a node knows.
    ContactResponse(ContactResponseView),
}

impl View for Message {
    type V = MessageView;

    open spec fn view(&self) -> MessageView {
        match self {
            Message::ConnRequest(m) => MessageView::ConnRequest(m@),
            Message::ConnResponse(m) => MessageView::ConnResponse(m@),
            Message::ConnRejection(m) => MessageView::ConnRejection(m@),
            Message::HeartbeatRequest(m) => MessageView::HeartbeatRequest(m@),
            Message::HeartbeatResponse(m) => MessageView::HeartbeatResponse(m@),
            Message::ContactRequest(m) => MessageView::ContactRequest(m@),
            Message::ContactResponse(m) => MessageView::ContactResponse(m@),
        }
    }
}

/// What std's `str::to_uppercase` makes of a text that is not all ASCII.
pub uninterp spec fn uppercase_text(text: Seq<char>) -> Seq<char>;

/// The upper case of an ASCII letter; any other character as it is.
pub open spec fn upper_char(c: char) -> char {
    if 'a' <= c <= 'z' {
        ((c as u32) - 32) as char
    } else {
        c
    }
}

/// A text with each of its ASCII letters in upper case.
pub open spec fn ascii_uppercase(text: Seq<char>) -> Seq<char> {
    Seq::new(text.len(), |i: int| upper_char(text[i]))
}

/// The upper case of a text: of ASCII text, letter by letter; of any other
/// text, what std makes of it.
pub open spec fn uppercased(text: Seq<char>) -> Seq<char> {
    if is_ascii_chars(text) {
        ascii_uppercase(text)
    } else {
        uppercase_text(text)
    }
}

/// The upper case of `text`, made with std's `str::to_uppercase`.
///
/// Trusted: std maps a text to its upper case by the rules of Unicode, which
/// for ASCII text turn `a` to `z` into `A` to `Z` and leave every other
/// character alone. Of text beyond ASCII only this is claimed: that the
/// result depends on the text alone.
#[verifier::external_body]
pub(crate) fn uppercase(text: &str) -> (r: String)
    ensures
        r@ == (if is_ascii_chars(text@) {
            ascii_uppercase(text@)
        } else {
            uppercase_text(text@)
        }),
{
    text.to_uppercase()
}

/// What reading a message gave: the message or the reason why there is none,
/// and the frames that are left in the cursor.
pub struct Read {
    /// The message, or why there is none.
    pub value: Result<MessageView, ErrorView>,
    /// The frames that are left.
    pub rest: Seq<FrameView>,
}

/// A payload that was read, as the payload of a message.
pub open spec fn as_payload<T>(taken: Taken<T>, wrap: spec_fn(T) -> MessageView) -> Taken<
    MessageView,
> {
    match taken.value {
        Ok(m) => Taken { value: Ok(wrap(m)), rest: taken.rest },
        Err(e) => Taken { value: Err(e), rest: taken.rest },
    }
}

/// The payload that the opcode `id` announces, read from the front of
/// `items`; `None` where `id` is no opcode.
pub open spec fn payload_of(id: Seq<char>, items: Seq<FrameView>) -> Option<Taken<MessageView>> {
    if id == ConnRequest::opcode() {
        Some(as_payload(ConnRequest::parsed(items), |m| MessageView::ConnRequest(m)))
    } else if id == ConnResponse::opcode() {
        Some(as_payload(ConnResponse::parsed(items), |m| MessageView::ConnResponse(m)))
    } else if id == ConnRejection::opcode() {
        Some(as_payload(ConnRejection::parsed(items), |m| MessageView::ConnRejection(m)))
    } else if id == HeartbeatRequest::opcode() {
        Some(as_payload(HeartbeatRequest::parsed(items), |m| MessageView::HeartbeatRequest(m)))
    } else if id == HeartbeatResponse::opcode() {
        Some(as_payload(HeartbeatResponse::parsed(items), |m| MessageView::HeartbeatResponse(m)))
    } else if id == ContactRequest::opcode() {
        Some(as_payload(ContactRequest::parsed(items), |m| MessageView::ContactRequest(m)))
    } else if id == ContactResponse::opcode() {
        Some(as_payload(ContactResponse::parsed(items), |m| MessageView::ContactResponse(m)))
    } else {
        None
    }
}

/// The message that the opcode `id` and the frames `items` behind it make:
/// the payload that the opcode announces, and nothing after it.
pub open spec fn read_message(id: Seq<char>, items: Seq<FrameView>) -> Read {
    match payload_of(id, items) {
        Some(taken) => match taken.value {
            Ok(message) => match finished(taken.rest).value {
                Ok(_) => Read { value: Ok(message), rest: finished(taken.rest).rest },
                Err(e) => Read { value: Err(ErrorView::Parse(e)), rest: finished(taken.rest).rest },
            },
            Err(e) => Read { value: Err(ErrorView::Parse(e)), rest: taken.rest },
        },
        None => Read { value: Err(ErrorView::UnexpectedMessage(id)), rest: items },
    }
}

/// The message that a frame carries: the frame is a list, its first item a
/// string that names the message whatever its case, the rest the payload.
pub open spec fn message_of(frame: FrameView) -> Result<MessageView, ErrorView> {
    match frame {
        FrameView::Array(items) => match first_string(items).value {
            Ok(id) => read_message(uppercased(id), first_string(items).rest).value,
            Err(e) => Err(ErrorView::Parse(e)),
        },
        other => Err(
            ErrorView::Parse(
                crate::parse::ErrorView::InvalidFrameType {
                    detail: "Expected Array Frame"@,
                    frame: other,
                },
            ),
        ),
    }
}

/// The frame that carries a message.
pub open spec fn frame_of(message: MessageView) -> FrameView {
    match message {
        MessageView::ConnRequest(m) => ConnRequest::frame_of(m),
        MessageView::ConnResponse(m) => ConnResponse::frame_of(m),
        MessageView::ConnRejection(m) => ConnRejection::frame_of(m),
        MessageView::HeartbeatRequest(m) => HeartbeatRequest::frame_of(m),
        MessageView::HeartbeatResponse(m) => HeartbeatResponse::frame_of(m),
        MessageView::ContactRequest(m) => ContactRequest::frame_of(m),
        MessageView::ContactResponse(m) => ContactResponse::frame_of(m),
    }
}

/// Whether `r` is what reading a message gave.
pub open spec fn read_gave(r: Result<Message, Error>, expected: Result<MessageView, ErrorView>) -> bool {
    match expected {
        Ok(message) => r matches Ok(found) && found@ == message,
        Err(fault) => r matches Err(e) && e@ == fault,
    }
}

/// Whether the text `a` is the text `b`.
fn same_text(a: &String, b: &str) -> (r: bool)
    ensures
        r == (a@ == b@),
{
    *a == String::from_str(b)
}

impl Message {
    /// Reads the message that `frame` carries.
    pub fn from_frame(frame: Frame) -> (r: Result<Message, Error>)
        ensures
            read_gave(r, message_of(frame@)),
    {
        let mut parse = match Parse::new(frame) {
            Ok(parse) => parse,
            Err(source) => {
                return Err(Error::Parse { source });
            },
        };
        let id = uppercase(take_string(&mut parse)?.as_str());
        Message::with_opcode(id, &mut parse)
    }

    /// Reads the message that the opcode `id`, already in upper case,
    /// announces: its payload from the cursor, which has to end there.
    pub fn with_opcode(id: String, parse: &mut Parse) -> (r: Result<Message, Error>)
        ensures
            final(parse)@ == read_message(id@, old(parse)@).rest,
            read_gave(r, read_message(id@, old(parse)@).value),
    {
        let message = if same_text(&id, "CONN_REQ") {
            Message::ConnRequest(ConnRequest::parse_frames(parse)?)
        } else if same_text(&id, "CONN_RESP") {
            Message::ConnResponse(ConnResponse::parse_frames(parse)?)
        } else if same_text(&id, "CONN_REJECT") {
            Message::ConnRejection(ConnRejection::parse_frames(parse)?)
        } else if same_text(&id, "HBT_REQ") {
            Message::HeartbeatRequest(HeartbeatRequest::parse_frames(parse)?)
        } else if same_text(&id, "HBT_RESP") {
            Message::HeartbeatResponse(HeartbeatResponse::parse_frames(parse)?)
        } else if same_text(&id, "CTCT_REQ") {
            Message::ContactRequest(ContactRequest::parse_frames(parse)?)
        } else if same_text(&id, "CTCT_RESP") {
            Message::ContactResponse(ContactResponse::parse_frames(parse)?)
        } else {
            return Err(Error::UnexpectedMessage { detail: id });
        };
        take_end(parse)?;
        Ok(message)
    }

    /// The frame that carries the message. It cannot fail.
    pub fn into_frame(self) -> (r: Result<Frame, Error>)
        ensures
            r matches Ok(frame) && frame@ == frame_of(self@),
    {
        match self {
            Message::ConnRequest(request) => request.into_frame(),
            Message::ConnResponse(response) => response.into_frame(),
            Message::ConnRejection(rejection) => rejection.into_frame(),
            Message::HeartbeatRequest(request) => request.into_frame(),
            Message::HeartbeatResponse(response) => response.into_frame(),
            Message::ContactRequest(request) => request.into_frame(),
            Message::ContactResponse(response) => response.into_frame(),
        }
    }
}

} // verus!
