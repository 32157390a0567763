//! Laws of the message layer: what was written is read back, the case of an
//! opcode does not matter, and a name that is no opcode is refused.

use super::ascii_uppercase;
use super::conn_rejection::ConnRejection;
use super::conn_request::ConnRequest;
use super::conn_response::ConnResponse;
use super::contact_request::ContactRequest;
use super::contact_response::first_strings;
use super::contact_response::string_frames;
use super::contact_response::ContactResponse;
use super::error::ErrorView;
use super::frame_of;
use super::heartbeat_request::HeartbeatRequest;
use super::heartbeat_response::HeartbeatResponse;
use super::message_of;
use super::payload_of;
use super::read_message;
use super::upper_char;
use super::uppercased;
use super::MessageView;
use crate::frame::FrameView;
use crate::parse::first_string;
use crate::parse::Taken;
use vstd::prelude::*;
use vstd::utf8::is_ascii_chars;

verus! {

/// Whether `c` is an ASCII capital or an underscore.
pub open spec fn is_capital(c: char) -> bool {
    ('A' <= c <= 'Z') || c == '_'
}

/// Whether `id`, in upper case, is one of the seven opcodes.
pub open spec fn is_opcode(id: Seq<char>) -> bool {
    ||| id == ConnRequest::opcode()
    ||| id == ConnResponse::opcode()
    ||| id == ConnRejection::opcode()
    ||| id == HeartbeatRequest::opcode()
    ||| id == HeartbeatResponse::opcode()
    ||| id == ContactRequest::opcode()
    ||| id == ContactResponse::opcode()
}

/// Whether a message fits a frame: the count of its addresses fits the
/// unsigned integer that announces them. Every message in memory does.
pub open spec fn representable(message: MessageView) -> bool {
    message matches MessageView::ContactResponse(m) ==> m.addrs.len() <= u64::MAX
}

/// A text of capitals and underscores is its own upper case.
pub proof fn lemma_capitals_fixed(text: Seq<char>)
    requires
        forall|i: int| 0 <= i < text.len() ==> is_capital(#[trigger] text[i]),
    ensures
        uppercased(text) == text,
{
    assert forall|i: int| 0 <= i < text.len() implies '\0' <= #[trigger] text[i] <= '\u{7f}' by {
        assert(is_capital(text[i]));
    }
    assert forall|i: int| 0 <= i < text.len() implies ascii_uppercase(text)[i] == text[i] by {
        assert(is_capital(text[i]));
    }
    assert(ascii_uppercase(text) =~= text);
}

/// Each of the seven opcodes is its own upper case, and no two are the same.
proof fn lemma_opcodes()
    ensures
        uppercased(ConnRequest::opcode()) == ConnRequest::opcode(),
        uppercased(ConnResponse::opcode()) == ConnResponse::opcode(),
        uppercased(ConnRejection::opcode()) == ConnRejection::opcode(),
        uppercased(HeartbeatRequest::opcode()) == HeartbeatRequest::opcode(),
        uppercased(HeartbeatResponse::opcode()) == HeartbeatResponse::opcode(),
        uppercased(ContactRequest::opcode()) == ContactRequest::opcode(),
        uppercased(ContactResponse::opcode()) == ContactResponse::opcode(),
        ConnRequest::opcode().len() == 8,
        ConnResponse::opcode().len() == 9,
        ConnRejection::opcode().len() == 11,
        HeartbeatRequest::opcode().len() == 7,
        HeartbeatResponse::opcode().len() == 8,
        ContactRequest::opcode().len() == 8,
        ContactResponse::opcode().len() == 9,
        ConnRequest::opcode()[1] == 'O',
        HeartbeatResponse::opcode()[1] == 'B',
        ContactRequest::opcode()[1] == 'T',
        ConnResponse::opcode()[1] == 'O',
        ContactResponse::opcode()[1] == 'T',
{
    reveal_strlit("CONN_REQ");
    reveal_strlit("CONN_RESP");
    reveal_strlit("CONN_REJECT");
    reveal_strlit("HBT_REQ");
    reveal_strlit("HBT_RESP");
    reveal_strlit("CTCT_REQ");
    reveal_strlit("CTCT_RESP");
    lemma_capitals_fixed("CONN_REQ"@);
    lemma_capitals_fixed("CONN_RESP"@);
    lemma_capitals_fixed("CONN_REJECT"@);
    lemma_capitals_fixed("HBT_REQ"@);
    lemma_capitals_fixed("HBT_RESP"@);
    lemma_capitals_fixed("CTCT_REQ"@);
    lemma_capitals_fixed("CTCT_RESP"@);
}

/// Reading as many strings as were written gives their texts back.
proof fn lemma_strings_read_back(addrs: Seq<Seq<char>>, tail: Seq<FrameView>)
    ensures
        first_strings(string_frames(addrs) + tail, addrs.len()) == (Taken {
            value: Ok(addrs),
            rest: tail,
        }),
    decreases addrs.len(),
{
    let items = string_frames(addrs) + tail;
    if addrs.len() == 0 {
        assert(items =~= tail);
        assert(addrs =~= Seq::<Seq<char>>::empty());
    } else {
        let rest = addrs.drop_first();
        lemma_strings_read_back(rest, tail);
        assert(items[0] == FrameView::String(addrs[0]));
        assert(items.drop_first() =~= string_frames(rest) + tail);
        assert(seq![addrs[0]] + rest =~= addrs);
    }
}

/// Message round trip: reading the frame that carries a message gives the
/// message back.
pub proof fn lemma_message_round_trip(message: MessageView)
    requires
        representable(message),
    ensures
        message_of(frame_of(message)) == Ok::<MessageView, ErrorView>(message),
{
    lemma_opcodes();
    let frame = frame_of(message);
    let items = frame->Array_0;
    let payload = items.drop_first();
    assert(first_string(items).rest == payload);
    match message {
        MessageView::ConnRequest(m) => {
            assert(payload.drop_first().drop_first().drop_first() =~= Seq::<FrameView>::empty());
        },
        MessageView::ConnResponse(m) => {
            assert(payload.drop_first().drop_first() =~= Seq::<FrameView>::empty());
        },
        MessageView::ConnRejection(m) => {
            assert(payload.drop_first().drop_first() =~= Seq::<FrameView>::empty());
        },
        MessageView::HeartbeatRequest(m) => {
            assert(payload.drop_first().drop_first().drop_first() =~= Seq::<FrameView>::empty());
        },
        MessageView::HeartbeatResponse(m) => {
            assert(payload.drop_first().drop_first().drop_first().drop_first() =~= Seq::<
                FrameView,
            >::empty());
        },
        MessageView::ContactRequest(m) => {
            assert(payload =~= Seq::<FrameView>::empty());
        },
        MessageView::ContactResponse(m) => {
            assert(payload.drop_first() =~= string_frames(m.addrs) + Seq::<FrameView>::empty());
            lemma_strings_read_back(m.addrs, Seq::<FrameView>::empty());
        },
    }
}

/// Opcode case: two frames whose opcodes differ in case alone, with the same
/// payload, are read alike.
pub proof fn lemma_opcode_case(a: Seq<char>, b: Seq<char>, payload: Seq<FrameView>)
    requires
        uppercased(a) == uppercased(b),
    ensures
        message_of(FrameView::Array(seq![FrameView::String(a)] + payload)) == message_of(
            FrameView::Array(seq![FrameView::String(b)] + payload),
        ),
{
    let left = seq![FrameView::String(a)] + payload;
    let right = seq![FrameView::String(b)] + payload;
    assert(left.drop_first() =~= payload);
    assert(right.drop_first() =~= payload);
}

/// Unknown opcode: a frame whose first string, in upper case, is none of the
/// seven opcodes is refused, and the error carries that text.
pub proof fn lemma_unknown_opcode(id: Seq<char>, payload: Seq<FrameView>)
    requires
        !is_opcode(uppercased(id)),
    ensures
        message_of(FrameView::Array(seq![FrameView::String(id)] + payload)) == Err::<
            MessageView,
            ErrorView,
        >(ErrorView::UnexpectedMessage(uppercased(id))),
{
    let items = seq![FrameView::String(id)] + payload;
    assert(items.drop_first() =~= payload);
}

} // verus!
