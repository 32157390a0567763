//! The answer to a contact request: the addresses that a node knows.

use super::error::framed;
use super::error::read_as;
use super::error::take_string;
use super::error::take_unsigned;
use super::error::Error;
use crate::frame::Frame;
use crate::frame::FrameView;
use crate::parse::first_string;
use crate::parse::first_unsigned;
use crate::parse::Parse;
use crate::parse::Taken;
use vstd::prelude::*;
use vstd::string::StringExecFns;

verus! {

/// The addresses that a node knows, as texts.
#[derive(Debug)]
pub struct ContactResponse {
    /// The addresses, each as `host:port`.
    pub addrs: Vec<String>,
}

/// The message as a mathematical value.
pub struct ContactResponseView {
    /// The addresses.
    pub addrs: Seq<Seq<char>>,
}

/// The texts of a list of strings.
pub open spec fn texts(addrs: Seq<String>) -> Seq<Seq<char>> {
    Seq::new(addrs.len(), |i: int| addrs[i]@)
}

/// The string frames of a list of texts.
pub open spec fn string_frames(addrs: Seq<Seq<char>>) -> Seq<FrameView> {
    Seq::new(addrs.len(), |i: int| FrameView::String(addrs[i]))
}

/// Reading `count` texts from the front of `items`.
pub open spec fn first_strings(items: Seq<FrameView>, count: nat) -> Taken<Seq<Seq<char>>>
    decreases count,
{
    if count == 0 {
        Taken { value: Ok(Seq::empty()), rest: items }
    } else {
        let first = first_string(items);
        match first.value {
            Ok(text) => prepend(text, first_strings(first.rest, (count - 1) as nat)),
            Err(e) => Taken { value: Err(e), rest: first.rest },
        }
    }
}

/// The texts that were read, with `text` in front of them.
pub open spec fn prepend(text: Seq<char>, more: Taken<Seq<Seq<char>>>) -> Taken<Seq<Seq<char>>> {
    match more.value {
        Ok(texts) => Taken { value: Ok(seq![text] + texts), rest: more.rest },
        Err(e) => more,
    }
}

/// The texts that were read, with all of `front` in front of them.
pub open spec fn prepend_all(front: Seq<Seq<char>>, more: Taken<Seq<Seq<char>>>) -> Taken<
    Seq<Seq<char>>,
> {
    match more.value {
        Ok(texts) => Taken { value: Ok(front + texts), rest: more.rest },
        Err(e) => more,
    }
}

impl View for ContactResponse {
    type V = ContactResponseView;

    open spec fn view(&self) -> ContactResponseView {
        ContactResponseView { addrs: texts(self.addrs@) }
    }
}

impl ContactResponse {
    /// The opcode of the message.
    pub open spec fn opcode() -> Seq<char> {
        "CTCT_RESP"@
    }

    /// The payload read from the front of `items`: a count, then as many strings.
    pub open spec fn parsed(items: Seq<FrameView>) -> Taken<ContactResponseView> {
        let count = first_unsigned(items);
        match count.value {
            Ok(n) => {
                let addrs = first_strings(count.rest, n as nat);
                match addrs.value {
                    Ok(found) => Taken {
                        value: Ok(ContactResponseView { addrs: found }),
                        rest: addrs.rest,
                    },
                    Err(e) => Taken { value: Err(e), rest: addrs.rest },
                }
            },
            Err(e) => Taken { value: Err(e), rest: count.rest },
        }
    }

    /// The frame that carries the message: the opcode, the count, the addresses.
    pub open spec fn frame_of(message: ContactResponseView) -> FrameView {
        FrameView::Array(
            seq![
                FrameView::String(Self::opcode()),
                FrameView::UInt(message.addrs.len() as u64),
            ] + string_frames(message.addrs),
        )
    }

    /// A message with the given addresses.
    pub fn new(addrs: Vec<String>) -> (r: ContactResponse)
        ensures
            r.addrs == addrs,
    {
        ContactResponse { addrs }
    }

    /// The addresses.
    pub fn addrs(&self) -> (r: &[String])
        ensures
            r@ == self.addrs@,
    {
        self.addrs.as_slice()
    }

    /// Reads the payload from the cursor, which stands behind the opcode.
    pub fn parse_frames(parse: &mut Parse) -> (r: Result<ContactResponse, Error>)
        ensures
            final(parse)@ == Self::parsed(old(parse)@).rest,
            read_as(r, Self::parsed(old(parse)@).value),
    {
        let ghost origin = parse@;
        let count = take_unsigned(parse)?;
        let ghost start = parse@;
        let mut addrs: Vec<String> = Vec::new();
        let mut done: u64 = 0;
        assert(texts(addrs@) =~= Seq::<Seq<char>>::empty());
        assert(prepend_all(texts(addrs@), first_strings(parse@, count as nat)) == first_strings(
            start,
            count as nat,
        )) by {
            let more = first_strings(parse@, count as nat);
            if more.value is Ok {
                assert(texts(addrs@) + more.value->Ok_0 =~= more.value->Ok_0);
            }
        }
        while done < count
            invariant
                done <= count,
                origin == old(parse)@,
                first_unsigned(origin).value == Ok::<u64, crate::parse::ErrorView>(count),
                first_unsigned(origin).rest == start,
                first_strings(start, count as nat) == prepend_all(
                    texts(addrs@),
                    first_strings(parse@, (count - done) as nat),
                ),
            decreases count - done,
        {
            let ghost before = parse@;
            let ghost so_far = texts(addrs@);
            match take_string(parse) {
                Ok(addr) => {
                    proof {
                        let more = first_strings(parse@, (count - done - 1) as nat);
                        assert(texts(addrs@.push(addr)) =~= so_far + seq![addr@]);
                        if more.value is Ok {
                            assert((so_far + seq![addr@]) + more.value->Ok_0 =~= so_far + (
                            seq![addr@] + more.value->Ok_0));
                        }
                    }
                    addrs.push(addr);
                    done += 1;
                },
                Err(e) => {
                    return Err(e);
                },
            }
        }
        assert(texts(addrs@) + Seq::<Seq<char>>::empty() =~= texts(addrs@));
        Ok(ContactResponse { addrs })
    }

    /// The frame that carries the message. It cannot fail.
    pub fn into_frame(self) -> (r: Result<Frame, Error>)
        ensures
            r matches Ok(frame) && frame@ == Self::frame_of(self@),
    {
        let ContactResponse { addrs } = self;
        let ghost wanted = texts(addrs@);
        let count = addrs.len();
        let mut frame = Frame::array();
        framed(frame.push_string(String::from_str("CTCT_RESP")))?;
        framed(frame.push_unsigned(count as u64))?;
        let ghost head = frame@->Array_0;
        assert(head =~= seq![
            FrameView::String(Self::opcode()),
            FrameView::UInt(wanted.len() as u64),
        ]);
        let mut rest = addrs;
        let mut done: usize = 0;
        assert(string_frames(wanted.take(0)) =~= Seq::<FrameView>::empty());
        while rest.len() > 0
            invariant
                done + rest.len() == count,
                count == wanted.len(),
                texts(rest@) == wanted.skip(done as int),
                frame@ == FrameView::Array(head + string_frames(wanted.take(done as int))),
            decreases rest.len(),
        {
            let ghost before = rest@;
            let addr = rest.remove(0);
            assert(addr@ == texts(before)[0]);
            assert(addr@ == wanted[done as int]);
            proof {
                assert forall|i: int| 0 <= i < rest@.len() implies texts(rest@)[i] == wanted.skip(
                    done + 1,
                )[i] by {
                    assert(rest@[i] == before[i + 1]);
                    assert(texts(before)[i + 1] == wanted.skip(done as int)[i + 1]);
                }
                assert(texts(rest@) =~= wanted.skip(done + 1));
                assert((head + string_frames(wanted.take(done as int))).push(
                    FrameView::String(addr@),
                ) =~= head + string_frames(wanted.take(done + 1)));
            }
            framed(frame.push_string(addr))?;
            done += 1;
        }
        assert(wanted.take(done as int) =~= wanted);
        Ok(frame)
    }
}

} // verus!
