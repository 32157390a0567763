//! Laws of the wire format: what was written is read back, and nothing is
//! read from a frame that is not all there.

use crate::decimal::all_digits;
use crate::decimal::decimal;
use crate::decimal::is_digit;
use crate::decimal::lemma_decimal_digits;
use crate::decimal::lemma_numeral_decimal;
use crate::decimal::lemma_numeral_signed_decimal;
use crate::decimal::signed_decimal;
use crate::frame::bulk_at;
use crate::frame::crlf;
use crate::frame::extent;
use crate::frame::extent_all;
use crate::frame::find_crlf;
use crate::frame::integer_at;
use crate::frame::scan;
use crate::frame::scan_all;
use crate::frame::text_at;
use crate::frame::unsigned_at;
use crate::frame::wire;
use crate::frame::wire_all;
use crate::frame::Fault;
use crate::frame::FrameView;
use crate::frame::CR;
use crate::frame::DIGIT_ONE;
use crate::frame::LF;
use crate::frame::TAG_ARRAY;
use crate::frame::TAG_BULK;
use crate::frame::TAG_ERROR;
use crate::frame::TAG_INT;
use crate::frame::TAG_STRING;
use crate::frame::TAG_UINT;
use vstd::prelude::*;
use vstd::utf8::encode_utf8;
use vstd::utf8::encode_utf8_decode_utf8;
use vstd::utf8::encode_utf8_valid_utf8;

verus! {

/// Whether the end of a record starts at position `i` of `s`.
pub open spec fn crlf_at(s: Seq<u8>, i: int) -> bool {
    0 <= i && i + 1 < s.len() && s[i] == CR && s[i + 1] == LF
}

/// Whether no end of a record stands anywhere in `s`.
pub open spec fn no_crlf(s: Seq<u8>) -> bool {
    forall|i: int| !crlf_at(s, i)
}

/// Whether a frame can be told from its bytes: no text in it holds the end of
/// a record, and its lists and bulks are no longer than a machine can hold.
pub open spec fn portable(frame: FrameView) -> bool
    decreases frame,
{
    match frame {
        FrameView::String(text) => no_crlf(encode_utf8(text)),
        FrameView::Error(text) => no_crlf(encode_utf8(text)),
        FrameView::Bulk(data) => data.len() <= u64::MAX,
        FrameView::Array(items) => items.len() <= usize::MAX && all_portable(items),
        _ => true,
    }
}

/// Whether every frame of a list can be told from its bytes.
pub open spec fn all_portable(items: Seq<FrameView>) -> bool
    decreases items,
{
    forall|i: int| 0 <= i < items.len() ==> portable(#[trigger] items[i])
}

/// Whether the bytes `w` stand in `s` from position `pos` on.
pub open spec fn spelled(s: Seq<u8>, pos: int, w: Seq<u8>) -> bool {
    0 <= pos && pos + w.len() <= s.len() && s.subrange(pos, pos + w.len()) == w
}

/// Whether `s` ends inside the bytes `w` that start at `pos`: what is there
/// agrees with `w`, and at least one byte of `w` is missing.
pub open spec fn cut(s: Seq<u8>, pos: int, w: Seq<u8>) -> bool {
    0 <= pos <= s.len() && s.len() < pos + w.len() && s.subrange(pos, s.len() as int) == w.take(
        s.len() - pos,
    )
}

proof fn lemma_spelled_split(s: Seq<u8>, pos: int, a: Seq<u8>, b: Seq<u8>)
    requires
        spelled(s, pos, a + b),
    ensures
        spelled(s, pos, a),
        spelled(s, pos + a.len(), b),
{
    let w = a + b;
    let whole = s.subrange(pos, pos + w.len());
    assert forall|i: int| 0 <= i < a.len() implies s.subrange(pos, pos + a.len())[i] == a[i] by {
        assert(whole[i] == w[i]);
    }
    assert(s.subrange(pos, pos + a.len()) =~= a);
    assert forall|i: int| 0 <= i < b.len() implies s.subrange(
        pos + a.len(),
        pos + a.len() + b.len(),
    )[i] == b[i] by {
        assert(whole[a.len() + i] == w[a.len() + i]);
    }
    assert(s.subrange(pos + a.len(), pos + a.len() + b.len()) =~= b);
}

proof fn lemma_spelled_at(s: Seq<u8>, pos: int, w: Seq<u8>, i: int)
    requires
        spelled(s, pos, w),
        0 <= i < w.len(),
    ensures
        s[pos + i] == w[i],
{
    assert(s.subrange(pos, pos + w.len())[i] == w[i]);
}

proof fn lemma_cut_at(s: Seq<u8>, pos: int, w: Seq<u8>, i: int)
    requires
        cut(s, pos, w),
        0 <= i < s.len() - pos,
    ensures
        s[pos + i] == w[i],
{
    assert(s.subrange(pos, s.len() as int)[i] == w.take(s.len() - pos)[i]);
}

/// Where `s` ends inside `a + b`, it ends inside `a`, or `a` is all there and it ends inside `b`.
proof fn lemma_cut_split(s: Seq<u8>, pos: int, a: Seq<u8>, b: Seq<u8>)
    requires
        cut(s, pos, a + b),
    ensures
        s.len() < pos + a.len() ==> cut(s, pos, a),
        s.len() >= pos + a.len() ==> spelled(s, pos, a) && cut(s, pos + a.len(), b),
{
    let w = a + b;
    if s.len() < pos + a.len() {
        assert forall|i: int| 0 <= i < s.len() - pos implies s.subrange(pos, s.len() as int)[i]
            == a.take(s.len() - pos)[i] by {
            lemma_cut_at(s, pos, w, i);
        }
        assert(s.subrange(pos, s.len() as int) =~= a.take(s.len() - pos));
    } else {
        assert forall|i: int| 0 <= i < a.len() implies s.subrange(pos, pos + a.len())[i]
            == a[i] by {
            lemma_cut_at(s, pos, w, i);
        }
        assert(s.subrange(pos, pos + a.len()) =~= a);
        let q = pos + a.len();
        assert forall|i: int| 0 <= i < s.len() - q implies s.subrange(q, s.len() as int)[i]
            == b.take(s.len() - q)[i] by {
            lemma_cut_at(s, pos, w, a.len() + i);
        }
        assert(s.subrange(q, s.len() as int) =~= b.take(s.len() - q));
    }
}

/// The first end of a record at or after `from` is the one at `at`, where none starts before it.
proof fn lemma_find_crlf_first(s: Seq<u8>, from: int, at: int)
    requires
        0 <= from <= at,
        crlf_at(s, at),
        forall|j: int| from <= j < at ==> !crlf_at(s, j),
    ensures
        find_crlf(s, from) == Some(at),
    decreases at - from,
{
    if from < at {
        assert(!crlf_at(s, from));
        lemma_find_crlf_first(s, from + 1, at);
    }
}

/// No end of a record is found where none starts at or after `from`.
proof fn lemma_find_crlf_none(s: Seq<u8>, from: int)
    requires
        0 <= from,
        forall|j: int| from <= j ==> !crlf_at(s, j),
    ensures
        find_crlf(s, from) is None,
    decreases s.len() - from,
{
    if from + 1 < s.len() {
        assert(!crlf_at(s, from));
        lemma_find_crlf_none(s, from + 1);
    }
}

/// A line that holds no end of a record, written with its end, is found as a line.
proof fn lemma_line_found(s: Seq<u8>, pos: int, line: Seq<u8>)
    requires
        spelled(s, pos, line + crlf()),
        no_crlf(line),
    ensures
        find_crlf(s, pos) == Some(pos + line.len()),
        s.subrange(pos, pos + line.len()) == line,
        pos + line.len() + 2 <= s.len(),
{
    let at = pos + line.len();
    lemma_spelled_split(s, pos, line, crlf());
    lemma_spelled_at(s, at, crlf(), 0);
    lemma_spelled_at(s, at, crlf(), 1);
    assert forall|j: int| pos <= j < at implies !crlf_at(s, j) by {
        lemma_spelled_at(s, pos, line, j - pos);
        if j + 1 < at {
            lemma_spelled_at(s, pos, line, j + 1 - pos);
            assert(!crlf_at(line, j - pos));
        }
    }
    lemma_find_crlf_first(s, pos, at);
}

/// A line that holds no end of a record is not found while its end is not all there.
proof fn lemma_line_cut(s: Seq<u8>, pos: int, line: Seq<u8>)
    requires
        cut(s, pos, line + crlf()),
        no_crlf(line),
    ensures
        find_crlf(s, pos) is None,
{
    let w = line + crlf();
    assert forall|j: int| pos <= j implies !crlf_at(s, j) by {
        if j + 1 < s.len() {
            lemma_cut_at(s, pos, w, j - pos);
            lemma_cut_at(s, pos, w, j + 1 - pos);
            if j + 1 - pos < line.len() {
                assert(!crlf_at(line, j - pos));
            }
        }
    }
    lemma_find_crlf_none(s, pos);
}

/// Digits hold no end of a record.
proof fn lemma_digits_no_crlf(d: Seq<u8>)
    requires
        all_digits(d),
    ensures
        no_crlf(d),
{
    assert forall|i: int| !crlf_at(d, i) by {
        if 0 <= i && i + 1 < d.len() {
            assert(is_digit(d[i]));
        }
    }
}

/// The decimal text of a signed number holds no end of a record.
proof fn lemma_signed_no_crlf(v: int)
    ensures
        no_crlf(signed_decimal(v)),
{
    let t = signed_decimal(v);
    if v < 0 {
        let d = decimal((-v) as nat);
        lemma_decimal_digits((-v) as nat);
        assert forall|i: int| !crlf_at(t, i) by {
            if 0 <= i && i + 1 < t.len() {
                if i > 0 {
                    assert(is_digit(d[i - 1]));
                }
            }
        }
    } else {
        lemma_decimal_digits(v as nat);
        lemma_digits_no_crlf(t);
    }
}

/// The bytes of a list start with the bytes of its first frame.
proof fn lemma_wire_all_first(items: Seq<FrameView>)
    requires
        items.len() > 0,
    ensures
        wire_all(items) == wire(items[0]) + wire_all(items.drop_first()),
    decreases items.len(),
{
    if items.len() == 1 {
        assert(items.drop_last() =~= Seq::<FrameView>::empty());
        assert(items.drop_first() =~= Seq::<FrameView>::empty());
        assert(wire_all(items) =~= wire(items[0]) + wire_all(items.drop_first()));
    } else {
        let front = items.drop_last();
        lemma_wire_all_first(front);
        assert(front.drop_first() =~= items.drop_first().drop_last());
        assert(items.drop_first().last() == items.last());
        assert(wire_all(items) =~= wire(items[0]) + wire_all(items.drop_first()));
    }
}

/// Every frame is written as at least three bytes.
proof fn lemma_wire_len(frame: FrameView)
    ensures
        wire(frame).len() >= 3,
{
}

/// The header of a length-prefixed frame: a tag, then a number on its own line.
proof fn lemma_header_found(s: Seq<u8>, pos: int, tag: u8, n: nat, rest: Seq<u8>)
    requires
        spelled(s, pos, seq![tag] + decimal(n) + crlf() + rest),
        n <= u64::MAX,
    ensures
        s[pos] == tag,
        unsigned_at(s, pos + 1) == Ok::<(u64, int), Fault>(
            (n as u64, pos + 1 + decimal(n).len() + 2),
        ),
        spelled(s, pos + 1 + decimal(n).len() + 2, rest),
        is_digit(s[pos + 1]),
{
    let d = decimal(n);
    let w = seq![tag] + d + crlf() + rest;
    assert(w =~= seq![tag] + ((d + crlf()) + rest));
    lemma_spelled_split(s, pos, seq![tag], (d + crlf()) + rest);
    lemma_spelled_at(s, pos, seq![tag], 0);
    lemma_spelled_split(s, pos + 1, d + crlf(), rest);
    lemma_decimal_digits(n);
    lemma_digits_no_crlf(d);
    lemma_line_found(s, pos + 1, d);
    lemma_numeral_decimal(n);
    lemma_spelled_at(s, pos + 1, d + crlf(), 0);
    assert(is_digit(d[0]));
}

/// The header of a length-prefixed frame is not read while it is not all there.
proof fn lemma_header_cut(s: Seq<u8>, pos: int, tag: u8, n: nat)
    requires
        cut(s, pos, seq![tag] + decimal(n) + crlf()),
        pos < s.len(),
    ensures
        s[pos] == tag,
        unsigned_at(s, pos + 1) == Err::<(u64, int), Fault>(Fault::Incomplete),
        pos + 1 < s.len() ==> is_digit(s[pos + 1]),
{
    let d = decimal(n);
    let w = seq![tag] + d + crlf();
    assert(w =~= seq![tag] + (d + crlf()));
    lemma_cut_split(s, pos, seq![tag], d + crlf());
    lemma_spelled_at(s, pos, seq![tag], 0);
    lemma_decimal_digits(n);
    lemma_digits_no_crlf(d);
    lemma_line_cut(s, pos + 1, d);
    if pos + 1 < s.len() {
        lemma_cut_at(s, pos + 1, d + crlf(), 0);
        assert(is_digit(d[0]));
    }
}

/// What was written is read back: where the bytes of a frame stand at `pos`,
/// the frame is read there and the next one starts right behind it.
pub proof fn lemma_read_wire(frame: FrameView, s: Seq<u8>, pos: int)
    requires
        portable(frame),
        spelled(s, pos, wire(frame)),
    ensures
        scan(s, pos) == Ok::<(FrameView, int), Fault>((frame, pos + wire(frame).len())),
        extent(s, pos) == Ok::<int, Fault>(pos + wire(frame).len()),
    decreases frame,
{
    let w = wire(frame);
    match frame {
        FrameView::String(text) => {
            let enc = encode_utf8(text);
            assert(w =~= seq![TAG_STRING] + (enc + crlf()));
            lemma_spelled_split(s, pos, seq![TAG_STRING], enc + crlf());
            lemma_spelled_at(s, pos, seq![TAG_STRING], 0);
            lemma_line_found(s, pos + 1, enc);
            encode_utf8_valid_utf8(text);
            encode_utf8_decode_utf8(text);
        },
        FrameView::Error(text) => {
            let enc = encode_utf8(text);
            assert(w =~= seq![TAG_ERROR] + (enc + crlf()));
            lemma_spelled_split(s, pos, seq![TAG_ERROR], enc + crlf());
            lemma_spelled_at(s, pos, seq![TAG_ERROR], 0);
            lemma_line_found(s, pos + 1, enc);
            encode_utf8_valid_utf8(text);
            encode_utf8_decode_utf8(text);
        },
        FrameView::UInt(value) => {
            assert(w =~= seq![TAG_UINT] + decimal(value as nat) + crlf() + Seq::<u8>::empty());
            lemma_header_found(s, pos, TAG_UINT, value as nat, Seq::<u8>::empty());
        },
        FrameView::Int(value) => {
            let t = signed_decimal(value as int);
            assert(w =~= seq![TAG_INT] + (t + crlf()));
            lemma_spelled_split(s, pos, seq![TAG_INT], t + crlf());
            lemma_spelled_at(s, pos, seq![TAG_INT], 0);
            lemma_signed_no_crlf(value as int);
            lemma_line_found(s, pos + 1, t);
            lemma_numeral_signed_decimal(value as int);
        },
        FrameView::Bulk(data) => {
            let d = decimal(data.len());
            assert(w =~= seq![TAG_BULK] + d + crlf() + (data + crlf()));
            lemma_header_found(s, pos, TAG_BULK, data.len(), data + crlf());
            let start = pos + 1 + d.len() + 2;
            lemma_spelled_split(s, start, data, crlf());
            lemma_spelled_at(s, start + data.len(), crlf(), 0);
            lemma_spelled_at(s, start + data.len(), crlf(), 1);
        },
        FrameView::Null => {
            let line = seq![TAG_ERROR, DIGIT_ONE];
            assert(w =~= seq![TAG_BULK] + (line + crlf()));
            lemma_spelled_split(s, pos, seq![TAG_BULK], line + crlf());
            lemma_spelled_at(s, pos, seq![TAG_BULK], 0);
            assert(no_crlf(line));
            lemma_line_found(s, pos + 1, line);
            lemma_spelled_at(s, pos + 1, line + crlf(), 0);
        },
        FrameView::Array(items) => {
            lemma_header_found(s, pos, TAG_ARRAY, items.len(), wire_all(items));
            lemma_read_wire_all(items, s, pos + 1 + decimal(items.len()).len() + 2);
        },
    }
}

/// What was written is read back, frame after frame.
pub proof fn lemma_read_wire_all(items: Seq<FrameView>, s: Seq<u8>, pos: int)
    requires
        all_portable(items),
        spelled(s, pos, wire_all(items)),
    ensures
        scan_all(s, pos, items.len()) == Ok::<(Seq<FrameView>, int), Fault>(
            (items, pos + wire_all(items).len()),
        ),
        extent_all(s, pos, items.len()) == Ok::<int, Fault>(pos + wire_all(items).len()),
    decreases items,
{
    if items.len() == 0 {
        assert(items =~= Seq::<FrameView>::empty());
    } else {
        let first = items[0];
        let rest = items.drop_first();
        lemma_wire_all_first(items);
        lemma_wire_len(first);
        lemma_spelled_split(s, pos, wire(first), wire_all(rest));
        vstd::seq::axiom_seq_index_decreases(items, 0);
        vstd::seq::axiom_seq_subrange_decreases(items, 1, items.len() as int);
        assert forall|i: int| 0 <= i < rest.len() implies portable(#[trigger] rest[i]) by {
            assert(rest[i] == items[i + 1]);
        }
        lemma_read_wire(first, s, pos);
        lemma_read_wire_all(rest, s, pos + wire(first).len());
        assert(seq![first] + rest =~= items);
    }
}

/// Nothing is read from a frame that is not all there: where the bytes end
/// inside a frame that starts at `pos`, the walk reports that more are due.
pub proof fn lemma_cut_wire(frame: FrameView, s: Seq<u8>, pos: int)
    requires
        portable(frame),
        cut(s, pos, wire(frame)),
    ensures
        extent(s, pos) == Err::<int, Fault>(Fault::Incomplete),
    decreases frame,
{
    let w = wire(frame);
    if pos < s.len() {
        match frame {
            FrameView::String(text) => {
                let enc = encode_utf8(text);
                assert(w =~= seq![TAG_STRING] + (enc + crlf()));
                lemma_cut_split(s, pos, seq![TAG_STRING], enc + crlf());
                lemma_spelled_at(s, pos, seq![TAG_STRING], 0);
                lemma_line_cut(s, pos + 1, enc);
            },
            FrameView::Error(text) => {
                let enc = encode_utf8(text);
                assert(w =~= seq![TAG_ERROR] + (enc + crlf()));
                lemma_cut_split(s, pos, seq![TAG_ERROR], enc + crlf());
                lemma_spelled_at(s, pos, seq![TAG_ERROR], 0);
                lemma_line_cut(s, pos + 1, enc);
            },
            FrameView::UInt(value) => {
                lemma_header_cut(s, pos, TAG_UINT, value as nat);
            },
            FrameView::Int(value) => {
                let t = signed_decimal(value as int);
                assert(w =~= seq![TAG_INT] + (t + crlf()));
                lemma_cut_split(s, pos, seq![TAG_INT], t + crlf());
                lemma_spelled_at(s, pos, seq![TAG_INT], 0);
                lemma_signed_no_crlf(value as int);
                lemma_line_cut(s, pos + 1, t);
            },
            FrameView::Bulk(data) => {
                let d = decimal(data.len());
                let head = seq![TAG_BULK] + d + crlf();
                assert(w =~= head + (data + crlf()));
                lemma_cut_split(s, pos, head, data + crlf());
                if s.len() < pos + head.len() {
                    lemma_header_cut(s, pos, TAG_BULK, data.len());
                } else {
                    assert(head =~= seq![TAG_BULK] + d + crlf() + Seq::<u8>::empty());
                    lemma_header_found(s, pos, TAG_BULK, data.len(), Seq::<u8>::empty());
                }
            },
            FrameView::Null => {
                let line = seq![TAG_ERROR, DIGIT_ONE];
                assert(w =~= seq![TAG_BULK] + (line + crlf()));
                lemma_cut_split(s, pos, seq![TAG_BULK], line + crlf());
                lemma_spelled_at(s, pos, seq![TAG_BULK], 0);
                assert(no_crlf(line));
                lemma_line_cut(s, pos + 1, line);
                if pos + 1 < s.len() {
                    lemma_cut_at(s, pos + 1, line + crlf(), 0);
                }
            },
            FrameView::Array(items) => {
                let d = decimal(items.len());
                let head = seq![TAG_ARRAY] + d + crlf();
                assert(w =~= head + wire_all(items));
                lemma_cut_split(s, pos, head, wire_all(items));
                if s.len() < pos + head.len() {
                    lemma_header_cut(s, pos, TAG_ARRAY, items.len());
                } else {
                    assert(head =~= seq![TAG_ARRAY] + d + crlf() + Seq::<u8>::empty());
                    lemma_header_found(s, pos, TAG_ARRAY, items.len(), Seq::<u8>::empty());
                    lemma_cut_wire_all(items, s, pos + head.len());
                }
            },
        }
    }
}

/// Nothing is read from a list that is not all there.
pub proof fn lemma_cut_wire_all(items: Seq<FrameView>, s: Seq<u8>, pos: int)
    requires
        all_portable(items),
        cut(s, pos, wire_all(items)),
    ensures
        extent_all(s, pos, items.len()) == Err::<int, Fault>(Fault::Incomplete),
    decreases items,
{
    if items.len() > 0 {
        let first = items[0];
        let rest = items.drop_first();
        lemma_wire_all_first(items);
        lemma_wire_len(first);
        lemma_cut_split(s, pos, wire(first), wire_all(rest));
        vstd::seq::axiom_seq_index_decreases(items, 0);
        vstd::seq::axiom_seq_subrange_decreases(items, 1, items.len() as int);
        assert forall|i: int| 0 <= i < rest.len() implies portable(#[trigger] rest[i]) by {
            assert(rest[i] == items[i + 1]);
        }
        if s.len() < pos + wire(first).len() {
            lemma_cut_wire(first, s, pos);
        } else {
            lemma_read_wire(first, s, pos);
            lemma_cut_wire_all(rest, s, pos + wire(first).len());
        }
    }
}

/// An end of a record that is found lies at or after the place where the
/// search started, and all of it lies in the bytes.
pub proof fn lemma_find_crlf_ahead(s: Seq<u8>, from: int)
    ensures
        find_crlf(s, from) matches Some(at) ==> from <= at && crlf_at(s, at),
    decreases s.len() - from,
{
    if !(from < 0 || from + 1 >= s.len()) && !(s[from] == CR && s[from + 1] == LF) {
        lemma_find_crlf_ahead(s, from + 1);
    }
}

/// A frame takes bytes: where the walk finds a frame, it ends behind the
/// place where it started, and within the bytes.
pub proof fn lemma_extent_ahead(s: Seq<u8>, pos: int)
    ensures
        extent(s, pos) matches Ok(next) ==> pos < next <= s.len(),
    decreases s.len() - pos, 0nat,
{
    if !(pos < 0 || pos >= s.len()) {
        lemma_find_crlf_ahead(s, pos + 1);
        if s[pos] == TAG_BULK {
            if pos + 1 < s.len() && s[pos + 1] == TAG_ERROR {
            }
        } else if s[pos] == TAG_ARRAY {
            match unsigned_at(s, pos + 1) {
                Ok((count, next)) => {
                    if pos < next <= s.len() {
                        lemma_extent_all_ahead(s, next, count as nat);
                    }
                },
                Err(_) => {},
            }
        }
    }
}

/// A run of frames that the walk finds ends at or behind the place where it
/// started, and within the bytes.
pub proof fn lemma_extent_all_ahead(s: Seq<u8>, pos: int, count: nat)
    requires
        0 <= pos <= s.len(),
    ensures
        extent_all(s, pos, count) matches Ok(next) ==> pos <= next <= s.len(),
    decreases s.len() - pos, count + 1,
{
    if count > 0 {
        lemma_extent_ahead(s, pos);
        match extent(s, pos) {
            Ok(next) => {
                if pos < next <= s.len() {
                    lemma_extent_all_ahead(s, next, (count - 1) as nat);
                }
            },
            Err(_) => {},
        }
    }
}

/// Where a frame is read, the walk that looks for a whole frame finds the
/// same end: the two phases of decoding agree on how many bytes a frame takes.
pub proof fn lemma_scan_extent(s: Seq<u8>, pos: int)
    ensures
        scan(s, pos) matches Ok((_, next)) ==> extent(s, pos) == Ok::<int, Fault>(next),
    decreases s.len() - pos, 0nat,
{
    if !(pos < 0 || pos >= s.len()) && s[pos] == TAG_ARRAY {
        match unsigned_at(s, pos + 1) {
            Ok((count, next)) => {
                if count <= usize::MAX && pos < next <= s.len() {
                    lemma_scan_all_extent(s, next, count as nat);
                }
            },
            Err(_) => {},
        }
    }
}

/// Where a run of frames is read, the walk that looks for whole frames finds
/// the same end.
pub proof fn lemma_scan_all_extent(s: Seq<u8>, pos: int, count: nat)
    ensures
        scan_all(s, pos, count) matches Ok((_, next)) ==> extent_all(s, pos, count) == Ok::<
            int,
            Fault,
        >(next),
    decreases s.len() - pos, count + 1,
{
    if count > 0 {
        lemma_scan_extent(s, pos);
        match scan(s, pos) {
            Ok((_, next)) => {
                if pos < next <= s.len() {
                    lemma_scan_all_extent(s, next, (count - 1) as nat);
                }
            },
            Err(_) => {},
        }
    }
}

} // verus!
