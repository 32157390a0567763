use area_net::frame::get_line;
use area_net::frame::Cursor;
use area_net::frame::Error;
use area_net::frame::Frame;
use bytes::Bytes;

#[test]
fn get_line_works() {
    let mut b = Cursor::new(&b"Hello\r\nWorld"[..]);
    let a = get_line(&mut b).unwrap();
    assert_eq!(&b.get_ref()[b.position() as usize..], b"World");
    assert_eq!(&a, b"Hello");
}

#[test]
fn get_line_works_on_empty_buffer() {
    let mut b = Cursor::new(&b""[..]);
    let a = get_line(&mut b);
    assert!(a.is_err());
}

#[test]
fn get_line_works_with_end_of_frame_at_end_of_buffer() {
    let mut b = Cursor::new(&b"Hello World\r\n"[..]);
    let a = get_line(&mut b).unwrap();
    assert_eq!(&b.get_ref()[b.position() as usize..], b"");
    assert_eq!(&a, b"Hello World");
}

#[test]
fn get_line_works_with_just_end_of_frame() {
    let mut b = Cursor::new(&b"\r\n"[..]);
    let a = get_line(&mut b).unwrap();
    assert_eq!(&b.get_ref()[b.position() as usize..], b"");
    assert_eq!(&a, b"");
}

#[test]
fn should_encode_decode_a_string() {
    let frame = Frame::String("Hello World!".to_owned());
    let mut buf = Vec::new();
    frame.write(&mut buf).unwrap();
    let inner = buf;
    let mut cur = Cursor::new(inner.as_slice());
    let new_frame = Frame::parse(&mut cur).unwrap();
    match new_frame {
        Frame::String(s) => assert_eq!(s, "Hello World!"),
        _ => panic!("Expected a Frame::String"),
    }
}

#[test]
fn should_encode_decode_an_integer() {
    let frame = Frame::Int(-36);
    let mut buf = Vec::new();
    frame.write(&mut buf).unwrap();
    let inner = buf;
    let mut cur = Cursor::new(inner.as_slice());
    let new_frame = Frame::parse(&mut cur).unwrap();
    match new_frame {
        Frame::Int(i) => assert_eq!(i, -36),
        _ => panic!("Expected a Frame::Int"),
    }
}

#[test]
fn should_encode_decode_an_unsigned_integer() {
    let frame = Frame::UInt(36);
    let mut buf = Vec::new();
    frame.write(&mut buf).unwrap();
    let inner = buf;
    let mut cur = Cursor::new(inner.as_slice());
    let new_frame = Frame::parse(&mut cur).unwrap();
    match new_frame {
        Frame::UInt(i) => assert_eq!(i, 36),
        _ => panic!("Expected a Frame::UInt"),
    }
}

#[test]
fn should_encode_decode_an_array() {
    let mut frame = Frame::array();
    frame.push_integer(42).unwrap();
    frame.push_string("Hello World!".to_owned()).unwrap();
    let mut buf = Vec::new();
    frame.write(&mut buf).unwrap();
    let inner = buf;
    let mut cur = Cursor::new(inner.as_slice());
    let new_frame = Frame::parse(&mut cur).unwrap();
    match new_frame {
        Frame::Array(a) => {
            assert_eq!(a.len(), 2);
            match a[0] {
                Frame::Int(i) => assert_eq!(i, 42),
                _ => panic!("Expected a Frame::Int inside Frame::Array"),
            }
            match &a[1] {
                Frame::String(s) => assert_eq!(s, "Hello World!"),
                _ => panic!("Expected a Frame::String inside Frame::Array"),
            }
        }
        _ => panic!("Expected a Frame::Array"),
    }
}

#[test]
fn should_encode_decode_a_recursive_array() {
    let mut inner_frame = Frame::array();
    inner_frame.push_integer(42).unwrap();
    inner_frame.push_string("Inner String".to_owned()).unwrap();
    let mut frame = Frame::array();
    frame.push_string("Outer String".to_owned()).unwrap();
    frame.push_frame(inner_frame).unwrap();
    let mut buf = Vec::new();
    frame.write(&mut buf).unwrap();
    let inner = buf;
    let mut cur = Cursor::new(inner.as_slice());
    let new_frame = Frame::parse(&mut cur).unwrap();
    match new_frame {
        Frame::Array(a) => {
            assert_eq!(a.len(), 2);
            match &a[0] {
                Frame::String(s) => assert_eq!(s, "Outer String"),
                _ => panic!("Expected a Frame::Int inside Frame::Array"),
            }
            match &a[1] {
                Frame::Array(b) => {
                    assert_eq!(b.len(), 2);
                    match b[0] {
                        Frame::Int(i) => assert_eq!(i, 42),
                        _ => panic!("Expected a Frame::Int inside Frame::Array"),
                    }
                    match &b[1] {
                        Frame::String(s) => assert_eq!(s, "Inner String"),
                        _ => panic!("Expected a Frame::String inside Frame::Array"),
                    }
                }
                _ => panic!("Expected a Frame::Array"),
            }
        }
        _ => panic!("Expected a Frame::Array"),
    }
}

fn bytes_of(frame: &Frame) -> Vec<u8> {
    let mut buf = Vec::new();
    frame.write(&mut buf).unwrap();
    buf
}

#[test]
fn each_kind_of_frame_has_its_wire_form() {
    assert_eq!(bytes_of(&Frame::String("hi".to_owned())), b"+hi\r\n");
    assert_eq!(bytes_of(&Frame::Error("bad".to_owned())), b"-bad\r\n");
    assert_eq!(bytes_of(&Frame::UInt(0)), b":0\r\n");
    assert_eq!(bytes_of(&Frame::UInt(u64::MAX)), b":18446744073709551615\r\n");
    assert_eq!(bytes_of(&Frame::Int(i64::MIN)), b"@-9223372036854775808\r\n");
    assert_eq!(bytes_of(&Frame::Int(i64::MAX)), b"@9223372036854775807\r\n");
    assert_eq!(bytes_of(&Frame::Bulk(Bytes::from_static(b"a\r\nb"))), b"$4\r\na\r\nb\r\n");
    assert_eq!(bytes_of(&Frame::Null), b"$-1\r\n");
    assert_eq!(bytes_of(&Frame::array()), b"*0\r\n");
    let mut list = Frame::array();
    list.push_unsigned(7).unwrap();
    list.push_frame(Frame::Null).unwrap();
    assert_eq!(bytes_of(&list), b"*2\r\n:7\r\n$-1\r\n");
}

#[test]
fn bulk_and_null_are_read_back() {
    let mut cur = Cursor::new(&b"$4\r\na\r\nb\r\n$-1\r\n"[..]);
    match Frame::parse(&mut cur).unwrap() {
        Frame::Bulk(data) => assert_eq!(&data[..], b"a\r\nb"),
        _ => panic!("expected a bulk frame"),
    }
    assert_eq!(cur.position(), 10);
    assert!(matches!(Frame::parse(&mut cur).unwrap(), Frame::Null));
    assert_eq!(cur.position(), 15);
}

#[test]
fn pushing_to_a_frame_that_is_no_list_fails() {
    let mut frame = Frame::UInt(1);
    match frame.push_integer(2) {
        Err(Error::InvalidFrameType { detail }) => assert_eq!(detail, "Expected Frame Type Array"),
        _ => panic!("expected an error"),
    }
    assert!(matches!(frame, Frame::UInt(1)));
}

#[test]
fn check_reports_what_is_wrong() {
    let mut cur = Cursor::new(&b"?what\r\n"[..]);
    match Frame::check(&mut cur) {
        Err(e) => assert_eq!(e.to_string(), "Invalid Frame Type: Unexpected frame id: 63"),
        Ok(()) => panic!("expected an error"),
    }
    assert_eq!(cur.position(), 0);
    let mut cur = Cursor::new(&b":x\r\n"[..]);
    match Frame::check(&mut cur) {
        Err(e) => assert_eq!(e.to_string(), "Invalid Frame Content: Invalid unsigned frame"),
        Ok(()) => panic!("expected an error"),
    }
    let mut cur = Cursor::new(&b"@\r\n"[..]);
    match Frame::check(&mut cur) {
        Err(e) => assert_eq!(e.to_string(), "Invalid Frame Content: Invalid integer frame"),
        Ok(()) => panic!("expected an error"),
    }
    let mut cur = Cursor::new(&b"$-2\r\n"[..]);
    match Frame::check(&mut cur) {
        Err(e) => assert_eq!(e.to_string(), "Invalid Frame Content: Invalid null frame"),
        Ok(()) => panic!("expected an error"),
    }
    let mut cur = Cursor::new(&b"$1\r\nabc"[..]);
    match Frame::check(&mut cur) {
        Err(e) => assert_eq!(e.to_string(), "Invalid Frame Content: Invalid bulk frame"),
        Ok(()) => panic!("expected an error"),
    }
    let mut cur = Cursor::new(&b"*2\r\n:1\r\n"[..]);
    match Frame::check(&mut cur) {
        Err(e) => assert_eq!(e.to_string(), "Incomplete Frame: get line, buflen < 2"),
        Ok(()) => panic!("expected an error"),
    }
    let mut cur = Cursor::new(&b"+\xff\r\n"[..]);
    assert!(Frame::check(&mut cur).is_ok());
    cur.set_position(0);
    match Frame::parse(&mut cur) {
        Err(e) => assert_eq!(e.to_string(), "Invalid Frame Content: Invalid UTF8"),
        Ok(_) => panic!("expected an error"),
    }
}

#[test]
fn numbers_are_read_as_the_numeral_at_the_start_of_the_line() {
    let mut cur = Cursor::new(&b":0042 and more\r\n:-0\r\n:+\r\n@-12\r\n@+7\r\n"[..]);
    assert!(matches!(Frame::parse(&mut cur).unwrap(), Frame::UInt(42)));
    assert!(matches!(Frame::parse(&mut cur).unwrap(), Frame::UInt(0)));
    assert!(matches!(Frame::parse(&mut cur).unwrap(), Frame::UInt(0)));
    assert!(matches!(Frame::parse(&mut cur).unwrap(), Frame::Int(-12)));
    assert!(matches!(Frame::parse(&mut cur).unwrap(), Frame::Int(7)));
    let mut cur = Cursor::new(&b":-1\r\n"[..]);
    assert!(Frame::parse(&mut cur).is_err());
    let mut cur = Cursor::new(&b":18446744073709551616\r\n"[..]);
    assert!(Frame::parse(&mut cur).is_err());
    let mut cur = Cursor::new(&b"@9223372036854775808\r\n"[..]);
    assert!(Frame::parse(&mut cur).is_err());
    let mut cur = Cursor::new(&b"@-9223372036854775808\r\n"[..]);
    assert!(matches!(Frame::parse(&mut cur).unwrap(), Frame::Int(i64::MIN)));
}

#[test]
fn a_clone_is_written_like_the_frame_it_was_made_from() {
    let mut inner = Frame::array();
    inner.push_frame(Frame::Bulk(Bytes::from_static(b"xyz"))).unwrap();
    inner.push_frame(Frame::Error("e".to_owned())).unwrap();
    let mut frame = Frame::array();
    frame.push_frame(inner).unwrap();
    frame.push_integer(-1).unwrap();
    assert_eq!(bytes_of(&frame.clone()), bytes_of(&frame));
}
