use area_net::codec::Error;
use area_net::frame::Frame;
use area_net::FrameCodec;
use bytes::Bytes;
use bytes::BytesMut;

fn nested() -> Frame {
    let mut deepest = Frame::array();
    deepest.push_frame(Frame::Null).unwrap();
    deepest.push_frame(Frame::Bulk(Bytes::from_static(b"\r\n\r\n"))).unwrap();
    let mut inner = Frame::array();
    inner.push_integer(-7).unwrap();
    inner.push_frame(deepest).unwrap();
    inner.push_frame(Frame::array()).unwrap();
    let mut outer = Frame::array();
    outer.push_string("Outer".to_owned()).unwrap();
    outer.push_frame(inner).unwrap();
    outer.push_unsigned(u64::MAX).unwrap();
    outer.push_frame(Frame::Error("oops".to_owned())).unwrap();
    outer
}

fn written(frame: &Frame) -> Vec<u8> {
    let mut bytes = Vec::new();
    frame.write(&mut bytes).unwrap();
    bytes
}

#[test]
fn codec_decoder_on_simple_frames() {
    let mut codec = FrameCodec;
    let mut buf = BytesMut::from(&b"+hello\r\n:12\r\n@-3\r\n$-1\r\n$2\r\nhi\r\n-no\r\n"[..]);
    match codec.decode(&mut buf).unwrap() {
        Some(Frame::String(s)) => assert_eq!(s, "hello"),
        _ => panic!("expected a string"),
    }
    assert_eq!(&buf[..], b":12\r\n@-3\r\n$-1\r\n$2\r\nhi\r\n-no\r\n");
    assert!(matches!(codec.decode(&mut buf).unwrap(), Some(Frame::UInt(12))));
    assert!(matches!(codec.decode(&mut buf).unwrap(), Some(Frame::Int(-3))));
    assert!(matches!(codec.decode(&mut buf).unwrap(), Some(Frame::Null)));
    match codec.decode(&mut buf).unwrap() {
        Some(Frame::Bulk(data)) => assert_eq!(&data[..], b"hi"),
        _ => panic!("expected a bulk"),
    }
    match codec.decode(&mut buf).unwrap() {
        Some(Frame::Error(s)) => assert_eq!(s, "no"),
        _ => panic!("expected an error frame"),
    }
    assert!(buf.is_empty());
    assert!(codec.decode(&mut buf).unwrap().is_none());
}

#[test]
fn codec_decoder_on_array_frame() {
    let mut codec = FrameCodec;
    let mut buf = BytesMut::from(&b"*2\r\n+a\r\n*1\r\n:5\r\nrest"[..]);
    match codec.decode(&mut buf).unwrap() {
        Some(Frame::Array(items)) => {
            assert_eq!(items.len(), 2);
            assert!(matches!(&items[0], Frame::String(s) if s == "a"));
            match &items[1] {
                Frame::Array(inner) => {
                    assert_eq!(inner.len(), 1);
                    assert!(matches!(inner[0], Frame::UInt(5)));
                }
                _ => panic!("expected a list"),
            }
        }
        _ => panic!("expected a list"),
    }
    assert_eq!(&buf[..], b"rest");
}

#[test]
fn decoder_decoder_on_simple_frames() {
    let mut codec = FrameCodec;
    let mut buf = BytesMut::new();
    codec.encode(Frame::String("hello".to_owned()), &mut buf).unwrap();
    codec.encode(Frame::UInt(12), &mut buf).unwrap();
    codec.encode(Frame::Int(-3), &mut buf).unwrap();
    codec.encode(Frame::Null, &mut buf).unwrap();
    codec.encode(Frame::Bulk(Bytes::from_static(b"hi")), &mut buf).unwrap();
    codec.encode(Frame::Error("no".to_owned()), &mut buf).unwrap();
    assert_eq!(&buf[..], b"+hello\r\n:12\r\n@-3\r\n$-1\r\n$2\r\nhi\r\n-no\r\n");
}

#[test]
fn decoder_decoder_on_array_frame() {
    let mut codec = FrameCodec;
    let mut buf = BytesMut::from(&b"kept"[..]);
    let mut inner = Frame::array();
    inner.push_unsigned(5).unwrap();
    let mut frame = Frame::array();
    frame.push_string("a".to_owned()).unwrap();
    frame.push_frame(inner).unwrap();
    codec.encode(frame, &mut buf).unwrap();
    assert_eq!(&buf[..], b"kept*2\r\n+a\r\n*1\r\n:5\r\n");
}

#[test]
fn what_is_encoded_is_decoded_even_deeply_nested() {
    let mut codec = FrameCodec;
    let mut buf = BytesMut::new();
    let frame = nested();
    let bytes = written(&frame);
    assert_eq!(
        bytes,
        b"*4\r\n+Outer\r\n*3\r\n@-7\r\n*2\r\n$-1\r\n$4\r\n\r\n\r\n\r\n*0\r\n:18446744073709551615\r\n-oops\r\n"
    );
    codec.encode(frame, &mut buf).unwrap();
    assert_eq!(&buf[..], &bytes[..]);
    let back = codec.decode(&mut buf).unwrap().unwrap();
    assert!(buf.is_empty());
    assert_eq!(written(&back), bytes);
}

#[test]
fn a_frame_fed_prefix_by_prefix_comes_out_once_at_its_last_byte() {
    let mut codec = FrameCodec;
    let bytes = written(&nested());
    let mut buf = BytesMut::new();
    for (i, byte) in bytes.iter().enumerate() {
        assert!(codec.decode(&mut buf).unwrap().is_none());
        assert_eq!(buf.len(), i);
        buf.extend_from_slice(&[*byte]);
    }
    let back = codec.decode(&mut buf).unwrap().unwrap();
    assert_eq!(written(&back), bytes);
    assert!(buf.is_empty());
    assert!(codec.decode(&mut buf).unwrap().is_none());
}

#[test]
fn no_prefix_of_a_frame_is_taken_for_a_frame() {
    let mut codec = FrameCodec;
    let bytes = written(&nested());
    for k in 0..bytes.len() {
        let mut buf = BytesMut::from(&bytes[..k]);
        assert!(codec.decode(&mut buf).unwrap().is_none());
        assert_eq!(&buf[..], &bytes[..k]);
    }
}

#[test]
fn bytes_that_are_no_frame_are_refused_and_stay() {
    let mut codec = FrameCodec;
    let mut buf = BytesMut::from(&b"!nonsense\r\n"[..]);
    match codec.decode(&mut buf) {
        Err(Error::InvalidFrame { source, detail }) => {
            assert_eq!(detail, "");
            assert_eq!(source.to_string(), "Invalid Frame Type: Unexpected frame id: 33");
        }
        _ => panic!("expected an invalid frame"),
    }
    assert_eq!(&buf[..], b"!nonsense\r\n");
    let mut buf = BytesMut::from(&b"*1\r\n+\xc3\x28\r\n"[..]);
    match codec.decode(&mut buf) {
        Err(e) => assert_eq!(
            e.to_string(),
            "Invalid Frame:  >> Invalid Frame Content: Invalid UTF8"
        ),
        Ok(_) => panic!("expected an error"),
    }
    assert_eq!(buf.len(), 9);
}

#[test]
fn codec_errors_have_their_text() {
    assert_eq!(
        Error::Incomplete { detail: "x".to_owned() }.to_string(),
        "Incomplete Frame: x"
    );
    assert_eq!(
        Error::UnexpectedBytes { detail: "y".to_owned() }.to_string(),
        "Invalid Frame Content: y"
    );
    assert_eq!(Error::IoError { detail: "z".to_owned() }.to_string(), "Frame IO Error: z");
    assert_eq!(
        area_net::frame::Error::IoError { detail: "z".to_owned() }.to_string(),
        "IO Error: z"
    );
    assert_eq!(
        area_net::frame::Error::InvalidNumeric { detail: "n".to_owned() }.to_string(),
        "Invalid Numerical Value: n"
    );
}
