use ippper::body::{Body, BodyInner, BodyStep};
use ippper::body_reader::{BodyReader, FrameEvent, ReadStep};
use ippper::handler::http::{handle_ipp_via_http, parse_failure, HttpAnswer};
use ippper::model::{DelimiterTag, IppVersion};
use ippper::parser::{parse_message, IppParseError, ParseStep, StreamParser, Utf8Part};
use ippper::request::{IppPayload, IppRequestResponse};
use ippper::server::{alpn_protocols, is_tls};
use ippper::status::StatusCode;
use ippper::utils::reader_stream::{ReadEvent, ReaderStream, StreamStep};
use ippper::value::IppValue;

#[test]
fn only_ipp_posts_are_dispatched() {
    assert_eq!(handle_ipp_via_http("POST", "/", Some("application/ipp")), HttpAnswer::Ipp);
    assert_eq!(handle_ipp_via_http("POST", "/any/path", Some("application/ipp")), HttpAnswer::Ipp);
    assert_eq!(
        handle_ipp_via_http("POST", "/", Some("text/plain")),
        HttpAnswer::UnsupportedMediaType
    );
    assert_eq!(handle_ipp_via_http("POST", "/", None), HttpAnswer::UnsupportedMediaType);
    assert_eq!(handle_ipp_via_http("GET", "/", None), HttpAnswer::Running);
    assert_eq!(handle_ipp_via_http("GET", "/", Some("application/ipp")), HttpAnswer::Running);
    assert_eq!(handle_ipp_via_http("GET", "/x", None), HttpAnswer::NotFound);
    assert_eq!(handle_ipp_via_http("PUT", "/", Some("application/ipp")), HttpAnswer::MethodNotAllowed);
    assert_eq!(handle_ipp_via_http("post", "/", Some("application/ipp")), HttpAnswer::MethodNotAllowed);
    assert_eq!(handle_ipp_via_http("DELETE", "/x", None), HttpAnswer::MethodNotAllowed);
}

#[test]
fn answers_have_their_status_and_words() {
    assert_eq!(HttpAnswer::Running.status(), 200);
    assert_eq!(HttpAnswer::Running.body_text(), "IPP server running...");
    assert_eq!(HttpAnswer::NotFound.status(), 404);
    assert_eq!(HttpAnswer::NotFound.body_text(), "404 Not Found");
    assert_eq!(HttpAnswer::MethodNotAllowed.status(), 405);
    assert_eq!(HttpAnswer::MethodNotAllowed.allow(), Some("POST"));
    assert_eq!(HttpAnswer::MethodNotAllowed.body_text(), "405 Method Not Allowed");
    assert_eq!(HttpAnswer::UnsupportedMediaType.status(), 415);
    assert_eq!(HttpAnswer::UnsupportedMediaType.allow(), None);
    assert_eq!(HttpAnswer::UnsupportedMediaType.body_text(), "415 Unsupported Media Type");
    assert_eq!(HttpAnswer::Ipp.status(), 200);
    assert_eq!(HttpAnswer::Ipp.content_type(), Some("application/ipp"));
    assert_eq!(HttpAnswer::Running.content_type(), None);
    assert_eq!(HttpAnswer::Ipp.body_text(), "");
}

#[test]
fn a_body_that_is_no_message_is_answered_with_an_internal_error() {
    let r: IppRequestResponse<Vec<u8>> =
        parse_failure(IppVersion::v2_0(), Some(9), IppParseError::UnexpectedEof);
    assert_eq!(r.header.operation_or_status, StatusCode::ServerErrorInternalError.to_u16());
    assert_eq!(r.header.request_id, 9);
    assert_eq!(r.header.version, IppVersion::v2_0());
    assert_eq!(
        r.attributes.find(DelimiterTag::OperationAttributes, "status-message"),
        Some(&IppValue::TextWithoutLanguage("unexpected end of input".to_string()))
    );
    let r: IppRequestResponse<Vec<u8>> =
        parse_failure(IppVersion::v1_1(), None, IppParseError::TruncatedHeader);
    assert_eq!(r.header.request_id, 0);
    assert_eq!(IppParseError::TruncatedHeader.to_text(), "truncated header");
    assert_eq!(IppParseError::MissingEndOfAttributes.to_text(), "missing end of attributes");
    assert_eq!(IppParseError::BadDelimiter(7).to_text(), "bad delimiter tag");
    assert_eq!(IppParseError::BadValueTag(0x21).to_text(), "bad value tag");
    assert_eq!(IppParseError::LengthMismatch.to_text(), "length mismatch");
    assert_eq!(IppParseError::Utf8(Utf8Part::Name).to_text(), "attribute name is not UTF-8");
    assert_eq!(IppParseError::Utf8(Utf8Part::Value).to_text(), "attribute value is not UTF-8");
    assert!(IppParseError::TruncatedHeader.is_incomplete());
    assert!(IppParseError::UnexpectedEof.is_incomplete());
    assert!(IppParseError::MissingEndOfAttributes.is_incomplete());
    assert!(!IppParseError::LengthMismatch.is_incomplete());
    assert!(!IppParseError::BadDelimiter(0).is_incomplete());
}

#[test]
fn a_message_is_parsed_as_its_body_comes() {
    let whole: Vec<u8> = vec![
        2, 0, 0, 2, 0, 0, 0, 5, 1, 0x44, 0, 1, b'a', 0, 2, b'x', b'y', 0x44, 0, 0, 0, 1, b'z', 3,
        b'd', b'o', b'c',
    ];
    let expected = parse_message(&whole).unwrap();
    assert_eq!(expected.consumed, 24);
    for cut in 0..whole.len() {
        let mut p = StreamParser::new();
        assert_eq!(p.request_id(), None);
        let first = p.feed(&whole[..cut]);
        if cut < 24 {
            assert_eq!(first, ParseStep::More);
            assert_eq!(p.request_id(), if cut >= 8 { Some(5) } else { None });
            match p.feed(&whole[cut..]) {
                ParseStep::Done { message, rest } => {
                    assert_eq!(message, expected);
                    assert_eq!(rest, b"doc".to_vec());
                }
                _ => panic!("the message was expected"),
            }
        } else {
            match first {
                ParseStep::Done { message, rest } => {
                    assert_eq!(message, expected);
                    assert_eq!(rest, whole[24..cut].to_vec());
                }
                _ => panic!("the message was expected"),
            }
        }
    }
}

#[test]
fn a_stream_that_is_no_message_fails_when_that_shows() {
    let mut p = StreamParser::new();
    assert_eq!(p.feed(&[2, 0, 0, 2, 0, 0, 0, 5, 1, 0x21, 0, 1]), ParseStep::More);
    assert_eq!(p.feed(&[b'a', 0, 3, 1, 2, 3]), ParseStep::Failed(IppParseError::LengthMismatch));
    assert_eq!(p.request_id(), Some(5));
    let mut q = StreamParser::new();
    assert_eq!(q.feed(&[2, 0, 0, 2, 0, 0, 0, 5, 1, 0x21, 0]), ParseStep::More);
    assert_eq!(q.finish(), IppParseError::UnexpectedEof);
    let mut e = StreamParser::new();
    assert_eq!(e.feed(&[2, 0, 0]), ParseStep::More);
    assert_eq!(e.finish(), IppParseError::TruncatedHeader);
    let mut g = StreamParser::new();
    assert_eq!(g.feed(&[2, 0, 0, 2, 0, 0, 0, 5, 1]), ParseStep::More);
    assert_eq!(g.finish(), IppParseError::MissingEndOfAttributes);
}

#[test]
fn empty_body_gives_nothing() {
    let mut b: Body<Vec<u8>> = Body::empty();
    assert_eq!(b.next(), BodyStep::End);
    assert_eq!(b.next(), BodyStep::End);
}

#[test]
fn body_of_octets_gives_them_once() {
    let mut b: Body<Vec<u8>> = Body::from_bytes(vec![1, 2, 3]);
    assert_eq!(b.next(), BodyStep::Frame(vec![1, 2, 3]));
    assert_eq!(b.next(), BodyStep::End);
    let mut t: Body<Vec<u8>> = Body::from_text("405 Method Not Allowed");
    assert_eq!(t.next(), BodyStep::Frame(b"405 Method Not Allowed".to_vec()));
    assert_eq!(t.next(), BodyStep::End);
}

#[test]
fn body_of_a_message_gives_the_message_and_then_the_payload() {
    let mut m: IppRequestResponse<Vec<u8>> =
        IppRequestResponse::new_response(IppVersion::v2_0(), StatusCode::SuccessfulOk, 3);
    m.payload = IppPayload::Stream(vec![9, 9]);
    let wire = m.to_bytes().unwrap();
    let mut b = Body::from_message(m).unwrap();
    assert_eq!(b.next(), BodyStep::Frame(wire));
    assert_eq!(b.next(), BodyStep::Payload);
    assert_eq!(b.next(), BodyStep::Payload);
    assert_eq!(
        b.inner,
        BodyInner::IppRequestResponse { header: None, payload: IppPayload::Stream(vec![9, 9]) }
    );
}

#[test]
fn reader_hands_a_chunk_over_piece_by_piece() {
    let mut r = BodyReader::new("body");
    assert_eq!(r.read(4), ReadStep::Poll);
    assert_eq!(r.on_frame(FrameEvent::Data(vec![1, 2, 3, 4, 5]), 2), ReadStep::Ready(vec![1, 2]));
    assert_eq!(r.read(2), ReadStep::Ready(vec![3, 4]));
    assert_eq!(r.read(2), ReadStep::Ready(vec![5]));
    assert_eq!(r.read(2), ReadStep::Poll);
    assert_eq!(r.on_frame(FrameEvent::Data(vec![6]), 8), ReadStep::Ready(vec![6]));
    assert_eq!(r.read(8), ReadStep::Poll);
    assert_eq!(r.on_frame(FrameEvent::Other, 8), ReadStep::Poll);
    assert_eq!(r.on_frame(FrameEvent::Pending, 8), ReadStep::Pending);
    assert_eq!(r.on_frame(FrameEvent::End, 8), ReadStep::Ready(vec![]));
    assert_eq!(
        r.on_frame(FrameEvent::Failed("reset".to_string()), 8),
        ReadStep::Failed("Error reading body: reset".to_string())
    );
    assert_eq!(*r.body(), "body");
    assert_eq!(r.into_body(), "body");
}

#[test]
fn reader_hands_nothing_over_where_nothing_is_wanted() {
    let mut r = BodyReader::new(0u8);
    assert_eq!(r.on_frame(FrameEvent::Data(vec![1, 2]), 0), ReadStep::Ready(vec![]));
    assert_eq!(r.read(5), ReadStep::Ready(vec![1, 2]));
    assert_eq!(r.on_frame(FrameEvent::Data(vec![]), 4), ReadStep::Poll);
    assert_eq!(r.read(4), ReadStep::Poll);
    assert_eq!(r.on_frame(FrameEvent::Data(vec![7]), 4), ReadStep::Ready(vec![7]));
    assert_eq!(r.on_frame(FrameEvent::End, 4), ReadStep::Ready(vec![]));
}

#[test]
fn stream_ends_with_its_reader() {
    let mut s = ReaderStream::new("reader");
    assert_eq!(s.capacity(), 4096);
    assert!(!s.is_done());
    assert_eq!(s.reader(), Some(&"reader"));
    assert_eq!(s.on_read(ReadEvent::Pending), StreamStep::Pending);
    assert_eq!(s.on_read(ReadEvent::Read(vec![1, 2])), StreamStep::Chunk(vec![1, 2]));
    assert!(!s.is_done());
    assert_eq!(s.on_read(ReadEvent::Read(vec![])), StreamStep::End);
    assert!(s.is_done());
    assert_eq!(s.reader(), None);
    assert_eq!(s.on_read(ReadEvent::Read(vec![3])), StreamStep::End);
    let mut f = ReaderStream::new(1u8);
    assert_eq!(
        f.on_read(ReadEvent::Failed("broken".to_string())),
        StreamStep::Failed("broken".to_string())
    );
    assert!(f.is_done());
    assert_eq!(f.on_read(ReadEvent::Pending), StreamStep::End);
}

#[test]
fn tls_begins_with_a_handshake() {
    assert!(is_tls(0x16));
    assert!(!is_tls(b'P'));
    assert!(!is_tls(b'G'));
    assert!(!is_tls(0));
    assert_eq!(
        alpn_protocols(),
        vec![b"h2".to_vec(), b"http/1.1".to_vec(), b"http/1.0".to_vec()]
    );
}
