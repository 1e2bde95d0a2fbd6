use ippper::attribute::{IppAttribute, IppAttributes};
use ippper::model::{DelimiterTag, IppHeader, IppVersion};
use ippper::request::{IppPayload, IppRequestResponse};
use ippper::service::common::{IppReply, IppService, ServiceError};
use ippper::service::info::PrinterInfoBuilder;
use ippper::service::simple::{RequestHead, SimpleIppService};
use ippper::value::IppValue;

fn service() -> SimpleIppService {
    SimpleIppService::new(PrinterInfoBuilder::default().build().unwrap())
}

fn head(uptime: u64) -> RequestHead {
    RequestHead { scheme: Some("ipp".to_string()), uptime }
}

fn request(
    version: IppVersion,
    operation: u16,
    request_id: u32,
    operation_attributes: Vec<(&str, IppValue)>,
    payload: Vec<u8>,
) -> IppRequestResponse<Vec<u8>> {
    let mut attributes = IppAttributes::new();
    attributes.add(
        DelimiterTag::OperationAttributes,
        IppAttribute::new("attributes-charset", IppValue::Charset("utf-8".to_string())),
    );
    attributes.add(
        DelimiterTag::OperationAttributes,
        IppAttribute::new("attributes-natural-language", IppValue::NaturalLanguage("en".to_string())),
    );
    for (name, value) in operation_attributes {
        attributes.add(DelimiterTag::OperationAttributes, IppAttribute::new(name, value));
    }
    IppRequestResponse {
        header: IppHeader::new(version, operation, request_id),
        attributes,
        payload: IppPayload::Stream(payload),
    }
}

fn response(reply: IppReply<Vec<u8>>) -> IppRequestResponse<Vec<u8>> {
    match reply {
        IppReply::Response(r) => r,
        IppReply::Document(_) => panic!("a response was expected"),
    }
}

fn value_of(r: &IppRequestResponse<Vec<u8>>, tag: DelimiterTag, name: &str) -> Option<IppValue> {
    r.attributes.find(tag, name).cloned()
}

#[test]
fn get_printer_attributes_baseline() {
    let mut s = service();
    let req = request(
        IppVersion::v2_0(),
        0x000B,
        1,
        vec![
            ("printer-uri", IppValue::Uri("ipp://host/".to_string())),
            (
                "requested-attributes",
                IppValue::Array(vec![
                    IppValue::Keyword("printer-name".to_string()),
                    IppValue::Keyword("printer-state".to_string()),
                ]),
            ),
        ],
        vec![],
    );
    let r = response(s.handle_request(&head(5), req));
    assert_eq!(r.header.operation_or_status, 0x0000);
    assert_eq!(r.header.request_id, 1);
    assert_eq!(r.header.version, IppVersion::v2_0());
    assert_eq!(r.attributes.len(), 2);
    let printer = r.attributes.group(1);
    assert_eq!(printer.tag(), DelimiterTag::PrinterAttributes);
    assert_eq!(printer.len(), 2);
    assert_eq!(
        printer.get("printer-name").unwrap().value(),
        &IppValue::NameWithoutLanguage("IppServer".to_string())
    );
    assert_eq!(printer.get("printer-state").unwrap().value(), &IppValue::Enum(3));
}

#[test]
fn print_job_happy_path() {
    let mut s = service();
    let body = b"%PDF-1.4\n...".to_vec();
    let req = request(
        IppVersion::v2_0(),
        0x0002,
        2,
        vec![
            ("document-format", IppValue::MimeMediaType("application/pdf".to_string())),
            ("compression", IppValue::Keyword("none".to_string())),
            ("requesting-user-name", IppValue::NameWithoutLanguage("alice".to_string())),
        ],
        body.clone(),
    );
    let task = match s.handle_request(&head(7), req) {
        IppReply::Document(task) => task,
        IppReply::Response(_) => panic!("a document was expected"),
    };
    assert_eq!(task.document.format, Some("application/pdf".to_string()));
    assert_eq!(task.document.job_attributes.originating_user_name, "alice");
    assert_eq!(task.document.payload, IppPayload::Stream(body));
    assert_eq!(task.ticket.job.id, 1000);
    let r: IppRequestResponse<Vec<u8>> = s.document_handled(&head(9), task.ticket, Ok(()));
    assert_eq!(r.header.operation_or_status, 0x0000);
    assert_eq!(r.header.request_id, 2);
    assert_eq!(value_of(&r, DelimiterTag::JobAttributes, "job-id"), Some(IppValue::Integer(1000)));
    assert_eq!(value_of(&r, DelimiterTag::JobAttributes, "job-state"), Some(IppValue::Enum(9)));
    assert_eq!(
        value_of(&r, DelimiterTag::JobAttributes, "job-state-message"),
        Some(IppValue::TextWithoutLanguage("Completed".to_string()))
    );
    assert_eq!(
        value_of(&r, DelimiterTag::JobAttributes, "job-uri"),
        Some(IppValue::Uri("ipp://defaulthost:631/job/1000".to_string()))
    );
}

#[test]
fn unsupported_compression() {
    let mut s = service();
    let req = request(
        IppVersion::v2_0(),
        0x0002,
        3,
        vec![("compression", IppValue::Keyword("deflate".to_string()))],
        vec![1, 2, 3],
    );
    let r = response(s.handle_request(&head(1), req));
    assert_eq!(r.header.operation_or_status, 0x040F);
    assert_eq!(r.header.request_id, 3);
    assert_eq!(
        value_of(&r, DelimiterTag::OperationAttributes, "status-message"),
        Some(IppValue::TextWithoutLanguage("Compression not supported".to_string()))
    );
}

#[test]
fn version_negotiation() {
    let mut s = service();
    let req = request(IppVersion { major: 3, minor: 0 }, 0x000B, 4, vec![], vec![]);
    let r = response(s.handle_request(&head(1), req));
    assert_eq!(r.header.operation_or_status, 0x0503);
    assert_eq!(r.header.request_id, 4);
    assert_eq!(r.header.version, IppVersion::v2_0());
    assert_eq!(
        value_of(&r, DelimiterTag::OperationAttributes, "status-message"),
        Some(IppValue::TextWithoutLanguage("Version not supported".to_string()))
    );
}

#[test]
fn create_job_then_send_document() {
    let mut s = service();
    let create = request(
        IppVersion::v2_0(),
        0x0005,
        5,
        vec![("requesting-user-name", IppValue::NameWithoutLanguage("bob".to_string()))],
        vec![],
    );
    let r = response(s.handle_request(&head(10), create));
    assert_eq!(r.header.operation_or_status, 0x0000);
    assert_eq!(value_of(&r, DelimiterTag::JobAttributes, "job-id"), Some(IppValue::Integer(1000)));
    assert_eq!(value_of(&r, DelimiterTag::JobAttributes, "job-state"), Some(IppValue::Enum(3)));
    let send = request(
        IppVersion::v2_0(),
        0x0006,
        6,
        vec![("job-id", IppValue::Integer(1000))],
        b"document".to_vec(),
    );
    let task = match s.handle_request(&head(11), send) {
        IppReply::Document(task) => task,
        IppReply::Response(_) => panic!("a document was expected"),
    };
    assert_eq!(task.document.job_attributes.originating_user_name, "bob");
    assert_eq!(task.document.payload, IppPayload::Stream(b"document".to_vec()));
    assert_eq!(task.ticket.job.id, 1000);
    assert_eq!(task.ticket.job.processing_at, Some(11));
    let r: IppRequestResponse<Vec<u8>> = s.document_handled(&head(12), task.ticket, Ok(()));
    assert_eq!(r.header.request_id, 6);
    assert_eq!(value_of(&r, DelimiterTag::JobAttributes, "job-id"), Some(IppValue::Integer(1000)));
    assert_eq!(value_of(&r, DelimiterTag::JobAttributes, "job-state"), Some(IppValue::Enum(9)));
}

#[test]
fn gzip_payload_is_marked_for_inflating() {
    let mut s = service();
    let zipped = vec![0x1f, 0x8b, 0x08, 0x00];
    let req = request(
        IppVersion::v2_0(),
        0x0002,
        7,
        vec![("compression", IppValue::Keyword("gzip".to_string()))],
        zipped.clone(),
    );
    let task = match s.handle_request(&head(1), req) {
        IppReply::Document(task) => task,
        IppReply::Response(_) => panic!("a document was expected"),
    };
    assert_eq!(task.document.payload, IppPayload::Gzip(Box::new(IppPayload::Stream(zipped))));
}

#[test]
fn sink_failure_aborts_the_job() {
    let mut s = service();
    let req = request(IppVersion::v1_1(), 0x0002, 8, vec![], vec![]);
    let task = match s.handle_request(&head(1), req) {
        IppReply::Document(task) => task,
        IppReply::Response(_) => panic!("a document was expected"),
    };
    let r: IppRequestResponse<Vec<u8>> =
        s.document_handled(&head(2), task.ticket, Err(ServiceError::Other("disk full".to_string())));
    assert_eq!(r.header.operation_or_status, 0x0500);
    assert_eq!(
        value_of(&r, DelimiterTag::OperationAttributes, "status-message"),
        Some(IppValue::TextWithoutLanguage("disk full".to_string()))
    );
    assert_eq!(value_of(&r, DelimiterTag::JobAttributes, "job-state"), Some(IppValue::Enum(8)));
    assert_eq!(
        value_of(&r, DelimiterTag::JobAttributes, "job-state-message"),
        Some(IppValue::TextWithoutLanguage("Aborted: disk full".to_string()))
    );
}

fn inflate(payload: IppPayload<Vec<u8>>) -> Vec<u8> {
    match payload {
        IppPayload::Empty => Vec::new(),
        IppPayload::Stream(octets) => octets,
        IppPayload::Gzip(inner) => {
            let zipped = inflate(*inner);
            let mut decoder = async_compression::futures::bufread::GzipDecoder::new(
                futures::io::BufReader::new(futures::io::Cursor::new(zipped)),
            );
            let mut out = Vec::new();
            futures::executor::block_on(futures::io::AsyncReadExt::read_to_end(&mut decoder, &mut out))
                .unwrap();
            out
        }
    }
}

#[test]
fn gzip_round_trip() {
    let mut s = service();
    let zipped: Vec<u8> = vec![
        0x1f, 0x8b, 0x08, 0x00, 0x00, 0x00, 0x00, 0x00, 0x02, 0xff, 0xcb, 0x48,
        0xcd, 0xc9, 0xc9, 0x57, 0x28, 0xcf, 0x2f, 0xca, 0x49, 0xe1, 0x02, 0x00,
        0x2d, 0x3b, 0x08, 0xaf, 0x0c, 0x00, 0x00, 0x00,
    ];
    let req = request(
        IppVersion::v2_0(),
        0x0002,
        7,
        vec![("compression", IppValue::Keyword("gzip".to_string()))],
        zipped,
    );
    let task = match s.handle_request(&head(1), req) {
        IppReply::Document(task) => task,
        IppReply::Response(_) => panic!("a document was expected"),
    };
    assert_eq!(inflate(task.document.payload), b"hello world\n".to_vec());
}
