use ippper::attribute::IppAttributes;
use ippper::model::{DelimiterTag, IppHeader, IppVersion};
use ippper::request::{IppPayload, IppRequestResponse};
use ippper::service::common::{IppReply, IppResult, ServiceError};
use ippper::service::simple::RequestHead;
use ippper::service::IppService;
use ippper::status::StatusCode;
use ippper::value::IppValue;

/// A service that offers two operations, and counts what it is asked.
struct Counting {
    asked: u32,
}

impl IppService<Vec<u8>> for Counting {
    fn version(&self) -> IppVersion {
        IppVersion::v1_1()
    }

    fn validate_job(&mut self, _head: &RequestHead, req: IppRequestResponse<Vec<u8>>) -> IppResult<Vec<u8>> {
        self.asked += 1;
        Ok(IppReply::Response(IppRequestResponse::new_response(
            req.header.version,
            StatusCode::SuccessfulOk,
            req.header.request_id,
        )))
    }

    fn cancel_job(&mut self, _head: &RequestHead, _req: IppRequestResponse<Vec<u8>>) -> IppResult<Vec<u8>> {
        self.asked += 1;
        Err(ServiceError::Other("cannot cancel".to_string()))
    }
}

fn request(major: u8, operation: u16, request_id: u32) -> IppRequestResponse<Vec<u8>> {
    IppRequestResponse {
        header: IppHeader::new(IppVersion { major, minor: 0 }, operation, request_id),
        attributes: IppAttributes::new(),
        payload: IppPayload::Empty,
    }
}

fn head() -> RequestHead {
    RequestHead { scheme: None, uptime: 0 }
}

fn response(reply: IppReply<Vec<u8>>) -> IppRequestResponse<Vec<u8>> {
    match reply {
        IppReply::Response(r) => r,
        IppReply::Document(_) => panic!("a response was expected"),
    }
}

#[test]
fn dispatcher_hands_a_request_to_its_operation() {
    let mut s = Counting { asked: 0 };
    let r = response(s.handle_request(&head(), request(1, 0x0004, 11)));
    assert_eq!(r.header, IppHeader::new(IppVersion::v1_0(), 0x0000, 11));
    assert_eq!(s.asked, 1);
}

#[test]
fn dispatcher_reports_the_failure_of_an_operation() {
    let mut s = Counting { asked: 0 };
    let r = response(s.handle_request(&head(), request(1, 0x0008, 12)));
    assert_eq!(r.header, IppHeader::new(IppVersion::v1_0(), 0x0500, 12));
    assert_eq!(
        r.attributes.find(DelimiterTag::OperationAttributes, "status-message"),
        Some(&IppValue::TextWithoutLanguage("cannot cancel".to_string()))
    );
    assert_eq!(s.asked, 1);
}

#[test]
fn dispatcher_refuses_what_the_service_does_not_define() {
    let mut s = Counting { asked: 0 };
    for operation in [0x0002u16, 0x0003, 0x0005, 0x0006, 0x0009, 0x000A, 0x000B, 0x0012, 0x0001, 0x4002] {
        let r = response(s.handle_request(&head(), request(1, operation, 13)));
        assert_eq!(r.header, IppHeader::new(IppVersion::v1_0(), 0x0501, 13));
        assert_eq!(
            r.attributes.find(DelimiterTag::OperationAttributes, "status-message"),
            Some(&IppValue::TextWithoutLanguage("Operation not supported".to_string()))
        );
    }
    assert_eq!(s.asked, 0);
}

#[test]
fn dispatcher_refuses_a_version_above_its_own() {
    let mut s = Counting { asked: 0 };
    let r = response(s.handle_request(&head(), request(2, 0x0004, 14)));
    assert_eq!(r.header, IppHeader::new(IppVersion::v1_1(), 0x0503, 14));
    assert_eq!(s.asked, 0);
    assert!(s.check_version(&request(1, 0x0004, 1)));
    assert!(s.check_version(&request(0, 0x0004, 1)));
    assert!(!s.check_version(&request(2, 0x0004, 1)));
}

#[test]
fn document_of_a_service_without_jobs_is_answered_plainly() {
    let mut s = Counting { asked: 0 };
    let ticket = ippper::service::common::DocumentTicket {
        version: IppVersion::v1_1(),
        request_id: 15,
        job: ippper::service::job::JobInfo {
            id: 1,
            state: ippper::model::JobState::Processing,
            state_message: String::new(),
            state_reasons: IppValue::NoValue,
            attributes: ippper::service::job::SimpleIppJobAttributes {
                originating_user_name: String::new(),
                media: String::new(),
                orientation: None,
                sides: String::new(),
                print_color_mode: String::new(),
                printer_resolution: None,
            },
            created_at: 0,
            processing_at: None,
            completed_at: None,
        },
    };
    let r = s.document_handled(&head(), ticket, Ok(()));
    assert_eq!(r.header, IppHeader::new(IppVersion::v1_1(), 0x0000, 15));
    assert_eq!(r.attributes.len(), 1);
}
