use ippper::error::IppError;
use ippper::model::{
    DelimiterTag, IppHeader, IppVersion, JobState, Operation, PageOrientation, PrinterState,
    Resolution, WhichJob,
};
use ippper::status::StatusCode;
use ippper::text::{decimal, starts_with_char, str_eq, trim_matches};
use ippper::value::IppValue;

#[test]
fn resolution_in_dots_per_inch() {
    assert_eq!(Resolution::new_dpi(300, 600), Resolution { cross_feed: 300, feed: 600, units: 3 });
}

#[test]
fn resolution_in_dots_per_centimetre() {
    assert_eq!(Resolution::new_dpcm(118, 236), Resolution { cross_feed: 118, feed: 236, units: 4 });
}

#[test]
fn resolution_from_and_to_a_value() {
    let value = IppValue::Resolution { cross_feed: 1, feed: 2, units: 3 };
    assert_eq!(Resolution::try_from(value.clone()), Ok(Resolution::new_dpi(1, 2)));
    assert_eq!(IppValue::from(Resolution::new_dpi(1, 2)), value);
    assert_eq!(Resolution::try_from(IppValue::Integer(3)), Err(IppValue::Integer(3)));
    assert_eq!(Resolution::from_value(IppValue::NoValue), Err(IppValue::NoValue));
    assert_eq!(Resolution::new_dpcm(5, 6).into_value(), IppValue::Resolution {
        cross_feed: 5,
        feed: 6,
        units: 4
    });
}

#[test]
fn orientation_from_and_to_its_number() {
    assert_eq!(PageOrientation::try_from(3), Ok(PageOrientation::Portrait));
    assert_eq!(PageOrientation::try_from(4), Ok(PageOrientation::Landscape));
    assert_eq!(PageOrientation::try_from(5), Ok(PageOrientation::ReversePortrait));
    assert_eq!(PageOrientation::try_from(6), Ok(PageOrientation::ReverseLandscape));
    assert_eq!(PageOrientation::try_from(2), Err(2));
    assert_eq!(PageOrientation::try_from(7), Err(7));
    assert_eq!(i32::from(PageOrientation::Portrait), 3);
    assert_eq!(i32::from(PageOrientation::Landscape), 4);
    assert_eq!(i32::from(PageOrientation::ReversePortrait), 5);
    assert_eq!(i32::from(PageOrientation::ReverseLandscape), 6);
    assert_eq!(PageOrientation::from_i32(6), Some(PageOrientation::ReverseLandscape));
    assert_eq!(PageOrientation::from_i32(0), None);
    assert_eq!(PageOrientation::Landscape.to_i32(), 4);
}

#[test]
fn orientation_from_and_to_a_value() {
    assert_eq!(PageOrientation::try_from(IppValue::Enum(4)), Ok(PageOrientation::Landscape));
    assert_eq!(PageOrientation::try_from(IppValue::Enum(9)), Err(IppValue::Enum(9)));
    assert_eq!(PageOrientation::try_from(IppValue::Integer(4)), Err(IppValue::Integer(4)));
    assert_eq!(IppValue::from(PageOrientation::ReversePortrait), IppValue::Enum(5));
    assert_eq!(PageOrientation::Portrait.into_value(), IppValue::Enum(3));
    assert_eq!(
        PageOrientation::from_value(IppValue::Keyword("x".to_string())),
        Err(IppValue::Keyword("x".to_string()))
    );
}

#[test]
fn which_jobs_by_state() {
    assert_eq!(WhichJob::from(JobState::Completed), WhichJob::Completed);
    assert_eq!(WhichJob::from(JobState::Canceled), WhichJob::Completed);
    assert_eq!(WhichJob::from(JobState::Aborted), WhichJob::Completed);
    assert_eq!(WhichJob::from(JobState::Pending), WhichJob::NotCompleted);
    assert_eq!(WhichJob::from(JobState::PendingHeld), WhichJob::NotCompleted);
    assert_eq!(WhichJob::from(JobState::Processing), WhichJob::NotCompleted);
    assert_eq!(WhichJob::of(JobState::ProcessingStopped), WhichJob::NotCompleted);
}

#[test]
fn states_have_their_numbers() {
    assert_eq!(JobState::Pending.to_i32(), 3);
    assert_eq!(JobState::PendingHeld.to_i32(), 4);
    assert_eq!(JobState::Processing.to_i32(), 5);
    assert_eq!(JobState::ProcessingStopped.to_i32(), 6);
    assert_eq!(JobState::Canceled.to_i32(), 7);
    assert_eq!(JobState::Aborted.to_i32(), 8);
    assert_eq!(JobState::Completed.to_i32(), 9);
    assert_eq!(PrinterState::Idle.to_i32(), 3);
    assert_eq!(PrinterState::Processing.to_i32(), 4);
    assert_eq!(PrinterState::Stopped.to_i32(), 5);
}

#[test]
fn operations_have_their_codes() {
    let all = [
        (Operation::PrintJob, 0x0002),
        (Operation::PrintUri, 0x0003),
        (Operation::ValidateJob, 0x0004),
        (Operation::CreateJob, 0x0005),
        (Operation::SendDocument, 0x0006),
        (Operation::SendUri, 0x0007),
        (Operation::CancelJob, 0x0008),
        (Operation::GetJobAttributes, 0x0009),
        (Operation::GetJobs, 0x000A),
        (Operation::GetPrinterAttributes, 0x000B),
        (Operation::HoldJob, 0x000C),
        (Operation::ReleaseJob, 0x000D),
        (Operation::RestartJob, 0x000E),
        (Operation::PausePrinter, 0x0010),
        (Operation::ResumePrinter, 0x0011),
        (Operation::PurgeJobs, 0x0012),
    ];
    for (op, code) in all {
        assert_eq!(op.to_u16(), code);
        assert_eq!(Operation::from_u16(code), Some(op));
    }
    assert_eq!(Operation::from_u16(0x0000), None);
    assert_eq!(Operation::from_u16(0x000F), None);
    assert_eq!(Operation::from_u16(0x4001), None);
}

#[test]
fn delimiters_have_their_codes() {
    assert_eq!(DelimiterTag::OperationAttributes.to_u8(), 1);
    assert_eq!(DelimiterTag::JobAttributes.to_u8(), 2);
    assert_eq!(DelimiterTag::EndOfAttributes.to_u8(), 3);
    assert_eq!(DelimiterTag::PrinterAttributes.to_u8(), 4);
    assert_eq!(DelimiterTag::UnsupportedAttributes.to_u8(), 5);
    assert_eq!(DelimiterTag::from_u8(4), Some(DelimiterTag::PrinterAttributes));
    assert_eq!(DelimiterTag::from_u8(0), None);
    assert_eq!(DelimiterTag::from_u8(6), None);
}

#[test]
fn versions() {
    assert_eq!(IppVersion::v1_0(), IppVersion { major: 1, minor: 0 });
    assert_eq!(IppVersion::v1_1(), IppVersion { major: 1, minor: 1 });
    assert_eq!(IppVersion::v2_0(), IppVersion { major: 2, minor: 0 });
    assert_eq!(IppVersion::v2_1(), IppVersion { major: 2, minor: 1 });
    assert_eq!(IppVersion::v2_2(), IppVersion { major: 2, minor: 2 });
    let h = IppHeader::new(IppVersion::v2_0(), 7, 9);
    assert_eq!(h.version, IppVersion::v2_0());
    assert_eq!(h.operation_or_status, 7);
    assert_eq!(h.request_id, 9);
}

#[test]
fn status_codes_have_their_numbers_and_words() {
    assert_eq!(StatusCode::SuccessfulOk.to_u16(), 0x0000);
    assert_eq!(StatusCode::ClientErrorNotFound.to_u16(), 0x0406);
    assert_eq!(StatusCode::ClientErrorDocumentFormatNotSupported.to_u16(), 0x040A);
    assert_eq!(StatusCode::ClientErrorCompressionNotSupported.to_u16(), 0x040F);
    assert_eq!(StatusCode::ServerErrorInternalError.to_u16(), 0x0500);
    assert_eq!(StatusCode::ServerErrorOperationNotSupported.to_u16(), 0x0501);
    assert_eq!(StatusCode::ServerErrorVersionNotSupported.to_u16(), 0x0503);
    assert_eq!(StatusCode::from_u16(0x0406), Some(StatusCode::ClientErrorNotFound));
    assert_eq!(StatusCode::from_u16(0xffff), Some(StatusCode::UnknownStatusCode));
    assert_eq!(StatusCode::from_u16(0x0300), None);
    assert_eq!(StatusCode::SuccessfulOk.to_text(), "No error");
    assert_eq!(StatusCode::ClientErrorNotFound.to_text(), "Not found");
    assert_eq!(
        StatusCode::ClientErrorDocumentFormatNotSupported.to_text(),
        "Document format not supported"
    );
    assert_eq!(StatusCode::ClientErrorCompressionNotSupported.to_text(), "Compression not supported");
    assert_eq!(StatusCode::ServerErrorInternalError.to_text(), "Internal error");
    assert_eq!(StatusCode::ServerErrorOperationNotSupported.to_text(), "Operation not supported");
    assert_eq!(StatusCode::ServerErrorVersionNotSupported.to_text(), "Version not supported");
    assert_eq!(StatusCode::UnknownStatusCode.to_text(), "Unknown status code");
    assert!(StatusCode::SuccessfulOk.is_success());
    assert!(StatusCode::SuccessfulOkConflictingAttributes.is_success());
    assert!(!StatusCode::ClientErrorBadRequest.is_success());
}

#[test]
fn every_status_code_has_the_words_of_the_ipp_crate() {
    let mut seen = 0;
    for code in 0..=0xffffu16 {
        let ours = StatusCode::from_u16(code);
        let theirs: Option<ipp::model::StatusCode> = num_traits::FromPrimitive::from_u16(code);
        assert_eq!(ours.is_some(), theirs.is_some());
        if let (Some(o), Some(t)) = (ours, theirs) {
            assert_eq!(o.to_u16(), code);
            assert_eq!(o.to_text(), t.to_string());
            assert_eq!(o.is_success(), t.is_success());
            seen += 1;
        }
    }
    assert_eq!(seen, 33);
}

#[test]
fn error_text_is_the_status_and_the_quoted_message() {
    let e = IppError { code: StatusCode::ClientErrorNotFound, msg: "no \"job\"".to_string() };
    assert_eq!(e.to_text(), "Not found \"no \\\"job\\\"\"");
    let plain = IppError::from_status(StatusCode::ServerErrorBusy);
    assert_eq!(plain.code, StatusCode::ServerErrorBusy);
    assert_eq!(plain.msg, "Busy");
    assert_eq!(plain.to_text(), "Busy \"Busy\"");
}

#[test]
fn decimal_text_of_numbers() {
    assert_eq!(decimal(0), "0");
    assert_eq!(decimal(7), "7");
    assert_eq!(decimal(10), "10");
    assert_eq!(decimal(1000), "1000");
    assert_eq!(decimal(-1), "-1");
    assert_eq!(decimal(2147483647), "2147483647");
    assert_eq!(decimal(-2147483648), "-2147483648");
}

#[test]
fn text_helpers() {
    assert!(str_eq("abc", "abc"));
    assert!(!str_eq("abc", "abd"));
    assert!(!str_eq("abc", "ab"));
    assert!(str_eq("", ""));
    assert_eq!(trim_matches("/a/b/", '/'), "a/b");
    assert_eq!(trim_matches("///", '/'), "");
    assert_eq!(trim_matches("", '/'), "");
    assert_eq!(trim_matches("a", '/'), "a");
    assert_eq!(trim_matches("//\u{e9}/x//", '/'), "\u{e9}/x");
    assert!(starts_with_char("/x", '/'));
    assert!(!starts_with_char("x/", '/'));
    assert!(!starts_with_char("", '/'));
}
