use ippper::attribute::{IppAttribute, IppAttributes};
use ippper::error::IppError;
use ippper::model::{
    DelimiterTag, IppHeader, IppVersion, JobState, PageOrientation, Resolution, WhichJob,
};
use ippper::request::{IppPayload, IppRequestResponse};
use ippper::service::common::{
    answer, build_error_response, operation_not_supported, DocumentTicket, IppReply, IppService,
    ServiceError,
};
use ippper::service::info::{PrinterInfo, PrinterInfoBuilder};
use ippper::service::job::{JobInfo, SimpleIppJobAttributes};
use ippper::service::printer::{make_url, security_of};
use ippper::service::simple::{found_job, select_jobs, RequestHead, SimpleIppService};
use ippper::status::StatusCode;
use ippper::utils::NameSet;
use ippper::value::IppValue;

fn keyword(s: &str) -> IppValue {
    IppValue::Keyword(s.to_string())
}

fn keywords(list: &[&str]) -> IppValue {
    IppValue::Array(list.iter().map(|s| keyword(s)).collect())
}

fn info() -> PrinterInfo {
    PrinterInfoBuilder::default().build().unwrap()
}

fn head(scheme: Option<&str>, uptime: u64) -> RequestHead {
    RequestHead { scheme: scheme.map(|s| s.to_string()), uptime }
}

fn request(
    operation: u16,
    request_id: u32,
    operation_attributes: Vec<(&str, IppValue)>,
    job_attributes: Vec<(&str, IppValue)>,
) -> IppRequestResponse<Vec<u8>> {
    let mut attributes = IppAttributes::new();
    attributes.add(
        DelimiterTag::OperationAttributes,
        IppAttribute::new("attributes-charset", IppValue::Charset("utf-8".to_string())),
    );
    for (name, value) in operation_attributes {
        attributes.add(DelimiterTag::OperationAttributes, IppAttribute::new(name, value));
    }
    for (name, value) in job_attributes {
        attributes.add(DelimiterTag::JobAttributes, IppAttribute::new(name, value));
    }
    IppRequestResponse {
        header: IppHeader::new(IppVersion::v2_0(), operation, request_id),
        attributes,
        payload: IppPayload::Stream(vec![1, 2, 3]),
    }
}

fn response(reply: IppReply<Vec<u8>>) -> IppRequestResponse<Vec<u8>> {
    match reply {
        IppReply::Response(r) => r,
        IppReply::Document(_) => panic!("a response was expected"),
    }
}

fn ticket(reply: IppReply<Vec<u8>>) -> DocumentTicket {
    match reply {
        IppReply::Document(task) => task.ticket,
        IppReply::Response(_) => panic!("a document was expected"),
    }
}

fn names(r: &IppRequestResponse<Vec<u8>>, group: usize) -> Vec<String> {
    let g = r.attributes.group(group);
    (0..g.len()).map(|i| g.attribute(i).name().to_string()).collect()
}

fn job_value(r: &IppRequestResponse<Vec<u8>>, name: &str) -> Option<IppValue> {
    r.attributes.find(DelimiterTag::JobAttributes, name).cloned()
}

fn status_message(r: &IppRequestResponse<Vec<u8>>) -> Option<IppValue> {
    r.attributes.find(DelimiterTag::OperationAttributes, "status-message").cloned()
}

fn job(id: i32, state: JobState) -> JobInfo {
    JobInfo {
        id,
        state,
        state_message: "m".to_string(),
        state_reasons: keyword("none"),
        attributes: SimpleIppJobAttributes {
            originating_user_name: "u".to_string(),
            media: "a4".to_string(),
            orientation: None,
            sides: "one-sided".to_string(),
            print_color_mode: "color".to_string(),
            printer_resolution: None,
        },
        created_at: 1,
        processing_at: None,
        completed_at: None,
    }
}

#[test]
fn urls() {
    assert_eq!(make_url(None, "defaulthost:631", "/", "/"), "ipp://defaulthost:631/");
    assert_eq!(make_url(Some("ipps"), "h", "/", "job/7"), "ipps://h/job/7");
    assert_eq!(make_url(Some("http"), "h:1", "/ipp/print/", "/"), "http://h:1/ipp/print/");
    assert_eq!(make_url(Some("http"), "h:1", "ipp/print", "job/7"), "http://h:1/ipp/print/job/7");
    assert_eq!(make_url(None, "h", "//a//", "/x"), "ipp://h/a/x");
    assert_eq!(make_url(None, "h", "", ""), "ipp://h/");
    let mut s = SimpleIppService::new(info());
    assert_eq!(s.make_url(None, "/"), "ipp://defaulthost:631/");
    s.set_host("printer.local:8631");
    s.set_basepath("/printers/one/");
    assert_eq!(s.make_url(Some("https"), "job/1000"), "https://printer.local:8631/printers/one/job/1000");
    assert_eq!(s.job_url(&head(Some("ipp"), 0), -5), "ipp://printer.local:8631/printers/one/job/-5");
}

#[test]
fn security_by_scheme() {
    assert_eq!(security_of(Some("ipps")), "tls");
    assert_eq!(security_of(Some("https")), "tls");
    assert_eq!(security_of(Some("ipp")), "none");
    assert_eq!(security_of(Some("http")), "none");
    assert_eq!(security_of(None), "none");
}

#[test]
fn all_printer_attributes_of_the_default_printer() {
    let mut s = SimpleIppService::new(info());
    let r = response(s.handle_request(&head(Some("ipps"), 42), request(0x000B, 1, vec![], vec![])));
    assert_eq!(r.header.operation_or_status, 0);
    assert_eq!(r.attributes.len(), 2);
    assert_eq!(names(&r, 0), vec!["attributes-charset", "attributes-natural-language"]);
    assert_eq!(r.attributes.group(1).tag(), DelimiterTag::PrinterAttributes);
    assert_eq!(
        names(&r, 1),
        vec![
            "printer-uri-supported",
            "uri-authentication-supported",
            "uri-security-supported",
            "printer-name",
            "printer-state",
            "printer-state-reasons",
            "ipp-versions-supported",
            "operations-supported",
            "multiple-document-jobs-supported",
            "charset-configured",
            "charset-supported",
            "natural-language-configured",
            "generated-natural-language-supported",
            "document-format-default",
            "document-format-supported",
            "printer-is-accepting-jobs",
            "pdl-override-supported",
            "printer-up-time",
            "compression-supported",
            "media-default",
            "media-supported",
            "orientation-requested-default",
            "orientation-requested-supported",
            "sides-default",
            "sides-supported",
            "print-color-mode-default",
            "print-color-mode-supported",
            "document-format-preferred",
            "pdf-versions-supported",
            "job-creation-attributes-supported",
            "printer-info",
            "printer-make-and-model",
        ]
    );
    let get = |name: &str| r.attributes.find(DelimiterTag::PrinterAttributes, name).cloned().unwrap();
    assert_eq!(get("printer-uri-supported"), IppValue::Uri("ipps://defaulthost:631/".to_string()));
    assert_eq!(get("uri-authentication-supported"), keyword("requesting-user-name"));
    assert_eq!(get("uri-security-supported"), keyword("tls"));
    assert_eq!(get("printer-name"), IppValue::NameWithoutLanguage("IppServer".to_string()));
    assert_eq!(get("printer-state"), IppValue::Enum(3));
    assert_eq!(get("printer-state-reasons"), keyword("none"));
    assert_eq!(get("ipp-versions-supported"), keywords(&["1.0", "1.1", "2.0"]));
    assert_eq!(
        get("operations-supported"),
        IppValue::Array(vec![
            IppValue::Enum(2),
            IppValue::Enum(4),
            IppValue::Enum(5),
            IppValue::Enum(6),
            IppValue::Enum(8),
            IppValue::Enum(9),
            IppValue::Enum(10),
            IppValue::Enum(11),
        ])
    );
    assert_eq!(get("multiple-document-jobs-supported"), IppValue::Boolean(false));
    assert_eq!(get("charset-configured"), IppValue::Charset("utf-8".to_string()));
    assert_eq!(get("charset-supported"), IppValue::Charset("utf-8".to_string()));
    assert_eq!(get("natural-language-configured"), IppValue::NaturalLanguage("en".to_string()));
    assert_eq!(
        get("generated-natural-language-supported"),
        IppValue::NaturalLanguage("en".to_string())
    );
    assert_eq!(get("document-format-default"), IppValue::MimeMediaType("application/pdf".to_string()));
    assert_eq!(
        get("document-format-supported"),
        IppValue::Array(vec![IppValue::MimeMediaType("application/pdf".to_string())])
    );
    assert_eq!(get("printer-is-accepting-jobs"), IppValue::Boolean(true));
    assert_eq!(get("pdl-override-supported"), keyword("attempted"));
    assert_eq!(get("printer-up-time"), IppValue::Integer(42));
    assert_eq!(get("compression-supported"), keywords(&["none", "gzip"]));
    assert_eq!(get("media-default"), keyword("iso_a4_210x297mm"));
    assert_eq!(get("media-supported"), keywords(&["iso_a4_210x297mm"]));
    assert_eq!(get("orientation-requested-default"), IppValue::NoValue);
    assert_eq!(get("orientation-requested-supported"), IppValue::Array(vec![IppValue::Enum(3)]));
    assert_eq!(get("sides-default"), keyword("one-sided"));
    assert_eq!(get("sides-supported"), keywords(&["one-sided"]));
    assert_eq!(get("print-color-mode-default"), keyword("monochrome"));
    assert_eq!(get("print-color-mode-supported"), keywords(&["monochrome", "color"]));
    assert_eq!(
        get("document-format-preferred"),
        IppValue::MimeMediaType("application/pdf".to_string())
    );
    assert_eq!(
        get("pdf-versions-supported"),
        keywords(&[
            "adobe-1.2",
            "adobe-1.3",
            "adobe-1.4",
            "adobe-1.5",
            "adobe-1.6",
            "adobe-1.7",
            "iso-19005-1_2005",
            "iso-32000-1_2008",
            "pwg-5102.3",
        ])
    );
    assert_eq!(
        get("job-creation-attributes-supported"),
        keywords(&["job-name", "media", "orientation-requested", "print-color-mode", "sides"])
    );
    assert_eq!(get("printer-info"), IppValue::TextWithoutLanguage("IppServer by ippper".to_string()));
    assert_eq!(
        get("printer-make-and-model"),
        IppValue::TextWithoutLanguage("IppServer by ippper".to_string())
    );
}

#[test]
fn printer_attributes_of_a_configured_printer() {
    let info = PrinterInfoBuilder::default()
        .name("Office".to_string())
        .info(None)
        .make_and_model(Some("Model X".to_string()))
        .uuid(Some([
            0x78, 0x6a, 0x55, 0x1c, 0x65, 0xa3, 0x43, 0xce, 0x89, 0xba, 0x33, 0xc5, 0x1b, 0xae,
            0x9b, 0xc2,
        ]))
        .document_format_supported(vec!["application/pdf".to_string(), "image/urf".to_string()])
        .document_format_default("image/urf".to_string())
        .document_format_preferred(None)
        .media_supported(vec!["a4".to_string(), "a5".to_string()])
        .media_default("a5".to_string())
        .orientation_supported(vec![PageOrientation::Portrait, PageOrientation::Landscape])
        .orientation_default(Some(PageOrientation::Landscape))
        .sides_supported(vec!["one-sided".to_string(), "two-sided-long-edge".to_string()])
        .sides_default("two-sided-long-edge".to_string())
        .print_color_mode_supported(vec!["color".to_string()])
        .print_color_mode_default("color".to_string())
        .printer_resolution_supported(vec![Resolution::new_dpi(300, 300), Resolution::new_dpi(600, 600)])
        .printer_resolution_default(Some(Resolution::new_dpi(600, 600)))
        .pdf_versions_supported(vec![])
        .urf_supported(vec!["V1.4".to_string(), "CP1".to_string()])
        .pwg_raster_document_type_supported(vec!["srgb_8".to_string()])
        .pwg_raster_document_resolution_supported(vec![Resolution::new_dpcm(100, 100)])
        .pwg_raster_document_sheet_back(Some("normal".to_string()))
        .build()
        .unwrap();
    let mut s = SimpleIppService::new(info);
    let r = response(s.handle_request(&head(None, 4294967297), request(0x000B, 1, vec![], vec![])));
    assert_eq!(
        names(&r, 1)[27..],
        [
            "printer-resolution-supported",
            "printer-resolution-default",
            "urf-supported",
            "pwg-raster-document-type-supported",
            "pwg-raster-document-resolution-supported",
            "pwg-raster-document-sheet-back",
            "job-creation-attributes-supported",
            "printer-make-and-model",
            "printer-uuid",
        ]
    );
    let get = |name: &str| r.attributes.find(DelimiterTag::PrinterAttributes, name).cloned().unwrap();
    assert_eq!(get("printer-uri-supported"), IppValue::Uri("ipp://defaulthost:631/".to_string()));
    assert_eq!(get("uri-security-supported"), keyword("none"));
    assert_eq!(get("printer-name"), IppValue::NameWithoutLanguage("Office".to_string()));
    assert_eq!(get("printer-up-time"), IppValue::Integer(1));
    assert_eq!(get("document-format-default"), IppValue::MimeMediaType("image/urf".to_string()));
    assert_eq!(get("media-default"), keyword("a5"));
    assert_eq!(get("media-supported"), keywords(&["a4", "a5"]));
    assert_eq!(get("orientation-requested-default"), IppValue::Enum(4));
    assert_eq!(
        get("orientation-requested-supported"),
        IppValue::Array(vec![IppValue::Enum(3), IppValue::Enum(4)])
    );
    assert_eq!(
        get("printer-resolution-supported"),
        IppValue::Array(vec![
            IppValue::Resolution { cross_feed: 300, feed: 300, units: 3 },
            IppValue::Resolution { cross_feed: 600, feed: 600, units: 3 },
        ])
    );
    assert_eq!(
        get("printer-resolution-default"),
        IppValue::Resolution { cross_feed: 600, feed: 600, units: 3 }
    );
    assert_eq!(get("urf-supported"), keywords(&["V1.4", "CP1"]));
    assert_eq!(get("pwg-raster-document-type-supported"), keywords(&["srgb_8"]));
    assert_eq!(
        get("pwg-raster-document-resolution-supported"),
        IppValue::Array(vec![IppValue::Resolution { cross_feed: 100, feed: 100, units: 4 }])
    );
    assert_eq!(get("pwg-raster-document-sheet-back"), keyword("normal"));
    assert_eq!(
        get("job-creation-attributes-supported"),
        keywords(&[
            "job-name",
            "media",
            "orientation-requested",
            "print-color-mode",
            "sides",
            "printer-resolution",
        ])
    );
    assert_eq!(get("printer-make-and-model"), IppValue::TextWithoutLanguage("Model X".to_string()));
    assert_eq!(
        get("printer-uuid"),
        IppValue::Uri("urn:uuid:786a551c-65a3-43ce-89ba-33c51bae9bc2".to_string())
    );
}

#[test]
fn uuid_that_is_not_there_is_left_out() {
    let mut s = SimpleIppService::new(info());
    let r = response(s.handle_request(
        &head(None, 0),
        request(0x000B, 1, vec![("requested-attributes", keyword("printer-uuid"))], vec![]),
    ));
    assert_eq!(r.attributes.len(), 2);
    assert_eq!(r.attributes.group(1).len(), 0);
}

#[test]
fn all_is_a_superset_of_any_other_request() {
    let s = SimpleIppService::new(info());
    let h = head(Some("ipp"), 3);
    let all = s.printer_attributes(&h, &NameSet::of(&["all"]));
    for wanted in [
        vec!["printer-name"],
        vec!["media-supported", "printer-state", "nothing"],
        vec![],
        vec!["all", "printer-name"],
    ] {
        let some = s.printer_attributes(&h, &NameSet::of(&wanted));
        for a in &some {
            assert!(all.contains(a));
        }
        if !wanted.contains(&"all") {
            assert_eq!(some.len(), wanted.iter().filter(|n| **n != "nothing").count());
        }
    }
    let j = job(1001, JobState::Pending);
    let whole = s.job_attributes_for(&h, &j, &NameSet::of(&["all"]));
    assert_eq!(whole.len(), 16);
    for wanted in [vec!["job-id"], vec!["job-template"], vec!["job-description", "media"], vec![]] {
        let some = s.job_attributes_for(&h, &j, &NameSet::of(&wanted));
        for a in &some {
            assert!(whole.contains(a));
        }
    }
    assert_eq!(s.job_attributes_for(&h, &j, &NameSet::of(&["job-template"])).len(), 4);
    assert_eq!(s.job_attributes_for(&h, &j, &NameSet::of(&["job-description"])).len(), 12);
    assert_eq!(s.job_attributes_for(&h, &j, &NameSet::of(&["job-description", "media"])).len(), 13);
    assert_eq!(s.lite_job_attributes_for(&h, &j).len(), 5);
}

#[test]
fn print_job_takes_the_template_from_the_request() {
    let mut s = SimpleIppService::new(info());
    let reply = s.handle_request(
        &head(None, 5),
        request(
            0x0002,
            9,
            vec![(
                "requesting-user-name",
                IppValue::NameWithLanguage { language: "en".to_string(), name: "carol".to_string() },
            )],
            vec![
                ("media", keyword("a5")),
                ("orientation-requested", IppValue::Enum(6)),
                ("sides", IppValue::Integer(2)),
                ("printer-resolution", IppValue::Resolution { cross_feed: 1, feed: 2, units: 4 }),
            ],
        ),
    );
    let task = match reply {
        IppReply::Document(task) => task,
        IppReply::Response(_) => panic!("a document was expected"),
    };
    assert_eq!(task.ticket.version, IppVersion::v2_0());
    assert_eq!(task.ticket.request_id, 9);
    assert_eq!(task.document.format, None);
    assert_eq!(task.document.payload, IppPayload::Stream(vec![1, 2, 3]));
    let expected = SimpleIppJobAttributes {
        originating_user_name: "carol".to_string(),
        media: "a5".to_string(),
        orientation: Some(PageOrientation::ReverseLandscape),
        sides: "one-sided".to_string(),
        print_color_mode: "monochrome".to_string(),
        printer_resolution: Some(Resolution::new_dpcm(1, 2)),
    };
    assert_eq!(task.document.job_attributes, expected);
    assert_eq!(
        task.ticket.job,
        JobInfo {
            id: 1000,
            state: JobState::Processing,
            state_message: "Processing".to_string(),
            state_reasons: keyword("none"),
            attributes: expected,
            created_at: 5,
            processing_at: Some(5),
            completed_at: None,
        }
    );
}

#[test]
fn document_format_that_is_not_supported_is_refused() {
    let mut s = SimpleIppService::new(info());
    let r = response(s.handle_request(
        &head(None, 5),
        request(
            0x0002,
            9,
            vec![("document-format", IppValue::MimeMediaType("image/png".to_string()))],
            vec![],
        ),
    ));
    assert_eq!(r.header.operation_or_status, 0x040A);
    assert_eq!(r.header.request_id, 9);
    assert_eq!(
        status_message(&r),
        Some(IppValue::TextWithoutLanguage("Document format not supported".to_string()))
    );
    // The job was created all the same, and the next one has the next id.
    let t = ticket(s.handle_request(&head(None, 6), request(0x0002, 10, vec![], vec![])));
    assert_eq!(t.job.id, 1001);
    // A format that is no media type counts as none.
    let t = ticket(s.handle_request(
        &head(None, 6),
        request(0x0002, 11, vec![("document-format", keyword("image/png"))], vec![]),
    ));
    assert_eq!(t.job.id, 1002);
    s.set_document_format(
        vec!["image/png".to_string(), "application/pdf".to_string()],
        "image/png".to_string(),
    );
    let reply = s.handle_request(
        &head(None, 5),
        request(
            0x0002,
            12,
            vec![("document-format", IppValue::MimeMediaType("image/png".to_string()))],
            vec![],
        ),
    );
    match reply {
        IppReply::Document(task) => assert_eq!(task.document.format, Some("image/png".to_string())),
        IppReply::Response(_) => panic!("a document was expected"),
    }
}

#[test]
fn job_ids_are_given_out_in_order() {
    let mut s = SimpleIppService::new(info());
    let mut seen = Vec::new();
    for i in 0..5u32 {
        let code = if i % 2 == 0 { 0x0002 } else { 0x0005 };
        let reply = s.handle_request(&head(None, i as u64), request(code, i, vec![], vec![]));
        let id = match reply {
            IppReply::Document(task) => task.ticket.job.id,
            IppReply::Response(r) => match job_value(&r, "job-id") {
                Some(IppValue::Integer(id)) => id,
                _ => panic!("a job id was expected"),
            },
        };
        assert!(id >= 1000);
        assert!(!seen.contains(&id));
        seen.push(id);
    }
    assert_eq!(seen, vec![1000, 1001, 1002, 1003, 1004]);
}

#[test]
fn times_of_a_job_are_in_order() {
    let mut s = SimpleIppService::new(info());
    let r = response(s.handle_request(&head(None, 10), request(0x0005, 1, vec![], vec![])));
    assert_eq!(job_value(&r, "job-state-message"), Some(IppValue::TextWithoutLanguage("Pending".to_string())));
    assert_eq!(job_value(&r, "job-state-reasons"), Some(keyword("none")));
    let t = ticket(s.handle_request(
        &head(None, 20),
        request(0x0006, 2, vec![("job-id", IppValue::Integer(1000))], vec![]),
    ));
    assert_eq!(t.job.created_at, 10);
    assert_eq!(t.job.processing_at, Some(20));
    assert_eq!(t.job.state, JobState::Processing);
    let _: IppRequestResponse<Vec<u8>> = s.document_handled(&head(None, 30), t, Ok(()));
    let r = response(s.handle_request(
        &head(None, 40),
        request(0x0009, 3, vec![("job-id", IppValue::Integer(1000))], vec![]),
    ));
    assert_eq!(r.header.operation_or_status, 0);
    assert_eq!(job_value(&r, "time-at-creation"), Some(IppValue::Integer(10)));
    assert_eq!(job_value(&r, "time-at-processing"), Some(IppValue::Integer(20)));
    assert_eq!(job_value(&r, "time-at-completed"), Some(IppValue::Integer(30)));
    assert_eq!(job_value(&r, "job-printer-up-time"), Some(IppValue::Integer(40)));
    assert_eq!(job_value(&r, "job-state"), Some(IppValue::Enum(9)));
    assert_eq!(job_value(&r, "job-name"), Some(IppValue::NameWithoutLanguage("Job #1000".to_string())));
    assert_eq!(
        job_value(&r, "job-originating-user-name"),
        Some(IppValue::NameWithoutLanguage("anonymous".to_string()))
    );
    assert_eq!(job_value(&r, "job-printer-uri"), Some(IppValue::Uri("ipp://defaulthost:631/".to_string())));
    assert_eq!(job_value(&r, "job-uri"), Some(IppValue::Uri("ipp://defaulthost:631/job/1000".to_string())));
    assert_eq!(job_value(&r, "media"), Some(keyword("iso_a4_210x297mm")));
    assert_eq!(job_value(&r, "orientation-requested"), Some(IppValue::NoValue));
    assert_eq!(job_value(&r, "sides"), Some(keyword("one-sided")));
    assert_eq!(job_value(&r, "print-color-mode"), Some(keyword("monochrome")));
    assert_eq!(job_value(&r, "printer-resolution"), None);
    assert_eq!(r.attributes.group(1).len(), 16);
}

#[test]
fn job_that_is_not_there_is_not_found() {
    let mut s = SimpleIppService::new(info());
    for code in [0x0006u16, 0x0009] {
        for attributes in [
            vec![("job-id", IppValue::Integer(1000))],
            vec![("job-id", keyword("1000"))],
            vec![],
        ] {
            let r = response(s.handle_request(&head(None, 1), request(code, 4, attributes, vec![])));
            assert_eq!(r.header.operation_or_status, 0x0406);
            assert_eq!(r.header.request_id, 4);
            assert_eq!(status_message(&r), Some(IppValue::TextWithoutLanguage("Not found".to_string())));
        }
    }
    assert_eq!(found_job(Some(job(3, JobState::Pending))), Ok(job(3, JobState::Pending)));
    assert_eq!(
        found_job(None),
        Err(IppError { code: StatusCode::ClientErrorNotFound, msg: "Not found".to_string() })
    );
}

#[test]
fn validate_and_cancel_are_acknowledged() {
    let mut s = SimpleIppService::new(info());
    for code in [0x0004u16, 0x0008] {
        let r = response(s.handle_request(&head(None, 1), request(code, 21, vec![], vec![])));
        assert_eq!(r.header.operation_or_status, 0);
        assert_eq!(r.header.request_id, 21);
        assert_eq!(r.attributes.len(), 1);
        assert_eq!(names(&r, 0), vec!["attributes-charset", "attributes-natural-language"]);
    }
    // Cancel-Job leaves the job as it is.
    let _ = s.handle_request(&head(None, 1), request(0x0005, 1, vec![], vec![]));
    let _ = s.handle_request(
        &head(None, 2),
        request(0x0008, 2, vec![("job-id", IppValue::Integer(1000))], vec![]),
    );
    let r = response(s.handle_request(
        &head(None, 3),
        request(0x0009, 3, vec![("job-id", IppValue::Integer(1000))], vec![]),
    ));
    assert_eq!(job_value(&r, "job-state"), Some(IppValue::Enum(3)));
}

#[test]
fn operations_that_are_not_offered_are_refused() {
    let mut s = SimpleIppService::new(info());
    for code in [0x0003u16, 0x0007, 0x000C, 0x000D, 0x000E, 0x0010, 0x0011, 0x0012, 0x0000, 0x000F, 0x4001]
    {
        let r = response(s.handle_request(&head(None, 1), request(code, 30, vec![], vec![])));
        assert_eq!(r.header.operation_or_status, 0x0501);
        assert_eq!(r.header.request_id, 30);
        assert_eq!(r.header.version, IppVersion::v2_0());
        assert_eq!(names(&r, 0), vec!["attributes-charset", "attributes-natural-language", "status-message"]);
        assert_eq!(
            status_message(&r),
            Some(IppValue::TextWithoutLanguage("Operation not supported".to_string()))
        );
    }
}

#[test]
fn versions_up_to_the_servers_major_are_taken() {
    let mut s = SimpleIppService::new(info());
    assert_eq!(IppService::<Vec<u8>>::version(&s), IppVersion::v2_0());
    for (major, minor, taken) in [(1u8, 0u8, true), (1, 1, true), (2, 0, true), (2, 2, true), (3, 0, false)] {
        let mut req = request(0x0004, 1, vec![], vec![]);
        req.header.version = IppVersion { major, minor };
        assert_eq!(IppService::<Vec<u8>>::check_version(&s, &req), taken);
        let r = response(s.handle_request(&head(None, 1), req));
        if taken {
            assert_eq!(r.header.operation_or_status, 0);
            assert_eq!(r.header.version, IppVersion { major, minor });
        } else {
            assert_eq!(r.header.operation_or_status, 0x0503);
            assert_eq!(r.header.version, IppVersion::v2_0());
        }
    }
}

#[test]
fn jobs_are_listed_by_class_and_up_to_the_limit() {
    let mut s = SimpleIppService::new(info());
    for i in 0..4u32 {
        let _ = s.handle_request(&head(None, 1), request(0x0005, i, vec![], vec![]));
    }
    let t = ticket(s.handle_request(&head(None, 2), request(0x0002, 9, vec![], vec![])));
    let _: IppRequestResponse<Vec<u8>> = s.document_handled(&head(None, 3), t, Ok(()));
    let ids = |r: &IppRequestResponse<Vec<u8>>| -> Vec<i32> {
        let mut ids = Vec::new();
        for i in 1..r.attributes.len() {
            let g = r.attributes.group(i);
            assert_eq!(g.tag(), DelimiterTag::JobAttributes);
            match g.get("job-id").unwrap().value() {
                IppValue::Integer(id) => ids.push(*id),
                _ => panic!("a job id was expected"),
            }
        }
        ids.sort();
        ids
    };
    let r = response(s.handle_request(&head(None, 4), request(0x000A, 1, vec![], vec![])));
    assert_eq!(r.header.operation_or_status, 0);
    assert_eq!(ids(&r), vec![1000, 1001, 1002, 1003]);
    assert_eq!(r.attributes.group(1).len(), 16);
    let r = response(s.handle_request(
        &head(None, 4),
        request(0x000A, 1, vec![("which-jobs", keyword("completed"))], vec![]),
    ));
    assert_eq!(ids(&r), vec![1004]);
    let r = response(s.handle_request(
        &head(None, 4),
        request(
            0x000A,
            1,
            vec![
                ("which-jobs", keyword("not-completed")),
                ("limit", IppValue::Integer(2)),
                ("requested-attributes", keywords(&["job-id", "job-state"])),
            ],
            vec![],
        ),
    ));
    assert_eq!(r.attributes.len(), 3);
    assert_eq!(names(&r, 1), vec!["job-id", "job-state"]);
    let r = response(s.handle_request(
        &head(None, 4),
        request(0x000A, 1, vec![("limit", IppValue::Integer(0))], vec![]),
    ));
    assert_eq!(r.header.operation_or_status, 0);
    assert_eq!(r.attributes.len(), 1);
    let r = response(s.handle_request(
        &head(None, 4),
        request(0x000A, 1, vec![("limit", IppValue::Integer(1))], vec![]),
    ));
    assert_eq!(r.attributes.len(), 2);
    let r = response(s.handle_request(
        &head(None, 4),
        request(0x000A, 1, vec![("limit", IppValue::Integer(4))], vec![]),
    ));
    assert_eq!(ids(&r), vec![1000, 1001, 1002, 1003]);
    let r = response(s.handle_request(
        &head(None, 4),
        request(0x000A, 1, vec![("limit", IppValue::Integer(-3))], vec![]),
    ));
    assert_eq!(r.header.operation_or_status, 0);
    assert_eq!(r.attributes.len(), 1);
    let r = response(s.handle_request(
        &head(None, 4),
        request(0x000A, 1, vec![("limit", IppValue::Integer(100))], vec![]),
    ));
    assert_eq!(r.attributes.len(), 5);
}

#[test]
fn listed_jobs_keep_their_order() {
    let entries = || {
        vec![
            job(1, JobState::Pending),
            job(2, JobState::Completed),
            job(3, JobState::Processing),
            job(4, JobState::Aborted),
            job(5, JobState::PendingHeld),
            job(6, JobState::Canceled),
        ]
    };
    let ids = |jobs: Vec<JobInfo>| jobs.iter().map(|j| j.id).collect::<Vec<i32>>();
    assert_eq!(ids(select_jobs(entries(), WhichJob::NotCompleted, None)), vec![1, 3, 5]);
    assert_eq!(ids(select_jobs(entries(), WhichJob::Completed, None)), vec![2, 4, 6]);
    assert_eq!(ids(select_jobs(entries(), WhichJob::Completed, Some(2))), vec![2, 4]);
    assert_eq!(ids(select_jobs(entries(), WhichJob::Completed, Some(3))), vec![2, 4, 6]);
    assert_eq!(ids(select_jobs(entries(), WhichJob::Completed, Some(9))), vec![2, 4, 6]);
    assert_eq!(ids(select_jobs(entries(), WhichJob::NotCompleted, Some(1))), vec![1]);
    assert_eq!(ids(select_jobs(entries(), WhichJob::NotCompleted, Some(0))), Vec::<i32>::new());
    assert_eq!(ids(select_jobs(entries(), WhichJob::Completed, Some(0))), Vec::<i32>::new());
    assert_eq!(ids(select_jobs(entries(), WhichJob::NotCompleted, Some(2))), vec![1, 3]);
    assert_eq!(ids(select_jobs(entries(), WhichJob::NotCompleted, Some(-4))), Vec::<i32>::new());
    assert_eq!(ids(select_jobs(entries(), WhichJob::Completed, Some(-1))), Vec::<i32>::new());
    assert_eq!(ids(select_jobs(vec![], WhichJob::NotCompleted, Some(1))), Vec::<i32>::new());
}

#[test]
fn sink_failure_with_a_status_is_reported_with_that_status() {
    let mut s = SimpleIppService::new(info());
    let t = ticket(s.handle_request(&head(None, 2), request(0x0002, 9, vec![], vec![])));
    let error = ServiceError::Ipp(IppError {
        code: StatusCode::ClientErrorDocumentFormatError,
        msg: "bad page".to_string(),
    });
    assert_eq!(error.to_text(), "Document format error \"bad page\"");
    let r: IppRequestResponse<Vec<u8>> = s.document_handled(&head(None, 3), t, Err(error));
    assert_eq!(r.header.operation_or_status, 0x0411);
    assert_eq!(status_message(&r), Some(IppValue::TextWithoutLanguage("bad page".to_string())));
    assert_eq!(job_value(&r, "job-state"), Some(IppValue::Enum(8)));
    assert_eq!(
        job_value(&r, "job-state-message"),
        Some(IppValue::TextWithoutLanguage("Aborted: Document format error \"bad page\"".to_string()))
    );
    let r = response(s.handle_request(
        &head(None, 4),
        request(0x000A, 1, vec![("which-jobs", keyword("completed"))], vec![]),
    ));
    assert_eq!(r.attributes.len(), 2);
    assert_eq!(job_value(&r, "time-at-completed"), Some(IppValue::Integer(3)));
}

#[test]
fn error_responses() {
    let r: IppRequestResponse<Vec<u8>> =
        build_error_response(IppVersion::v1_1(), 5, ServiceError::Other("boom".to_string()));
    assert_eq!(r.header, IppHeader::new(IppVersion::v1_1(), 0x0500, 5));
    assert_eq!(status_message(&r), Some(IppValue::TextWithoutLanguage("boom".to_string())));
    assert_eq!(r.payload, IppPayload::Empty);
    let r: IppRequestResponse<Vec<u8>> =
        build_error_response(IppVersion::v1_1(), 5, operation_not_supported());
    assert_eq!(r.header.operation_or_status, 0x0501);
    let ok: IppRequestResponse<Vec<u8>> =
        IppRequestResponse::new_response(IppVersion::v2_0(), StatusCode::SuccessfulOk, 6);
    let reply = answer(IppVersion::v2_0(), 6, Ok(IppReply::Response(ok)));
    assert_eq!(response(reply).header.operation_or_status, 0);
    let reply: IppReply<Vec<u8>> =
        answer(IppVersion::v2_0(), 7, Err(ServiceError::Other("no".to_string())));
    let r = response(reply);
    assert_eq!(r.header, IppHeader::new(IppVersion::v2_0(), 0x0500, 7));
}

#[test]
fn builder_sets_what_it_is_told() {
    let d = info();
    assert_eq!(d.name(), "IppServer");
    assert_eq!(d.info(), &Some("IppServer by ippper".to_string()));
    assert_eq!(d.make_and_model(), &Some("IppServer by ippper".to_string()));
    assert_eq!(d.uuid(), &None);
    assert_eq!(d.document_format_supported(), &vec!["application/pdf".to_string()]);
    assert_eq!(d.document_format_default(), "application/pdf");
    assert_eq!(d.document_format_preferred(), &Some("application/pdf".to_string()));
    assert_eq!(d.media_supported(), &vec!["iso_a4_210x297mm".to_string()]);
    assert_eq!(d.media_default(), "iso_a4_210x297mm");
    assert_eq!(d.orientation_supported(), &vec![PageOrientation::Portrait]);
    assert_eq!(d.orientation_default(), None);
    assert_eq!(d.sides_supported(), &vec!["one-sided".to_string()]);
    assert_eq!(d.sides_default(), "one-sided");
    assert_eq!(d.print_color_mode_supported(), &vec!["monochrome".to_string(), "color".to_string()]);
    assert_eq!(d.print_color_mode_default(), "monochrome");
    assert_eq!(d.printer_resolution_supported(), &Vec::<Resolution>::new());
    assert_eq!(d.printer_resolution_default(), None);
    assert_eq!(d.pdf_versions_supported().len(), 9);
    assert_eq!(d.urf_supported(), &Vec::<String>::new());
    assert_eq!(d.pwg_raster_document_type_supported(), &Vec::<String>::new());
    assert_eq!(d.pwg_raster_document_resolution_supported(), &Vec::<Resolution>::new());
    assert_eq!(d.pwg_raster_document_sheet_back(), &None);
    let mut s = SimpleIppService::new(d);
    s.set_info(PrinterInfoBuilder::default().name("Other".to_string()).build().unwrap());
    let r = response(s.handle_request(
        &head(None, 0),
        request(0x000B, 1, vec![("requested-attributes", keyword("printer-name"))], vec![]),
    ));
    assert_eq!(
        r.attributes.find(DelimiterTag::PrinterAttributes, "printer-name"),
        Some(&IppValue::NameWithoutLanguage("Other".to_string()))
    );
}

#[test]
fn payload_of_no_octets_is_handed_on() {
    let mut s = SimpleIppService::new(info());
    let mut req = request(0x0002, 1, vec![], vec![]);
    req.payload = IppPayload::Empty;
    match s.handle_request(&head(None, 0), req) {
        IppReply::Document(task) => assert_eq!(task.document.payload, IppPayload::Empty),
        IppReply::Response(_) => panic!("a document was expected"),
    }
    let mut req = request(0x0002, 1, vec![], vec![]);
    req.payload = IppPayload::Stream(vec![]);
    match s.handle_request(&head(None, 0), req) {
        IppReply::Document(task) => assert_eq!(task.document.payload, IppPayload::Stream(vec![])),
        IppReply::Response(_) => panic!("a document was expected"),
    }
}

#[test]
fn response_of_the_default_printer_is_written_and_read_back() {
    let mut s = SimpleIppService::new(info());
    let r = response(s.handle_request(&head(Some("ipp"), 42), request(0x000B, 77, vec![], vec![])));
    let bytes = r.to_bytes().expect("the response can be written");
    let parsed = ippper::parser::parse_message(&bytes).unwrap();
    assert_eq!(parsed.consumed, bytes.len());
    assert_eq!(parsed.header, r.header);
    assert_eq!(parsed.attributes.len(), 2);
    assert_eq!(names(&r, 0), vec!["attributes-charset", "attributes-natural-language"]);
    let written = r.attributes.group(1);
    let read = parsed.attributes.group(1);
    assert_eq!(read.tag(), DelimiterTag::PrinterAttributes);
    assert_eq!(read.len(), written.len());
    for i in 0..written.len() {
        assert_eq!(read.attribute(i).name(), written.attribute(i).name());
        let expected = match written.attribute(i).value() {
            IppValue::Array(items) if items.len() == 1 => items[0].clone(),
            IppValue::Array(items) if items.is_empty() => IppValue::NoValue,
            other => other.clone(),
        };
        assert_eq!(read.attribute(i).value(), &expected);
    }
    // The lists of one member of the default printer are read back as that member.
    let get = |name: &str| parsed.attributes.find(DelimiterTag::PrinterAttributes, name).cloned();
    assert_eq!(get("media-supported"), Some(keyword("iso_a4_210x297mm")));
    assert_eq!(get("sides-supported"), Some(keyword("one-sided")));
    assert_eq!(get("orientation-requested-supported"), Some(IppValue::Enum(3)));
    assert_eq!(
        get("document-format-supported"),
        Some(IppValue::MimeMediaType("application/pdf".to_string()))
    );
    assert_eq!(get("print-color-mode-supported"), Some(keywords(&["monochrome", "color"])));
    // The ipp crate reads the same.
    let theirs = ipp::parser::IppParser::new(ipp::reader::IppReader::new(std::io::Cursor::new(bytes)))
        .parse()
        .unwrap();
    assert_eq!(theirs.header().request_id, 77);
    let group = theirs.attributes().groups_of(ipp::model::DelimiterTag::PrinterAttributes).next().unwrap();
    assert_eq!(group.attributes().len(), written.len());
    assert_eq!(
        group.attributes().get("media-supported").unwrap().value(),
        &ipp::value::IppValue::Keyword("iso_a4_210x297mm".to_string())
    );
    assert_eq!(
        group.attributes().get("ipp-versions-supported").unwrap().value(),
        &ipp::value::IppValue::Array(vec![
            ipp::value::IppValue::Keyword("1.0".to_string()),
            ipp::value::IppValue::Keyword("1.1".to_string()),
            ipp::value::IppValue::Keyword("2.0".to_string()),
        ])
    );
}

#[test]
fn every_response_of_the_service_is_written() {
    let mut s = SimpleIppService::new(PrinterInfoBuilder::default().media_supported(vec![]).build().unwrap());
    let h = head(None, 1);
    let r = response(s.handle_request(&h, request(0x000B, 1, vec![], vec![])));
    let bytes = r.to_bytes().expect("the response can be written");
    let parsed = ippper::parser::parse_message(&bytes).unwrap();
    assert_eq!(
        parsed.attributes.find(DelimiterTag::PrinterAttributes, "media-supported"),
        Some(&IppValue::NoValue)
    );
    assert!(response(s.handle_request(&h, request(0x0005, 2, vec![], vec![]))).to_bytes().is_some());
    let t = ticket(s.handle_request(&h, request(0x0002, 3, vec![], vec![])));
    let done: IppRequestResponse<Vec<u8>> =
        s.document_handled(&h, t, Err(ServiceError::Other("no paper".to_string())));
    assert!(done.to_bytes().is_some());
    assert!(response(s.handle_request(&h, request(0x000A, 4, vec![], vec![]))).to_bytes().is_some());
    let r = response(s.handle_request(
        &h,
        request(0x0009, 5, vec![("job-id", IppValue::Integer(1000))], vec![]),
    ));
    assert_eq!(r.header.operation_or_status, 0);
    assert!(r.to_bytes().is_some());
    assert!(response(s.handle_request(&h, request(0x0003, 6, vec![], vec![]))).to_bytes().is_some());
}

#[test]
fn response_is_written_as_long_as_the_name_of_the_printer_is_short() {
    let h = head(None, 1);
    let longest = "n".repeat(65535);
    let mut s = SimpleIppService::new(PrinterInfoBuilder::default().name(longest.clone()).build().unwrap());
    let r = response(s.handle_request(&h, request(0x000B, 1, vec![], vec![])));
    let bytes = r.to_bytes().expect("a name of 65535 octets can be written");
    let parsed = ippper::parser::parse_message(&bytes).unwrap();
    assert_eq!(
        parsed.attributes.find(DelimiterTag::PrinterAttributes, "printer-name"),
        Some(&IppValue::NameWithoutLanguage(longest))
    );
    let too_long = "n".repeat(65536);
    let mut s = SimpleIppService::new(PrinterInfoBuilder::default().name(too_long).build().unwrap());
    let r = response(s.handle_request(&h, request(0x000B, 2, vec![], vec![])));
    assert!(r.to_bytes().is_none());
    // Only the group of printer attributes holds the name.
    assert!(response(s.handle_request(&h, request(0x0005, 3, vec![], vec![]))).to_bytes().is_some());
}

#[test]
fn job_that_a_request_creates_is_written_with_its_options() {
    let mut s = SimpleIppService::new(info());
    let h = head(Some("ipps"), 9);
    let t = ticket(s.handle_request(
        &h,
        request(
            0x0002,
            1,
            vec![("requesting-user-name", IppValue::NameWithoutLanguage("ann".to_string()))],
            vec![("media", keyword("iso_a5_148x210mm"))],
        ),
    ));
    let done: IppRequestResponse<Vec<u8>> = s.document_handled(&h, t, Ok(()));
    assert!(done.to_bytes().is_some());
    let r = response(s.handle_request(
        &h,
        request(
            0x0009,
            2,
            vec![
                ("job-id", IppValue::Integer(1000)),
                ("requested-attributes", keyword("all")),
            ],
            vec![],
        ),
    ));
    let bytes = r.to_bytes().expect("the attributes of the job can be written");
    let parsed = ippper::parser::parse_message(&bytes).unwrap();
    let get = |name: &str| parsed.attributes.find(DelimiterTag::JobAttributes, name).cloned();
    assert_eq!(get("media"), Some(keyword("iso_a5_148x210mm")));
    assert_eq!(get("job-name"), Some(IppValue::NameWithoutLanguage("Job #1000".to_string())));
    assert_eq!(get("job-originating-user-name"), Some(IppValue::NameWithoutLanguage("ann".to_string())));
    assert_eq!(get("job-state-message"), Some(IppValue::TextWithoutLanguage("Completed".to_string())));
}
