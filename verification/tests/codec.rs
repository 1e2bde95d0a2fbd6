use ippper::attribute::{IppAttribute, IppAttributeGroup, IppAttributes};
use ippper::model::{DelimiterTag, IppHeader, IppVersion};
use ippper::parser::{parse_message, parse_value, IppParseError, Utf8Part};
use ippper::request::{IppPayload, IppRequestResponse};
use ippper::value::IppValue;

fn message(groups: Vec<(DelimiterTag, Vec<(&str, IppValue)>)>) -> IppRequestResponse<Vec<u8>> {
    let mut attributes = IppAttributes::new();
    for (tag, list) in groups {
        let mut group = IppAttributeGroup::new(tag);
        for (name, value) in list {
            group.insert(IppAttribute::new(name, value));
        }
        attributes.push_group(group);
    }
    IppRequestResponse {
        header: IppHeader::new(IppVersion::v2_0(), 0x000B, 0x01020304),
        attributes,
        payload: IppPayload::Empty,
    }
}

fn sample() -> IppRequestResponse<Vec<u8>> {
    message(vec![
        (
            DelimiterTag::OperationAttributes,
            vec![
                ("attributes-charset", IppValue::Charset("utf-8".to_string())),
                ("attributes-natural-language", IppValue::NaturalLanguage("en".to_string())),
                ("printer-uri", IppValue::Uri("ipp://host/".to_string())),
                (
                    "requested-attributes",
                    IppValue::Array(vec![
                        IppValue::Keyword("printer-name".to_string()),
                        IppValue::Keyword("printer-state".to_string()),
                        IppValue::Keyword("media-supported".to_string()),
                    ]),
                ),
            ],
        ),
        (
            DelimiterTag::JobAttributes,
            vec![
                ("copies", IppValue::Integer(-3)),
                ("orientation-requested", IppValue::Enum(4)),
                ("flag", IppValue::Boolean(true)),
                ("off", IppValue::Boolean(false)),
                ("octets", IppValue::OctetString(vec![0, 255, 7])),
                ("text", IppValue::TextWithoutLanguage("gr\u{fc}n".to_string())),
                ("name", IppValue::NameWithoutLanguage("n".to_string())),
                (
                    "text-lang",
                    IppValue::TextWithLanguage { language: "de".to_string(), text: "Hallo".to_string() },
                ),
                (
                    "name-lang",
                    IppValue::NameWithLanguage { language: "en".to_string(), name: "Bob".to_string() },
                ),
                ("scheme", IppValue::UriScheme("ipp".to_string())),
                ("range", IppValue::RangeOfInteger { min: -1, max: 2147483647 }),
                ("mime", IppValue::MimeMediaType("application/pdf".to_string())),
                (
                    "date",
                    IppValue::DateTime {
                        year: 2024,
                        month: 2,
                        day: 29,
                        hour: 23,
                        minutes: 59,
                        seconds: 58,
                        deci_seconds: 9,
                        utc_dir: b'+',
                        utc_hours: 1,
                        utc_mins: 30,
                    },
                ),
                ("member", IppValue::MemberAttrName("x".to_string())),
                ("resolution", IppValue::Resolution { cross_feed: 600, feed: -600, units: -3 }),
                ("nothing", IppValue::NoValue),
                ("other", IppValue::Other { tag: 0x10, data: vec![1, 2] }),
            ],
        ),
        (DelimiterTag::PrinterAttributes, vec![]),
        (DelimiterTag::UnsupportedAttributes, vec![("min", IppValue::Integer(-2147483648))]),
    ])
}

#[test]
fn parse_gives_back_what_was_written() {
    let m = sample();
    let mut bytes = m.to_bytes().unwrap();
    let wire_len = bytes.len();
    bytes.extend_from_slice(b"%PDF-1.4 payload");
    let parsed = parse_message(&bytes).unwrap();
    assert_eq!(parsed.header, m.header);
    assert_eq!(parsed.attributes, m.attributes);
    assert_eq!(parsed.consumed, wire_len);
    assert_eq!(&bytes[parsed.consumed..], b"%PDF-1.4 payload");
}

#[test]
fn message_is_written_octet_by_octet() {
    let m = message(vec![(
        DelimiterTag::PrinterAttributes,
        vec![
            ("test", IppValue::Integer(0x12345678)),
            (
                "list",
                IppValue::Array(vec![IppValue::Integer(-1), IppValue::Keyword("a".to_string())]),
            ),
        ],
    )]);
    let expected: Vec<u8> = vec![
        2, 0, 0x00, 0x0B, 1, 2, 3, 4, // header
        4, // printer attributes
        0x21, 0, 4, b't', b'e', b's', b't', 0, 4, 0x12, 0x34, 0x56, 0x78, // test
        0x21, 0, 4, b'l', b'i', b's', b't', 0, 4, 0xff, 0xff, 0xff, 0xff, // list, first value
        0x44, 0, 0, 0, 1, b'a', // list, second value
        3, // end of attributes
    ];
    assert_eq!(m.to_bytes(), Some(expected));
}

#[test]
fn parse_reads_a_single_value() {
    let data = [
        1, 1, 0, 0, 0, 0, 0, 0, 4, 0x21, 0x00, 0x04, b't', b'e', b's', b't', 0x00, 0x04, 0x12,
        0x34, 0x56, 0x78, 3,
    ];
    let parsed = parse_message(&data).unwrap();
    assert_eq!(parsed.header, IppHeader::new(IppVersion::v1_1(), 0, 0));
    assert_eq!(parsed.consumed, data.len());
    assert_eq!(parsed.attributes.len(), 1);
    assert_eq!(parsed.attributes.group(0).tag(), DelimiterTag::PrinterAttributes);
    assert_eq!(
        parsed.attributes.find(DelimiterTag::PrinterAttributes, "test"),
        Some(&IppValue::Integer(0x12345678))
    );
}

#[test]
fn parse_reads_no_attributes() {
    let parsed = parse_message(&[1, 1, 0, 0, 0, 0, 0, 0, 3]).unwrap();
    assert_eq!(parsed.attributes.len(), 0);
    assert_eq!(parsed.consumed, 9);
}

#[test]
fn parse_joins_values_without_a_name() {
    let data = [
        1, 1, 0, 0, 0, 0, 0, 0, 4, 0x21, 0, 4, b't', b'e', b's', b't', 0, 4, 0x12, 0x34, 0x56,
        0x78, 0x21, 0, 0, 0, 4, 0x77, 0x65, 0x43, 0x21, 3,
    ];
    let parsed = parse_message(&data).unwrap();
    assert_eq!(
        parsed.attributes.find(DelimiterTag::PrinterAttributes, "test"),
        Some(&IppValue::Array(vec![IppValue::Integer(0x12345678), IppValue::Integer(0x77654321)]))
    );
}

#[test]
fn parse_keeps_the_last_of_two_attributes_of_one_name() {
    let data = [
        1, 1, 0, 0, 0, 0, 0, 0, 1, 0x22, 0, 1, b'a', 0, 1, 0, 0x22, 0, 1, b'b', 0, 1, 1, 0x22, 0,
        1, b'a', 0, 1, 1, 3,
    ];
    let parsed = parse_message(&data).unwrap();
    let group = parsed.attributes.group(0);
    assert_eq!(group.len(), 2);
    assert_eq!(group.attribute(0).name(), "a");
    assert_eq!(group.attribute(0).value(), &IppValue::Boolean(true));
    assert_eq!(group.attribute(1).name(), "b");
}

#[test]
fn truncated_header_is_refused() {
    assert_eq!(parse_message(&[]), Err(IppParseError::TruncatedHeader));
    assert_eq!(parse_message(&[1, 1, 0, 0, 0, 0, 0]), Err(IppParseError::TruncatedHeader));
}

#[test]
fn missing_end_of_attributes_is_refused() {
    assert_eq!(parse_message(&[1, 1, 0, 0, 0, 0, 0, 0]), Err(IppParseError::MissingEndOfAttributes));
    assert_eq!(
        parse_message(&[1, 1, 0, 0, 0, 0, 0, 0, 1]),
        Err(IppParseError::MissingEndOfAttributes)
    );
    assert_eq!(
        parse_message(&[1, 1, 0, 0, 0, 0, 0, 0, 1, 0x22, 0, 1, b'a', 0, 1, 1]),
        Err(IppParseError::MissingEndOfAttributes)
    );
}

#[test]
fn body_that_ends_within_an_attribute_is_refused() {
    let whole = sample().to_bytes().unwrap();
    assert_eq!(parse_message(&whole[..20]), Err(IppParseError::UnexpectedEof));
    assert_eq!(
        parse_message(&[1, 1, 0, 0, 0, 0, 0, 0, 1, 0x22, 0]),
        Err(IppParseError::UnexpectedEof)
    );
    assert_eq!(
        parse_message(&[1, 1, 0, 0, 0, 0, 0, 0, 1, 0x22, 0, 1, b'a', 0]),
        Err(IppParseError::UnexpectedEof)
    );
    assert_eq!(
        parse_message(&[1, 1, 0, 0, 0, 0, 0, 0, 1, 0x22, 0, 1, b'a', 0, 2, 1]),
        Err(IppParseError::UnexpectedEof)
    );
}

#[test]
fn bad_delimiter_is_refused() {
    assert_eq!(parse_message(&[1, 1, 0, 0, 0, 0, 0, 0, 0, 3]), Err(IppParseError::BadDelimiter(0)));
    assert_eq!(
        parse_message(&[1, 1, 0, 0, 0, 0, 0, 0, 1, 0x0f, 3]),
        Err(IppParseError::BadDelimiter(0x0f))
    );
}

#[test]
fn value_outside_a_group_is_refused() {
    assert_eq!(
        parse_message(&[1, 1, 0, 0, 0, 0, 0, 0, 0x22, 0, 1, b'a', 0, 1, 1, 3]),
        Err(IppParseError::BadValueTag(0x22))
    );
}

#[test]
fn value_without_a_name_at_the_start_of_a_group_is_refused() {
    assert_eq!(
        parse_message(&[1, 1, 0, 0, 0, 0, 0, 0, 1, 0x21, 0, 0, 0, 4, 0, 0, 0, 1, 3]),
        Err(IppParseError::BadValueTag(0x21))
    );
}

#[test]
fn value_of_the_wrong_length_is_refused() {
    assert_eq!(
        parse_message(&[1, 1, 0, 0, 0, 0, 0, 0, 1, 0x21, 0, 1, b'a', 0, 3, 0, 0, 1, 3]),
        Err(IppParseError::LengthMismatch)
    );
    assert_eq!(parse_value(0x22, &[]), Err(IppParseError::LengthMismatch));
    assert_eq!(parse_value(0x13, &[0]), Err(IppParseError::LengthMismatch));
    assert_eq!(parse_value(0x31, &[0; 10]), Err(IppParseError::LengthMismatch));
    assert_eq!(parse_value(0x32, &[0; 8]), Err(IppParseError::LengthMismatch));
    assert_eq!(parse_value(0x33, &[0; 9]), Err(IppParseError::LengthMismatch));
    assert_eq!(parse_value(0x35, &[0, 1, b'e', 0, 2, b'x']), Err(IppParseError::LengthMismatch));
    assert_eq!(parse_value(0x36, &[0]), Err(IppParseError::LengthMismatch));
}

#[test]
fn name_that_is_no_utf8_is_refused() {
    assert_eq!(
        parse_message(&[1, 1, 0, 0, 0, 0, 0, 0, 1, 0x22, 0, 1, 0xff, 0, 1, 1, 3]),
        Err(IppParseError::Utf8(Utf8Part::Name))
    );
}

#[test]
fn text_that_is_no_utf8_is_refused() {
    assert_eq!(
        parse_message(&[1, 1, 0, 0, 0, 0, 0, 0, 1, 0x44, 0, 1, b'a', 0, 2, 0xc3, 0x28, 3]),
        Err(IppParseError::Utf8(Utf8Part::Value))
    );
    assert_eq!(
        parse_value(0x35, &[0, 1, 0xff, 0, 1, b'x']),
        Err(IppParseError::Utf8(Utf8Part::Value))
    );
}

#[test]
fn values_are_read_by_their_tags() {
    assert_eq!(parse_value(0x21, &[0xff, 0xff, 0xff, 0xfe]), Ok(IppValue::Integer(-2)));
    assert_eq!(parse_value(0x23, &[0, 0, 0, 9]), Ok(IppValue::Enum(9)));
    assert_eq!(parse_value(0x22, &[2]), Ok(IppValue::Boolean(true)));
    assert_eq!(parse_value(0x44, b"none"), Ok(IppValue::Keyword("none".to_string())));
    assert_eq!(
        parse_value(0x32, &[0, 0, 1, 44, 0, 0, 2, 88, 3]),
        Ok(IppValue::Resolution { cross_feed: 300, feed: 600, units: 3 })
    );
    assert_eq!(
        parse_value(0x32, &[0, 0, 1, 44, 0, 0, 2, 88, 0xfd]),
        Ok(IppValue::Resolution { cross_feed: 300, feed: 600, units: -3 })
    );
    assert_eq!(
        parse_value(0x36, &[0, 2, b'e', b'n', 0, 1, b'x']),
        Ok(IppValue::NameWithLanguage { language: "en".to_string(), name: "x".to_string() })
    );
    assert_eq!(parse_value(0x7f, &[1]), Ok(IppValue::Other { tag: 0x7f, data: vec![1] }));
    assert_eq!(parse_value(0x34, &[]), Ok(IppValue::Other { tag: 0x34, data: vec![] }));
}

#[test]
fn what_cannot_be_written_is_not_written() {
    let nested = message(vec![(
        DelimiterTag::JobAttributes,
        vec![(
            "a",
            IppValue::Array(vec![
                IppValue::Integer(1),
                IppValue::Array(vec![IppValue::Integer(2), IppValue::Integer(3)]),
            ]),
        )],
    )]);
    assert_eq!(nested.to_bytes(), None);
    let unnamed = message(vec![(DelimiterTag::JobAttributes, vec![("", IppValue::Integer(1))])]);
    assert_eq!(unnamed.to_bytes(), None);
    let long = message(vec![(
        DelimiterTag::JobAttributes,
        vec![("a", IppValue::Keyword("x".repeat(65536)))],
    )]);
    assert_eq!(long.to_bytes(), None);
    let longest = message(vec![(
        DelimiterTag::JobAttributes,
        vec![("a", IppValue::Keyword("x".repeat(65535)))],
    )]);
    assert!(longest.to_bytes().is_some());
    let typed = message(vec![(
        DelimiterTag::JobAttributes,
        vec![("a", IppValue::Other { tag: 0x21, data: vec![0, 0, 0, 1] })],
    )]);
    assert_eq!(typed.to_bytes(), None);
    let delimiter = message(vec![(
        DelimiterTag::JobAttributes,
        vec![("a", IppValue::Other { tag: 0x05, data: vec![] })],
    )]);
    assert_eq!(delimiter.to_bytes(), None);
    let end = message(vec![(DelimiterTag::EndOfAttributes, vec![])]);
    assert_eq!(end.to_bytes(), None);
}

#[test]
fn the_ipp_crate_reads_what_the_library_writes() {
    let m = message(vec![
        (
            DelimiterTag::OperationAttributes,
            vec![
                ("attributes-charset", IppValue::Charset("utf-8".to_string())),
                ("attributes-natural-language", IppValue::NaturalLanguage("en".to_string())),
                ("status-message", IppValue::TextWithoutLanguage("Not found".to_string())),
            ],
        ),
        (
            DelimiterTag::JobAttributes,
            vec![
                ("job-id", IppValue::Integer(1000)),
                ("job-state", IppValue::Enum(9)),
                (
                    "list",
                    IppValue::Array(vec![
                        IppValue::Keyword("none".to_string()),
                        IppValue::Keyword("gzip".to_string()),
                    ]),
                ),
                ("resolution", IppValue::Resolution { cross_feed: 300, feed: 600, units: 3 }),
            ],
        ),
    ]);
    let bytes = m.to_bytes().unwrap();
    let theirs = ipp::parser::IppParser::new(ipp::reader::IppReader::new(std::io::Cursor::new(bytes)))
        .parse()
        .unwrap();
    assert_eq!(theirs.header().version.0, 0x0200);
    assert_eq!(theirs.header().operation_or_status, 0x000B);
    assert_eq!(theirs.header().request_id, 0x01020304);
    assert_eq!(theirs.attributes().groups().len(), 2);
    let operation = theirs.attributes().groups_of(ipp::model::DelimiterTag::OperationAttributes).next().unwrap();
    assert_eq!(
        operation.attributes().get("status-message").unwrap().value(),
        &ipp::value::IppValue::TextWithoutLanguage("Not found".to_string())
    );
    let job = theirs.attributes().groups_of(ipp::model::DelimiterTag::JobAttributes).next().unwrap();
    assert_eq!(job.attributes().get("job-id").unwrap().value(), &ipp::value::IppValue::Integer(1000));
    assert_eq!(job.attributes().get("job-state").unwrap().value(), &ipp::value::IppValue::Enum(9));
    assert_eq!(
        job.attributes().get("list").unwrap().value(),
        &ipp::value::IppValue::Array(vec![
            ipp::value::IppValue::Keyword("none".to_string()),
            ipp::value::IppValue::Keyword("gzip".to_string()),
        ])
    );
    assert_eq!(
        job.attributes().get("resolution").unwrap().value(),
        &ipp::value::IppValue::Resolution { cross_feed: 300, feed: 600, units: 3 }
    );
}

#[test]
fn the_library_reads_what_the_ipp_crate_writes() {
    let mut theirs = ipp::request::IppRequestResponse::new_response(
        ipp::model::IppVersion::v1_1(),
        ipp::model::StatusCode::ClientErrorNotFound,
        77,
    );
    theirs.attributes_mut().add(
        ipp::model::DelimiterTag::JobAttributes,
        ipp::attribute::IppAttribute::new("job-id", ipp::value::IppValue::Integer(-5)),
    );
    theirs.attributes_mut().add(
        ipp::model::DelimiterTag::PrinterAttributes,
        ipp::attribute::IppAttribute::new(
            "media-supported",
            ipp::value::IppValue::Array(vec![
                ipp::value::IppValue::Keyword("a4".to_string()),
                ipp::value::IppValue::Keyword("a5".to_string()),
            ]),
        ),
    );
    let bytes = theirs.to_bytes().to_vec();
    let parsed = parse_message(&bytes).unwrap();
    assert_eq!(parsed.consumed, bytes.len());
    assert_eq!(parsed.header, IppHeader::new(IppVersion::v1_1(), 0x0406, 77));
    assert_eq!(parsed.attributes.len(), 3);
    let operation = parsed.attributes.group(0);
    assert_eq!(operation.tag(), DelimiterTag::OperationAttributes);
    assert_eq!(operation.attribute(0).name(), "attributes-charset");
    assert_eq!(operation.attribute(0).value(), &IppValue::Charset("utf-8".to_string()));
    assert_eq!(operation.attribute(1).name(), "attributes-natural-language");
    assert_eq!(
        parsed.attributes.find(DelimiterTag::JobAttributes, "job-id"),
        Some(&IppValue::Integer(-5))
    );
    assert_eq!(
        parsed.attributes.find(DelimiterTag::PrinterAttributes, "media-supported"),
        Some(&IppValue::Array(vec![
            IppValue::Keyword("a4".to_string()),
            IppValue::Keyword("a5".to_string()),
        ]))
    );
}

#[test]
fn array_of_one_member_is_written_as_that_member() {
    let one = message(vec![(
        DelimiterTag::JobAttributes,
        vec![("a", IppValue::Array(vec![IppValue::Integer(1)]))],
    )]);
    let single = message(vec![(DelimiterTag::JobAttributes, vec![("a", IppValue::Integer(1))])]);
    let bytes = one.to_bytes().unwrap();
    assert_eq!(
        bytes,
        vec![2, 0, 0x00, 0x0B, 1, 2, 3, 4, 2, 0x21, 0, 1, b'a', 0, 4, 0, 0, 0, 1, 3]
    );
    assert_eq!(Some(bytes.clone()), single.to_bytes());
    let parsed = parse_message(&bytes).unwrap();
    assert_eq!(parsed.attributes, single.attributes);
}

#[test]
fn array_without_members_is_written_as_no_value() {
    let none = message(vec![(DelimiterTag::JobAttributes, vec![("a", IppValue::Array(vec![]))])]);
    let no_value = message(vec![(DelimiterTag::JobAttributes, vec![("a", IppValue::NoValue)])]);
    let bytes = none.to_bytes().unwrap();
    assert_eq!(bytes, vec![2, 0, 0x00, 0x0B, 1, 2, 3, 4, 2, 0x13, 0, 1, b'a', 0, 0, 3]);
    assert_eq!(Some(bytes.clone()), no_value.to_bytes());
    assert_eq!(parse_message(&bytes).unwrap().attributes, no_value.attributes);
}
