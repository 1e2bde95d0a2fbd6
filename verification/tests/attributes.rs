use ippper::attribute::{IppAttribute, IppAttributeGroup, IppAttributes};
use ippper::error::IppError;
use ippper::model::DelimiterTag;
use ippper::request::{add_basic_attributes, IppPayload};
use ippper::status::StatusCode;
use ippper::utils::{
    decommpress_payload, get_ipp_attribute, get_requested_attributes, take_ipp_attribute,
    take_requesting_user_name, NameSet,
};
use ippper::value::IppValue;

fn keyword(s: &str) -> IppValue {
    IppValue::Keyword(s.to_string())
}

fn two_groups() -> IppAttributes {
    let mut r = IppAttributes::new();
    r.add(DelimiterTag::OperationAttributes, IppAttribute::new("a", IppValue::Integer(1)));
    r.add(DelimiterTag::JobAttributes, IppAttribute::new("media", keyword("a4")));
    let mut second = IppAttributeGroup::new(DelimiterTag::JobAttributes);
    second.insert(IppAttribute::new("media", keyword("a5")));
    second.insert(IppAttribute::new("sides", keyword("one-sided")));
    r.push_group(second);
    r
}

#[test]
fn group_keeps_one_attribute_for_each_name() {
    let mut g = IppAttributeGroup::new(DelimiterTag::JobAttributes);
    assert_eq!(g.tag(), DelimiterTag::JobAttributes);
    assert_eq!(g.len(), 0);
    g.insert(IppAttribute::new("a", IppValue::Integer(1)));
    g.insert(IppAttribute::new("b", IppValue::Integer(2)));
    g.insert(IppAttribute::new("a", IppValue::Integer(3)));
    assert_eq!(g.len(), 2);
    assert_eq!(g.attribute(0).name(), "a");
    assert_eq!(g.attribute(0).value(), &IppValue::Integer(3));
    assert_eq!(g.attribute(1).name(), "b");
    assert_eq!(g.get("b").unwrap().value(), &IppValue::Integer(2));
    assert!(g.get("c").is_none());
    let taken = g.remove("a").unwrap();
    assert_eq!(taken.into_value(), IppValue::Integer(3));
    assert_eq!(g.len(), 1);
    assert!(g.remove("a").is_none());
    g.extend(vec![
        IppAttribute::new("x", IppValue::Integer(7)),
        IppAttribute::new("b", IppValue::Integer(8)),
        IppAttribute::new("y", IppValue::Integer(9)),
    ]);
    assert_eq!(g.len(), 3);
    assert_eq!(g.attribute(0).name(), "b");
    assert_eq!(g.attribute(0).value(), &IppValue::Integer(8));
    assert_eq!(g.attribute(1).name(), "x");
    assert_eq!(g.attribute(2).name(), "y");
}

#[test]
fn add_puts_into_the_first_group_of_the_tag() {
    let mut r = two_groups();
    assert_eq!(r.len(), 3);
    r.add(DelimiterTag::JobAttributes, IppAttribute::new("sides", keyword("two-sided")));
    assert_eq!(r.len(), 3);
    assert_eq!(r.group(1).len(), 2);
    assert_eq!(r.group(1).get("sides").unwrap().value(), &keyword("two-sided"));
    assert_eq!(r.group(2).get("sides").unwrap().value(), &keyword("one-sided"));
    r.add(DelimiterTag::PrinterAttributes, IppAttribute::new("p", IppValue::NoValue));
    assert_eq!(r.len(), 4);
    assert_eq!(r.group(3).tag(), DelimiterTag::PrinterAttributes);
}

#[test]
fn get_finds_the_first_group_that_has_the_name() {
    let r = two_groups();
    assert_eq!(get_ipp_attribute(&r, DelimiterTag::JobAttributes, "media"), Some(&keyword("a4")));
    assert_eq!(
        get_ipp_attribute(&r, DelimiterTag::JobAttributes, "sides"),
        Some(&keyword("one-sided"))
    );
    assert_eq!(get_ipp_attribute(&r, DelimiterTag::OperationAttributes, "media"), None);
    assert_eq!(get_ipp_attribute(&r, DelimiterTag::PrinterAttributes, "a"), None);
    assert_eq!(get_ipp_attribute(&r, DelimiterTag::JobAttributes, "none"), None);
}

#[test]
fn take_removes_what_it_finds() {
    let mut r = two_groups();
    assert_eq!(take_ipp_attribute(&mut r, DelimiterTag::JobAttributes, "media"), Some(keyword("a4")));
    assert_eq!(r.group(1).len(), 0);
    assert_eq!(take_ipp_attribute(&mut r, DelimiterTag::JobAttributes, "media"), Some(keyword("a5")));
    assert_eq!(take_ipp_attribute(&mut r, DelimiterTag::JobAttributes, "media"), None);
    assert_eq!(r.len(), 3);
    assert_eq!(r.group(2).len(), 1);
    let all = r.take();
    assert_eq!(all.len(), 3);
    assert_eq!(r.len(), 0);
}

#[test]
fn basic_attributes_open_the_operation_group() {
    let mut r = IppAttributes::new();
    add_basic_attributes(&mut r);
    assert_eq!(r.len(), 1);
    let g = r.group(0);
    assert_eq!(g.tag(), DelimiterTag::OperationAttributes);
    assert_eq!(g.len(), 2);
    assert_eq!(g.attribute(0).name(), "attributes-charset");
    assert_eq!(g.attribute(0).value(), &IppValue::Charset("utf-8".to_string()));
    assert_eq!(g.attribute(1).name(), "attributes-natural-language");
    assert_eq!(g.attribute(1).value(), &IppValue::NaturalLanguage("en".to_string()));
    add_basic_attributes(&mut r);
    assert_eq!(r.len(), 1);
    assert_eq!(r.group(0).len(), 2);
}

#[test]
fn requested_attributes_are_the_keywords() {
    let mut r = IppAttributes::new();
    assert!(get_requested_attributes(&r).contains("all"));
    assert!(!get_requested_attributes(&r).contains("printer-name"));
    r.add(
        DelimiterTag::OperationAttributes,
        IppAttribute::new(
            "requested-attributes",
            IppValue::Array(vec![keyword("printer-name"), IppValue::Integer(3), keyword("media")]),
        ),
    );
    let names = get_requested_attributes(&r);
    assert!(names.contains("printer-name"));
    assert!(names.contains("media"));
    assert!(!names.contains("all"));
    assert!(!names.contains("3"));
    let mut single = IppAttributes::new();
    single.add(
        DelimiterTag::OperationAttributes,
        IppAttribute::new("requested-attributes", keyword("job-id")),
    );
    assert!(get_requested_attributes(&single).contains("job-id"));
    assert!(!get_requested_attributes(&single).contains("all"));
    let mut other = IppAttributes::new();
    other.add(
        DelimiterTag::OperationAttributes,
        IppAttribute::new("requested-attributes", IppValue::Integer(1)),
    );
    assert!(!get_requested_attributes(&other).contains("all"));
}

#[test]
fn name_set() {
    let mut s = NameSet::new();
    assert!(!s.contains("a"));
    s.insert("a");
    s.insert("a");
    s.insert("b");
    assert!(s.contains("a"));
    assert!(s.contains("b"));
    assert!(!s.contains("c"));
    let of = NameSet::of(&["x", "y"]);
    assert!(of.contains("x"));
    assert!(of.contains("y"));
    assert!(!of.contains("a"));
}

#[test]
fn user_name_with_and_without_language() {
    let mut r = IppAttributes::new();
    assert_eq!(take_requesting_user_name(&mut r), "anonymous");
    r.add(
        DelimiterTag::OperationAttributes,
        IppAttribute::new("requesting-user-name", IppValue::NameWithoutLanguage("alice".to_string())),
    );
    assert_eq!(take_requesting_user_name(&mut r), "alice");
    assert_eq!(take_requesting_user_name(&mut r), "anonymous");
    r.add(
        DelimiterTag::OperationAttributes,
        IppAttribute::new(
            "requesting-user-name",
            IppValue::NameWithLanguage { language: "en".to_string(), name: "bob".to_string() },
        ),
    );
    assert_eq!(take_requesting_user_name(&mut r), "bob");
    r.add(
        DelimiterTag::OperationAttributes,
        IppAttribute::new("requesting-user-name", keyword("carol")),
    );
    assert_eq!(take_requesting_user_name(&mut r), "anonymous");
    assert_eq!(r.group(0).len(), 0);
}

#[test]
fn payload_is_wrapped_as_the_compression_asks() {
    let p = IppPayload::Stream(vec![1u8, 2]);
    assert_eq!(decommpress_payload(p, None), Ok(IppPayload::Stream(vec![1u8, 2])));
    let p = IppPayload::Stream(vec![1u8, 2]);
    assert_eq!(decommpress_payload(p, Some("none")), Ok(IppPayload::Stream(vec![1u8, 2])));
    let p = IppPayload::Stream(vec![1u8, 2]);
    assert_eq!(
        decommpress_payload(p, Some("gzip")),
        Ok(IppPayload::Gzip(Box::new(IppPayload::Stream(vec![1u8, 2]))))
    );
    let p: IppPayload<Vec<u8>> = IppPayload::Empty;
    assert_eq!(
        decommpress_payload(p, Some("deflate")),
        Err(IppError {
            code: StatusCode::ClientErrorCompressionNotSupported,
            msg: "Compression not supported".to_string()
        })
    );
    let p: IppPayload<Vec<u8>> = IppPayload::Empty;
    assert!(decommpress_payload(p, Some("GZIP")).is_err());
}

#[test]
fn values_give_what_they_hold() {
    assert_eq!(keyword("x").as_keyword(), Some(&"x".to_string()));
    assert_eq!(IppValue::Integer(1).as_keyword(), None);
    assert_eq!(keyword("x").into_keyword(), Ok("x".to_string()));
    assert_eq!(IppValue::Integer(1).into_keyword(), Err(IppValue::Integer(1)));
    assert_eq!(IppValue::Integer(5).as_integer(), Some(5));
    assert_eq!(IppValue::Enum(5).as_integer(), None);
    assert_eq!(IppValue::Integer(5).into_integer(), Ok(5));
    assert_eq!(keyword("x").into_integer(), Err(keyword("x")));
    assert_eq!(
        IppValue::MimeMediaType("a/b".to_string()).into_mime_media_type(),
        Ok("a/b".to_string())
    );
    assert_eq!(keyword("a/b").into_mime_media_type(), Err(keyword("a/b")));
    let array = IppValue::Array(vec![keyword("a"), IppValue::Array(vec![IppValue::NoValue])]);
    assert_eq!(array.clone(), array);
}
