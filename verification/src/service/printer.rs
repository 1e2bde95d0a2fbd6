//! What the printer reports of itself: its URLs, and its attributes as a
//! request asks for them.
use crate::attribute::{attribute_views, AttributeView, IppAttribute};
use crate::model::{Operation, PrinterState, Resolution};
use crate::service::info::{
    enum_array, enums, keyword_array, keyword_list, keywords, mime_array, mime_types, optional_view,
    orientation_array, orientations, resolution_array, resolutions, PrinterInfo, PrinterInfoView,
};
use crate::text::{starts_with_char, str_eq, trim, trim_matches};
use crate::utils::NameSet;
use crate::value::{IppValue, IppValueView};
use vstd::prelude::*;

verus! {

/// The URL of `path` on the server at `host` under `basepath`: the scheme
/// (`ipp` where there is none), the host, the base path without the slashes
/// at its ends, and the path, with one slash before each part that is there.
pub open spec fn url(
    scheme: Option<Seq<char>>,
    host: Seq<char>,
    basepath: Seq<char>,
    path: Seq<char>,
) -> Seq<char> {
    let base = trim(basepath, '/');
    let scheme = match scheme {
        Some(s) => s,
        None => "ipp"@,
    };
    let before_base = if base.len() == 0 {
        ""@
    } else {
        "/"@
    };
    let before_path = if path.len() > 0 && path[0] == '/' {
        ""@
    } else {
        "/"@
    };
    scheme + "://"@ + host + before_base + base + before_path + path
}

/// The URL of `path` on the server at `host` under `basepath`.
pub fn make_url(scheme: Option<&str>, host: &str, basepath: &str, path: &str) -> (r: String)
    ensures
        r@ == url(
            match scheme {
                Some(s) => Some(s@),
                None => None,
            },
            host@,
            basepath@,
            path@,
        ),
{
    let base = trim_matches(basepath, '/');
    let mut out = String::new();
    match scheme {
        Some(s) => out.append(s),
        None => out.append("ipp"),
    }
    out.append("://");
    out.append(host);
    proof {
        reveal_strlit("");
    }
    if base.unicode_len() == 0 {
        out.append("");
    } else {
        out.append("/");
    }
    out.append(base);
    if starts_with_char(path, '/') {
        out.append("");
    } else {
        out.append("/");
    }
    out.append(path);
    out
}

/// What `uri-security-supported` reports for a request that came by `scheme`.
pub open spec fn security(scheme: Option<Seq<char>>) -> Seq<char> {
    match scheme {
        Some(s) => if s == "ipps"@ || s == "https"@ {
            "tls"@
        } else {
            "none"@
        },
        None => "none"@,
    }
}

/// The security that a request's scheme stands for: `tls` for `ipps` and
/// `https`, `none` for any other.
pub fn security_of(scheme: Option<&str>) -> (r: &'static str)
    ensures
        r@ == security(
            match scheme {
                Some(s) => Some(s@),
                None => None,
            },
        ),
{
    match scheme {
        Some(s) => {
            if str_eq(s, "ipps") || str_eq(s, "https") {
                "tls"
            } else {
                "none"
            }
        },
        None => "none",
    }
}

/// The digit that writes `n` in base sixteen, in lower case.
pub open spec fn hex_digit(n: int) -> char {
    if n == 0 {
        '0'
    } else if n == 1 {
        '1'
    } else if n == 2 {
        '2'
    } else if n == 3 {
        '3'
    } else if n == 4 {
        '4'
    } else if n == 5 {
        '5'
    } else if n == 6 {
        '6'
    } else if n == 7 {
        '7'
    } else if n == 8 {
        '8'
    } else if n == 9 {
        '9'
    } else if n == 10 {
        'a'
    } else if n == 11 {
        'b'
    } else if n == 12 {
        'c'
    } else if n == 13 {
        'd'
    } else if n == 14 {
        'e'
    } else {
        'f'
    }
}

/// Two hex digits for each octet of `bytes`, in order.
pub open spec fn hex_text(bytes: Seq<u8>) -> Seq<char>
    decreases bytes.len(),
{
    if bytes.len() == 0 {
        Seq::empty()
    } else {
        hex_text(bytes.drop_last()).push(hex_digit(bytes.last() as int / 16)).push(
            hex_digit(bytes.last() as int % 16),
        )
    }
}

/// The URN of the UUID with the sixteen octets `bytes`: `urn:uuid:` and the
/// octets in hex, in groups of four, two, two, two and six with hyphens between.
pub open spec fn uuid_urn(bytes: Seq<u8>) -> Seq<char> {
    "urn:uuid:"@ + hex_text(bytes.subrange(0, 4)) + seq!['-'] + hex_text(bytes.subrange(4, 6))
        + seq!['-'] + hex_text(bytes.subrange(6, 8)) + seq!['-'] + hex_text(
        bytes.subrange(8, 10),
    ) + seq!['-'] + hex_text(bytes.subrange(10, 16))
}

/// The `uuid` crate's URN form of a UUID, in lower case: `Uuid::from_bytes`,
/// `urn`, then `encode_lower` into a buffer of `Uuid::encode_buffer`. The
/// crate writes `urn:uuid:` and then the hyphenated form, which is the
/// thirty-two hex digits of the octets with a hyphen after the eighth, the
/// twelfth, the sixteenth and the twentieth.
#[verifier::external_body]
fn uuid_urn_string(bytes: &[u8; 16]) -> (r: String)
    ensures
        r@ == uuid_urn(bytes@),
{
    uuid::Uuid::from_bytes(*bytes).urn().encode_lower(&mut uuid::Uuid::encode_buffer()).to_string()
}

/// Adds the attribute `name` with the value `value` at the end of `list`.
pub fn push_attribute(list: &mut Vec<IppAttribute>, name: &str, value: IppValue)
    ensures
        attribute_views(final(list)@) == attribute_views(old(list)@).push(
            AttributeView { name: name@, value: value@ },
        ),
{
    list.push(IppAttribute::new(name, value));
    assert(attribute_views(list@) =~= attribute_views(old(list)@).push(
        AttributeView { name: name@, value: value@ },
    ));
}

/// The value that reports a time of `secs` whole seconds: the seconds cut
/// down to thirty-two bits.
pub open spec fn seconds_view(secs: u64) -> IppValueView {
    IppValueView::Integer(secs as i32)
}

/// The integer value that reports a time of `secs` whole seconds.
pub fn seconds_value(secs: u64) -> (r: IppValue)
    ensures
        r@ == seconds_view(secs),
{
    IppValue::Integer(#[verifier::truncate] (secs as i32))
}

/// An attribute.
pub open spec fn attr(name: Seq<char>, value: IppValueView) -> AttributeView {
    AttributeView { name, value }
}

/// What says who the printer is and what state it is in.
pub open spec fn identity_attributes(info: PrinterInfoView, printer_uri: Seq<char>, security: Seq<
    char,
>) -> Seq<AttributeView> {
    seq![
        attr("printer-uri-supported"@, IppValueView::Uri(printer_uri)),
        attr("uri-authentication-supported"@, IppValueView::Keyword("requesting-user-name"@)),
        attr("uri-security-supported"@, IppValueView::Keyword(security)),
        attr("printer-name"@, IppValueView::NameWithoutLanguage(info.name)),
        attr("printer-state"@, IppValueView::Enum(PrinterState::Idle.code())),
        attr("printer-state-reasons"@, IppValueView::Keyword("none"@)),
        attr(
            "ipp-versions-supported"@,
            keyword_array(seq!["1.0", "1.1", "2.0"].map_values(|s: &str| s@)),
        ),
        attr(
            "operations-supported"@,
            enum_array(
                seq![
                    Operation::PrintJob.code() as i32,
                    Operation::ValidateJob.code() as i32,
                    Operation::CreateJob.code() as i32,
                    Operation::SendDocument.code() as i32,
                    Operation::CancelJob.code() as i32,
                    Operation::GetJobAttributes.code() as i32,
                    Operation::GetJobs.code() as i32,
                    Operation::GetPrinterAttributes.code() as i32,
                ],
            ),
        ),
        attr("multiple-document-jobs-supported"@, IppValueView::Boolean(false)),
    ]
}

/// What says which languages and document formats the printer takes.
pub open spec fn format_attributes(info: PrinterInfoView, uptime: u64) -> Seq<AttributeView> {
    seq![
        attr("charset-configured"@, IppValueView::Charset("utf-8"@)),
        attr("charset-supported"@, IppValueView::Charset("utf-8"@)),
        attr("natural-language-configured"@, IppValueView::NaturalLanguage("en"@)),
        attr("generated-natural-language-supported"@, IppValueView::NaturalLanguage("en"@)),
        attr(
            "document-format-default"@,
            IppValueView::MimeMediaType(info.document_format_default),
        ),
        attr("document-format-supported"@, mime_array(info.document_format_supported)),
        attr("printer-is-accepting-jobs"@, IppValueView::Boolean(true)),
        attr("pdl-override-supported"@, IppValueView::Keyword("attempted"@)),
        attr("printer-up-time"@, seconds_view(uptime)),
        attr(
            "compression-supported"@,
            keyword_array(seq!["none", "gzip"].map_values(|s: &str| s@)),
        ),
    ]
}

/// What says which job template options the printer takes, and its defaults.
pub open spec fn template_attributes(info: PrinterInfoView) -> Seq<AttributeView> {
    seq![
        attr("media-default"@, IppValueView::Keyword(info.media_default)),
        attr("media-supported"@, keyword_array(info.media_supported)),
        attr(
            "orientation-requested-default"@,
            match info.orientation_default {
                Some(o) => IppValueView::Enum(o.code()),
                None => IppValueView::NoValue,
            },
        ),
        attr("orientation-requested-supported"@, orientation_array(info.orientation_supported)),
        attr("sides-default"@, IppValueView::Keyword(info.sides_default)),
        attr("sides-supported"@, keyword_array(info.sides_supported)),
        attr("print-color-mode-default"@, IppValueView::Keyword(info.print_color_mode_default)),
        attr("print-color-mode-supported"@, keyword_array(info.print_color_mode_supported)),
    ]
}

/// `list` with the attribute `name` added where `value` is there.
pub open spec fn with_optional(list: Seq<AttributeView>, name: Seq<char>, value: Option<
    IppValueView,
>) -> Seq<AttributeView> {
    match value {
        Some(v) => list.push(attr(name, v)),
        None => list,
    }
}

/// `list` with the attribute `name` added where `present`.
pub open spec fn with_present(
    list: Seq<AttributeView>,
    present: bool,
    name: Seq<char>,
    value: IppValueView,
) -> Seq<AttributeView> {
    if present {
        list.push(attr(name, value))
    } else {
        list
    }
}

/// The keywords of `job-creation-attributes-supported`: `printer-resolution`
/// is among them where the printer has resolutions to choose from.
pub open spec fn creation_keywords(info: PrinterInfoView) -> Seq<Seq<char>> {
    let fixed = seq!["job-name", "media", "orientation-requested", "print-color-mode", "sides"].map_values(
        |s: &str| s@,
    );
    if info.printer_resolution_supported.len() > 0 {
        fixed.push("printer-resolution"@)
    } else {
        fixed
    }
}

/// What is reported only where the printer is configured with it.
pub open spec fn optional_attributes(info: PrinterInfoView) -> Seq<AttributeView> {
    let s0 = Seq::<AttributeView>::empty();
    let s1 = with_optional(
        s0,
        "document-format-preferred"@,
        match info.document_format_preferred {
            Some(f) => Some(IppValueView::MimeMediaType(f)),
            None => None,
        },
    );
    let s2 = with_present(
        s1,
        info.printer_resolution_supported.len() > 0,
        "printer-resolution-supported"@,
        resolution_array(info.printer_resolution_supported),
    );
    let s3 = with_optional(
        s2,
        "printer-resolution-default"@,
        match info.printer_resolution_default {
            Some(r) => Some(r.to_value()),
            None => None,
        },
    );
    let s4 = with_present(
        s3,
        info.pdf_versions_supported.len() > 0,
        "pdf-versions-supported"@,
        keyword_array(info.pdf_versions_supported),
    );
    let s5 = with_present(
        s4,
        info.urf_supported.len() > 0,
        "urf-supported"@,
        keyword_array(info.urf_supported),
    );
    let s6 = with_present(
        s5,
        info.pwg_raster_document_type_supported.len() > 0,
        "pwg-raster-document-type-supported"@,
        keyword_array(info.pwg_raster_document_type_supported),
    );
    let s7 = with_present(
        s6,
        info.pwg_raster_document_resolution_supported.len() > 0,
        "pwg-raster-document-resolution-supported"@,
        resolution_array(info.pwg_raster_document_resolution_supported),
    );
    let s8 = with_optional(
        s7,
        "pwg-raster-document-sheet-back"@,
        match info.pwg_raster_document_sheet_back {
            Some(k) => Some(IppValueView::Keyword(k)),
            None => None,
        },
    );
    let s9 = s8.push(
        attr("job-creation-attributes-supported"@, keyword_array(creation_keywords(info))),
    );
    let s10 = with_optional(
        s9,
        "printer-info"@,
        match info.info {
            Some(t) => Some(IppValueView::TextWithoutLanguage(t)),
            None => None,
        },
    );
    let s11 = with_optional(
        s10,
        "printer-make-and-model"@,
        match info.make_and_model {
            Some(t) => Some(IppValueView::TextWithoutLanguage(t)),
            None => None,
        },
    );
    with_optional(
        s11,
        "printer-uuid"@,
        match info.uuid {
            Some(u) => Some(IppValueView::Uri(uuid_urn(u))),
            None => None,
        },
    )
}

/// Every printer attribute, in the order in which a response lists them.
pub open spec fn all_printer_attributes(
    info: PrinterInfoView,
    printer_uri: Seq<char>,
    security: Seq<char>,
    uptime: u64,
) -> Seq<AttributeView> {
    identity_attributes(info, printer_uri, security) + format_attributes(info, uptime)
        + template_attributes(info) + optional_attributes(info)
}

/// Whether an attribute is asked for: its name is among `requested`, or
/// `whole` says that its whole class is.
pub open spec fn selected(requested: Set<Seq<char>>, whole: bool) -> spec_fn(AttributeView) -> bool {
    |a: AttributeView| whole || requested.contains(a.name)
}

/// The attributes of `list` that are asked for, in their order.
pub open spec fn retained(list: Seq<AttributeView>, requested: Set<Seq<char>>, whole: bool) -> Seq<
    AttributeView,
> {
    list.filter(selected(requested, whole))
}

/// Keeps the attributes of `list` whose name is among `requested`, or all
/// of them where `whole` is set.
pub fn retain_requested(list: Vec<IppAttribute>, requested: &NameSet, whole: bool) -> (r: Vec<
    IppAttribute,
>)
    ensures
        attribute_views(r@) == retained(attribute_views(list@), requested@, whole),
{
    let ghost all = attribute_views(list@);
    let ghost p = selected(requested@, whole);
    let mut out: Vec<IppAttribute> = Vec::new();
    let mut i: usize = 0;
    proof {
        reveal(Seq::filter);
        assert(all.take(0) =~= Seq::<AttributeView>::empty());
        assert(attribute_views(out@) =~= all.take(0).filter(p));
    }
    while i < list.len()
        invariant
            i <= list.len(),
            all == attribute_views(list@),
            p == selected(requested@, whole),
            attribute_views(out@) == all.take(i as int).filter(p),
        decreases list.len() - i,
    {
        let keep = whole || requested.contains(list[i].name());
        proof {
            reveal(Seq::filter);
            assert(all.take(i as int + 1).drop_last() =~= all.take(i as int));
            assert(all.take(i as int + 1).last() == list@[i as int]@);
        }
        if keep {
            let a = list[i].clone();
            let ghost before = out@;
            out.push(a);
            assert(attribute_views(out@) =~= attribute_views(before).push(a@));
        }
        i += 1;
    }
    assert(all.take(list.len() as int) =~= all);
    out
}

/// The attributes that say who the printer is and what state it is in.
pub fn identity_list(info: &PrinterInfo, printer_uri: String, security: &str) -> (r: Vec<
    IppAttribute,
>)
    ensures
        attribute_views(r@) == identity_attributes(info@, printer_uri@, security@),
{
    let mut r: Vec<IppAttribute> = Vec::new();
    assert(attribute_views(r@) =~= Seq::<AttributeView>::empty());
    push_attribute(&mut r, "printer-uri-supported", IppValue::Uri(printer_uri));
    push_attribute(
        &mut r,
        "uri-authentication-supported",
        IppValue::Keyword("requesting-user-name".to_owned()),
    );
    push_attribute(&mut r, "uri-security-supported", IppValue::Keyword(security.to_owned()));
    push_attribute(&mut r, "printer-name", IppValue::NameWithoutLanguage(info.name().clone()));
    push_attribute(&mut r, "printer-state", IppValue::Enum(PrinterState::Idle.to_i32()));
    push_attribute(&mut r, "printer-state-reasons", IppValue::Keyword("none".to_owned()));
    let versions = ["1.0", "1.1", "2.0"];
    assert(versions@ =~= seq!["1.0", "1.1", "2.0"]);
    push_attribute(&mut r, "ipp-versions-supported", keyword_list(versions.as_slice()));
    let operations = [
        Operation::PrintJob.to_u16() as i32,
        Operation::ValidateJob.to_u16() as i32,
        Operation::CreateJob.to_u16() as i32,
        Operation::SendDocument.to_u16() as i32,
        Operation::CancelJob.to_u16() as i32,
        Operation::GetJobAttributes.to_u16() as i32,
        Operation::GetJobs.to_u16() as i32,
        Operation::GetPrinterAttributes.to_u16() as i32,
    ];
    assert(operations@ =~= seq![
        Operation::PrintJob.code() as i32,
        Operation::ValidateJob.code() as i32,
        Operation::CreateJob.code() as i32,
        Operation::SendDocument.code() as i32,
        Operation::CancelJob.code() as i32,
        Operation::GetJobAttributes.code() as i32,
        Operation::GetJobs.code() as i32,
        Operation::GetPrinterAttributes.code() as i32,
    ]);
    push_attribute(&mut r, "operations-supported", enums(operations.as_slice()));
    push_attribute(&mut r, "multiple-document-jobs-supported", IppValue::Boolean(false));
    r
}

/// The attributes that say which languages and document formats the printer takes.
pub fn format_list(info: &PrinterInfo, uptime: u64) -> (r: Vec<IppAttribute>)
    ensures
        attribute_views(r@) == format_attributes(info@, uptime),
{
    let mut r: Vec<IppAttribute> = Vec::new();
    assert(attribute_views(r@) =~= Seq::<AttributeView>::empty());
    push_attribute(&mut r, "charset-configured", IppValue::Charset("utf-8".to_owned()));
    push_attribute(&mut r, "charset-supported", IppValue::Charset("utf-8".to_owned()));
    push_attribute(
        &mut r,
        "natural-language-configured",
        IppValue::NaturalLanguage("en".to_owned()),
    );
    push_attribute(
        &mut r,
        "generated-natural-language-supported",
        IppValue::NaturalLanguage("en".to_owned()),
    );
    push_attribute(
        &mut r,
        "document-format-default",
        IppValue::MimeMediaType(info.document_format_default().clone()),
    );
    push_attribute(
        &mut r,
        "document-format-supported",
        mime_types(info.document_format_supported()),
    );
    push_attribute(&mut r, "printer-is-accepting-jobs", IppValue::Boolean(true));
    push_attribute(&mut r, "pdl-override-supported", IppValue::Keyword("attempted".to_owned()));
    push_attribute(&mut r, "printer-up-time", seconds_value(uptime));
    let compressions = ["none", "gzip"];
    assert(compressions@ =~= seq!["none", "gzip"]);
    push_attribute(&mut r, "compression-supported", keyword_list(compressions.as_slice()));
    r
}

/// The attributes that say which job template options the printer takes.
pub fn template_list(info: &PrinterInfo) -> (r: Vec<IppAttribute>)
    ensures
        attribute_views(r@) == template_attributes(info@),
{
    let mut r: Vec<IppAttribute> = Vec::new();
    assert(attribute_views(r@) =~= Seq::<AttributeView>::empty());
    push_attribute(&mut r, "media-default", IppValue::Keyword(info.media_default().clone()));
    push_attribute(&mut r, "media-supported", keywords(info.media_supported()));
    push_attribute(
        &mut r,
        "orientation-requested-default",
        match info.orientation_default() {
            Some(o) => o.into_value(),
            None => IppValue::NoValue,
        },
    );
    push_attribute(
        &mut r,
        "orientation-requested-supported",
        orientations(info.orientation_supported()),
    );
    push_attribute(&mut r, "sides-default", IppValue::Keyword(info.sides_default().clone()));
    push_attribute(&mut r, "sides-supported", keywords(info.sides_supported()));
    push_attribute(
        &mut r,
        "print-color-mode-default",
        IppValue::Keyword(info.print_color_mode_default().clone()),
    );
    push_attribute(
        &mut r,
        "print-color-mode-supported",
        keywords(info.print_color_mode_supported()),
    );
    r
}

/// Adds the attribute `name` at the end of `list` where `value` is there.
pub fn push_optional(list: &mut Vec<IppAttribute>, name: &str, value: Option<IppValue>)
    ensures
        attribute_views(final(list)@) == with_optional(
            attribute_views(old(list)@),
            name@,
            match value {
                Some(v) => Some(v@),
                None => None,
            },
        ),
{
    match value {
        Some(v) => push_attribute(list, name, v),
        None => {},
    }
}

/// The value of `job-creation-attributes-supported`.
pub fn creation_list(info: &PrinterInfo) -> (r: IppValue)
    ensures
        r@ == keyword_array(creation_keywords(info@)),
{
    let fixed = ["job-name", "media", "orientation-requested", "print-color-mode", "sides"];
    assert(fixed@ =~= seq![
        "job-name",
        "media",
        "orientation-requested",
        "print-color-mode",
        "sides",
    ]);
    if info.printer_resolution_supported().len() > 0 {
        let with = [
            "job-name",
            "media",
            "orientation-requested",
            "print-color-mode",
            "sides",
            "printer-resolution",
        ];
        assert(with@.map_values(|s: &str| s@) =~= fixed@.map_values(|s: &str| s@).push(
            "printer-resolution"@,
        ));
        keyword_list(with.as_slice())
    } else {
        keyword_list(fixed.as_slice())
    }
}

/// Adds the attribute `name` at the end of `list` where `present` is set.
pub fn push_present(list: &mut Vec<IppAttribute>, present: bool, name: &str, value: IppValue)
    ensures
        attribute_views(final(list)@) == with_present(
            attribute_views(old(list)@),
            present,
            name@,
            value@,
        ),
{
    if present {
        push_attribute(list, name, value);
    }
}

/// The media type in `s`, where there is one.
fn optional_mime(s: &Option<String>) -> (r: Option<IppValue>)
    ensures
        match optional_view(*s) {
            Some(f) => r.is_some() && r.unwrap()@ == IppValueView::MimeMediaType(f),
            None => r.is_none(),
        },
{
    match s {
        Some(f) => Some(IppValue::MimeMediaType(f.clone())),
        None => None,
    }
}

/// The keyword in `s`, where there is one.
fn optional_keyword(s: &Option<String>) -> (r: Option<IppValue>)
    ensures
        match optional_view(*s) {
            Some(k) => r.is_some() && r.unwrap()@ == IppValueView::Keyword(k),
            None => r.is_none(),
        },
{
    match s {
        Some(k) => Some(IppValue::Keyword(k.clone())),
        None => None,
    }
}

/// The text in `s`, where there is one.
fn optional_text(s: &Option<String>) -> (r: Option<IppValue>)
    ensures
        match optional_view(*s) {
            Some(t) => r.is_some() && r.unwrap()@ == IppValueView::TextWithoutLanguage(t),
            None => r.is_none(),
        },
{
    match s {
        Some(t) => Some(IppValue::TextWithoutLanguage(t.clone())),
        None => None,
    }
}

/// The resolution in `x`, where there is one.
pub(crate) fn optional_resolution(x: Option<Resolution>) -> (r: Option<IppValue>)
    ensures
        match x {
            Some(v) => r.is_some() && r.unwrap()@ == v.to_value(),
            None => r.is_none(),
        },
{
    match x {
        Some(v) => Some(v.into_value()),
        None => None,
    }
}

/// The URN of the UUID in `u`, where there is one.
fn optional_urn(u: &Option<[u8; 16]>) -> (r: Option<IppValue>)
    ensures
        match *u {
            Some(b) => r.is_some() && r.unwrap()@ == IppValueView::Uri(uuid_urn(b@)),
            None => r.is_none(),
        },
{
    match u {
        Some(b) => Some(IppValue::Uri(uuid_urn_string(b))),
        None => None,
    }
}

/// The attributes that are reported only where the printer is configured with them.
pub fn optional_list(info: &PrinterInfo) -> (r: Vec<IppAttribute>)
    ensures
        attribute_views(r@) == optional_attributes(info@),
{
    let mut r: Vec<IppAttribute> = Vec::new();
    assert(attribute_views(r@) =~= Seq::<AttributeView>::empty());
    push_optional(
        &mut r,
        "document-format-preferred",
        optional_mime(info.document_format_preferred()),
    );
    push_present(
        &mut r,
        info.printer_resolution_supported().len() > 0,
        "printer-resolution-supported",
        resolutions(info.printer_resolution_supported()),
    );
    push_optional(
        &mut r,
        "printer-resolution-default",
        optional_resolution(info.printer_resolution_default()),
    );
    push_present(
        &mut r,
        info.pdf_versions_supported().len() > 0,
        "pdf-versions-supported",
        keywords(info.pdf_versions_supported()),
    );
    push_present(
        &mut r,
        info.urf_supported().len() > 0,
        "urf-supported",
        keywords(info.urf_supported()),
    );
    push_present(
        &mut r,
        info.pwg_raster_document_type_supported().len() > 0,
        "pwg-raster-document-type-supported",
        keywords(info.pwg_raster_document_type_supported()),
    );
    push_present(
        &mut r,
        info.pwg_raster_document_resolution_supported().len() > 0,
        "pwg-raster-document-resolution-supported",
        resolutions(info.pwg_raster_document_resolution_supported()),
    );
    push_optional(
        &mut r,
        "pwg-raster-document-sheet-back",
        optional_keyword(info.pwg_raster_document_sheet_back()),
    );
    push_attribute(&mut r, "job-creation-attributes-supported", creation_list(info));
    push_optional(&mut r, "printer-info", optional_text(info.info()));
    push_optional(&mut r, "printer-make-and-model", optional_text(info.make_and_model()));
    push_optional(&mut r, "printer-uuid", optional_urn(info.uuid()));
    r
}

/// Moves the attributes of `more` to the end of `list`.
pub fn append_attributes(list: &mut Vec<IppAttribute>, more: Vec<IppAttribute>)
    ensures
        attribute_views(final(list)@) == attribute_views(old(list)@) + attribute_views(more@),
{
    let ghost given = more@;
    let mut more = more;
    list.append(&mut more);
    assert(attribute_views(list@) =~= attribute_views(old(list)@) + attribute_views(given));
}

/// The printer attributes that `requested` asks for; `all` asks for every one.
pub open spec fn printer_attributes(
    info: PrinterInfoView,
    printer_uri: Seq<char>,
    security: Seq<char>,
    uptime: u64,
    requested: Set<Seq<char>>,
) -> Seq<AttributeView> {
    retained(
        all_printer_attributes(info, printer_uri, security, uptime),
        requested,
        requested.contains("all"@),
    )
}

/// The printer attributes that `requested` asks for.
pub fn printer_attribute_list(
    info: &PrinterInfo,
    printer_uri: String,
    security: &str,
    uptime: u64,
    requested: &NameSet,
) -> (r: Vec<IppAttribute>)
    ensures
        attribute_views(r@) == printer_attributes(
            info@,
            printer_uri@,
            security@,
            uptime,
            requested@,
        ),
{
    let mut all = identity_list(info, printer_uri, security);
    append_attributes(&mut all, format_list(info, uptime));
    append_attributes(&mut all, template_list(info));
    append_attributes(&mut all, optional_list(info));
    retain_requested(all, requested, requested.contains("all"))
}

/// Asking for `all` gives every printer attribute.
pub proof fn lemma_all_printer_attributes(
    info: PrinterInfoView,
    printer_uri: Seq<char>,
    security: Seq<char>,
    uptime: u64,
    requested: Set<Seq<char>>,
)
    requires
        requested.contains("all"@),
    ensures
        printer_attributes(info, printer_uri, security, uptime, requested)
            == all_printer_attributes(info, printer_uri, security, uptime),
{
    lemma_retained_whole(all_printer_attributes(info, printer_uri, security, uptime), requested);
}

/// Where the whole class is asked for, every attribute is kept.
pub proof fn lemma_retained_whole(list: Seq<AttributeView>, requested: Set<Seq<char>>)
    ensures
        retained(list, requested, true) == list,
    decreases list.len(),
{
    reveal(Seq::filter);
    if list.len() > 0 {
        lemma_retained_whole(list.drop_last(), requested);
        assert(list.drop_last().push(list.last()) =~= list);
    }
}

/// What is kept of a list is in the list: each attribute that is kept
/// stands in the list, and in the order of the list.
pub proof fn lemma_retained_within(list: Seq<AttributeView>, requested: Set<Seq<char>>, whole: bool)
    ensures
        forall|i: int|
            0 <= i < retained(list, requested, whole).len() ==> list.contains(
                #[trigger] retained(list, requested, whole)[i],
            ),
{
    let kept = retained(list, requested, whole);
    assert forall|i: int| 0 <= i < kept.len() implies list.contains(#[trigger] kept[i]) by {
        assert(kept.contains(kept[i]));
        list.lemma_filter_contains_rev(selected(requested, whole), kept[i]);
    }
}

/// Asking for `all` printer attributes gives a superset of what any other
/// request gives: every attribute that some `requested` is answered with is
/// among those that `all` is answered with, with the same value.
pub proof fn lemma_all_is_superset_of_printer_attributes(
    info: PrinterInfoView,
    printer_uri: Seq<char>,
    security: Seq<char>,
    uptime: u64,
    requested: Set<Seq<char>>,
    everything: Set<Seq<char>>,
)
    requires
        everything.contains("all"@),
    ensures
        forall|i: int|
            0 <= i < printer_attributes(info, printer_uri, security, uptime, requested).len()
                ==> printer_attributes(info, printer_uri, security, uptime, everything).contains(
                #[trigger] printer_attributes(info, printer_uri, security, uptime, requested)[i],
            ),
{
    lemma_all_printer_attributes(info, printer_uri, security, uptime, everything);
    lemma_retained_within(
        all_printer_attributes(info, printer_uri, security, uptime),
        requested,
        requested.contains("all"@),
    );
}

} // verus!
