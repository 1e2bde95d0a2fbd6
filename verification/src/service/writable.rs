//! The responses of the printer service can be written: every name is one
//! that the wire form takes, and so is every value, as long as the strings
//! that the printer was configured with, and those that requests and the sink
//! brought, are not too long for their length to be stated.
use crate::attribute::{
    found, with_attribute, with_attributes, AttributeView, GroupView,
};
use crate::model::{
    DelimiterTag, JobState, Operation, PageOrientation, PrinterState, Resolution,
};
use crate::request::{basic_group, charset_attribute, language_attribute};
use crate::service::common::{status_message, ServiceError};
use crate::service::job::{
    job_attributes, job_description_attributes, job_name, job_path, job_template_attributes,
    lite_job_attributes, time_view, JobInfoView,
};
use crate::service::simple::{finished, new_job, processing, HeadView, ServiceView};
use crate::status::StatusCode;
use crate::text::{decimal_text, digits, trim, trim_end};
use crate::utils::user_name;
use crate::service::info::{
    enum_array, keyword_array, mime_array, orientation_array, resolution_array, PrinterInfoView,
};
use crate::service::printer::{
    all_printer_attributes, attr, creation_keywords, format_attributes, hex_text,
    identity_attributes, lemma_retained_within, optional_attributes, printer_attributes, retained,
    seconds_view, security, template_attributes, url, uuid_urn, with_optional, with_present,
};
use crate::value::IppValueView;
use crate::wire::{attribute_ok, group_ok, members, name_ok, single_ok, value_ok, MAX_LENGTH};
use vstd::prelude::*;
use vstd::utf8::*;

verus! {

/// Whether the octets of a text are few enough for their length to be stated.
pub open spec fn short(s: Seq<char>) -> bool {
    encode_utf8(s).len() <= MAX_LENGTH
}

/// Whether each text of a list is short.
pub open spec fn all_short(list: Seq<Seq<char>>) -> bool {
    forall|i: int| 0 <= i < list.len() ==> short(#[trigger] list[i])
}

/// Whether a text that may be absent is short.
pub open spec fn short_if_there(s: Option<Seq<char>>) -> bool {
    match s {
        Some(t) => short(t),
        None => true,
    }
}

/// Whether each attribute of a list can be written.
#[verifier::opaque]
pub open spec fn all_ok(list: Seq<AttributeView>) -> bool {
    forall|i: int| 0 <= i < list.len() ==> attribute_ok(#[trigger] list[i])
}

/// The names and the words of the attributes that say who the printer is can be written:
/// each is plain ASCII, not empty, and short.
pub proof fn lemma_identity_words()
    ensures
        name_ok("printer-uri-supported"@),
        name_ok("uri-authentication-supported"@),
        name_ok("requesting-user-name"@),
        name_ok("uri-security-supported"@),
        name_ok("printer-name"@),
        name_ok("printer-state"@),
        name_ok("printer-state-reasons"@),
        name_ok("none"@),
        name_ok("ipp-versions-supported"@),
        name_ok("1.0"@),
        name_ok("1.1"@),
        name_ok("2.0"@),
        name_ok("operations-supported"@),
        name_ok("multiple-document-jobs-supported"@),
        name_ok("tls"@),
{
    reveal_strlit("printer-uri-supported");
    is_ascii_chars_encode_utf8("printer-uri-supported"@);
    reveal_strlit("uri-authentication-supported");
    is_ascii_chars_encode_utf8("uri-authentication-supported"@);
    reveal_strlit("requesting-user-name");
    is_ascii_chars_encode_utf8("requesting-user-name"@);
    reveal_strlit("uri-security-supported");
    is_ascii_chars_encode_utf8("uri-security-supported"@);
    reveal_strlit("printer-name");
    is_ascii_chars_encode_utf8("printer-name"@);
    reveal_strlit("printer-state");
    is_ascii_chars_encode_utf8("printer-state"@);
    reveal_strlit("printer-state-reasons");
    is_ascii_chars_encode_utf8("printer-state-reasons"@);
    reveal_strlit("none");
    is_ascii_chars_encode_utf8("none"@);
    reveal_strlit("ipp-versions-supported");
    is_ascii_chars_encode_utf8("ipp-versions-supported"@);
    reveal_strlit("1.0");
    is_ascii_chars_encode_utf8("1.0"@);
    reveal_strlit("1.1");
    is_ascii_chars_encode_utf8("1.1"@);
    reveal_strlit("2.0");
    is_ascii_chars_encode_utf8("2.0"@);
    reveal_strlit("operations-supported");
    is_ascii_chars_encode_utf8("operations-supported"@);
    reveal_strlit("multiple-document-jobs-supported");
    is_ascii_chars_encode_utf8("multiple-document-jobs-supported"@);
    reveal_strlit("tls");
    is_ascii_chars_encode_utf8("tls"@);
}

/// The names and the words of the attributes that say which languages and
/// formats the printer takes can be written:
/// each is plain ASCII, not empty, and short.
pub proof fn lemma_format_words()
    ensures
        name_ok("charset-configured"@),
        name_ok("charset-supported"@),
        name_ok("utf-8"@),
        name_ok("natural-language-configured"@),
        name_ok("generated-natural-language-supported"@),
        name_ok("en"@),
        name_ok("document-format-default"@),
        name_ok("document-format-supported"@),
        name_ok("printer-is-accepting-jobs"@),
        name_ok("pdl-override-supported"@),
        name_ok("attempted"@),
        name_ok("printer-up-time"@),
        name_ok("compression-supported"@),
        name_ok("none"@),
        name_ok("gzip"@),
{
    reveal_strlit("charset-configured");
    is_ascii_chars_encode_utf8("charset-configured"@);
    reveal_strlit("charset-supported");
    is_ascii_chars_encode_utf8("charset-supported"@);
    reveal_strlit("utf-8");
    is_ascii_chars_encode_utf8("utf-8"@);
    reveal_strlit("natural-language-configured");
    is_ascii_chars_encode_utf8("natural-language-configured"@);
    reveal_strlit("generated-natural-language-supported");
    is_ascii_chars_encode_utf8("generated-natural-language-supported"@);
    reveal_strlit("en");
    is_ascii_chars_encode_utf8("en"@);
    reveal_strlit("document-format-default");
    is_ascii_chars_encode_utf8("document-format-default"@);
    reveal_strlit("document-format-supported");
    is_ascii_chars_encode_utf8("document-format-supported"@);
    reveal_strlit("printer-is-accepting-jobs");
    is_ascii_chars_encode_utf8("printer-is-accepting-jobs"@);
    reveal_strlit("pdl-override-supported");
    is_ascii_chars_encode_utf8("pdl-override-supported"@);
    reveal_strlit("attempted");
    is_ascii_chars_encode_utf8("attempted"@);
    reveal_strlit("printer-up-time");
    is_ascii_chars_encode_utf8("printer-up-time"@);
    reveal_strlit("compression-supported");
    is_ascii_chars_encode_utf8("compression-supported"@);
    reveal_strlit("none");
    is_ascii_chars_encode_utf8("none"@);
    reveal_strlit("gzip");
    is_ascii_chars_encode_utf8("gzip"@);
}

/// The names and the words of the attributes that say which job template
/// options the printer takes can be written:
/// each is plain ASCII, not empty, and short.
pub proof fn lemma_template_words()
    ensures
        name_ok("media-default"@),
        name_ok("media-supported"@),
        name_ok("orientation-requested-default"@),
        name_ok("orientation-requested-supported"@),
        name_ok("sides-default"@),
        name_ok("sides-supported"@),
        name_ok("print-color-mode-default"@),
        name_ok("print-color-mode-supported"@),
{
    reveal_strlit("media-default");
    is_ascii_chars_encode_utf8("media-default"@);
    reveal_strlit("media-supported");
    is_ascii_chars_encode_utf8("media-supported"@);
    reveal_strlit("orientation-requested-default");
    is_ascii_chars_encode_utf8("orientation-requested-default"@);
    reveal_strlit("orientation-requested-supported");
    is_ascii_chars_encode_utf8("orientation-requested-supported"@);
    reveal_strlit("sides-default");
    is_ascii_chars_encode_utf8("sides-default"@);
    reveal_strlit("sides-supported");
    is_ascii_chars_encode_utf8("sides-supported"@);
    reveal_strlit("print-color-mode-default");
    is_ascii_chars_encode_utf8("print-color-mode-default"@);
    reveal_strlit("print-color-mode-supported");
    is_ascii_chars_encode_utf8("print-color-mode-supported"@);
}

/// The names and the words of the attributes that are reported only where
/// the printer is configured with them can be written:
/// each is plain ASCII, not empty, and short.
pub proof fn lemma_optional_words()
    ensures
        name_ok("document-format-preferred"@),
        name_ok("printer-resolution-supported"@),
        name_ok("printer-resolution-default"@),
        name_ok("pdf-versions-supported"@),
        name_ok("urf-supported"@),
        name_ok("pwg-raster-document-type-supported"@),
        name_ok("pwg-raster-document-resolution-supported"@),
        name_ok("pwg-raster-document-sheet-back"@),
        name_ok("job-creation-attributes-supported"@),
        name_ok("job-name"@),
        name_ok("media"@),
        name_ok("orientation-requested"@),
        name_ok("print-color-mode"@),
        name_ok("sides"@),
        name_ok("printer-resolution"@),
        name_ok("printer-info"@),
        name_ok("printer-make-and-model"@),
        name_ok("printer-uuid"@),
{
    reveal_strlit("document-format-preferred");
    is_ascii_chars_encode_utf8("document-format-preferred"@);
    reveal_strlit("printer-resolution-supported");
    is_ascii_chars_encode_utf8("printer-resolution-supported"@);
    reveal_strlit("printer-resolution-default");
    is_ascii_chars_encode_utf8("printer-resolution-default"@);
    reveal_strlit("pdf-versions-supported");
    is_ascii_chars_encode_utf8("pdf-versions-supported"@);
    reveal_strlit("urf-supported");
    is_ascii_chars_encode_utf8("urf-supported"@);
    reveal_strlit("pwg-raster-document-type-supported");
    is_ascii_chars_encode_utf8("pwg-raster-document-type-supported"@);
    reveal_strlit("pwg-raster-document-resolution-supported");
    is_ascii_chars_encode_utf8("pwg-raster-document-resolution-supported"@);
    reveal_strlit("pwg-raster-document-sheet-back");
    is_ascii_chars_encode_utf8("pwg-raster-document-sheet-back"@);
    reveal_strlit("job-creation-attributes-supported");
    is_ascii_chars_encode_utf8("job-creation-attributes-supported"@);
    reveal_strlit("job-name");
    is_ascii_chars_encode_utf8("job-name"@);
    reveal_strlit("media");
    is_ascii_chars_encode_utf8("media"@);
    reveal_strlit("orientation-requested");
    is_ascii_chars_encode_utf8("orientation-requested"@);
    reveal_strlit("print-color-mode");
    is_ascii_chars_encode_utf8("print-color-mode"@);
    reveal_strlit("sides");
    is_ascii_chars_encode_utf8("sides"@);
    reveal_strlit("printer-resolution");
    is_ascii_chars_encode_utf8("printer-resolution"@);
    reveal_strlit("printer-info");
    is_ascii_chars_encode_utf8("printer-info"@);
    reveal_strlit("printer-make-and-model");
    is_ascii_chars_encode_utf8("printer-make-and-model"@);
    reveal_strlit("printer-uuid");
    is_ascii_chars_encode_utf8("printer-uuid"@);
}

/// The names and the words of the attributes that report a job can be written:
/// each is plain ASCII, not empty, and short.
pub proof fn lemma_job_words()
    ensures
        name_ok("job-uri"@),
        name_ok("job-id"@),
        name_ok("job-state"@),
        name_ok("job-state-message"@),
        name_ok("job-state-reasons"@),
        name_ok("job-printer-uri"@),
        name_ok("job-name"@),
        name_ok("job-originating-user-name"@),
        name_ok("time-at-creation"@),
        name_ok("time-at-processing"@),
        name_ok("time-at-completed"@),
        name_ok("job-printer-up-time"@),
        name_ok("media"@),
        name_ok("orientation-requested"@),
        name_ok("sides"@),
        name_ok("print-color-mode"@),
        name_ok("printer-resolution"@),
{
    reveal_strlit("job-uri");
    is_ascii_chars_encode_utf8("job-uri"@);
    reveal_strlit("job-id");
    is_ascii_chars_encode_utf8("job-id"@);
    reveal_strlit("job-state");
    is_ascii_chars_encode_utf8("job-state"@);
    reveal_strlit("job-state-message");
    is_ascii_chars_encode_utf8("job-state-message"@);
    reveal_strlit("job-state-reasons");
    is_ascii_chars_encode_utf8("job-state-reasons"@);
    reveal_strlit("job-printer-uri");
    is_ascii_chars_encode_utf8("job-printer-uri"@);
    reveal_strlit("job-name");
    is_ascii_chars_encode_utf8("job-name"@);
    reveal_strlit("job-originating-user-name");
    is_ascii_chars_encode_utf8("job-originating-user-name"@);
    reveal_strlit("time-at-creation");
    is_ascii_chars_encode_utf8("time-at-creation"@);
    reveal_strlit("time-at-processing");
    is_ascii_chars_encode_utf8("time-at-processing"@);
    reveal_strlit("time-at-completed");
    is_ascii_chars_encode_utf8("time-at-completed"@);
    reveal_strlit("job-printer-up-time");
    is_ascii_chars_encode_utf8("job-printer-up-time"@);
    reveal_strlit("media");
    is_ascii_chars_encode_utf8("media"@);
    reveal_strlit("orientation-requested");
    is_ascii_chars_encode_utf8("orientation-requested"@);
    reveal_strlit("sides");
    is_ascii_chars_encode_utf8("sides"@);
    reveal_strlit("print-color-mode");
    is_ascii_chars_encode_utf8("print-color-mode"@);
    reveal_strlit("printer-resolution");
    is_ascii_chars_encode_utf8("printer-resolution"@);
}

/// The names and the words of the attributes that open a response can be written:
/// each is plain ASCII, not empty, and short.
pub proof fn lemma_opening_words()
    ensures
        name_ok("attributes-charset"@),
        name_ok("attributes-natural-language"@),
        name_ok("utf-8"@),
        name_ok("en"@),
        name_ok("status-message"@),
{
    reveal_strlit("attributes-charset");
    is_ascii_chars_encode_utf8("attributes-charset"@);
    reveal_strlit("attributes-natural-language");
    is_ascii_chars_encode_utf8("attributes-natural-language"@);
    reveal_strlit("utf-8");
    is_ascii_chars_encode_utf8("utf-8"@);
    reveal_strlit("en");
    is_ascii_chars_encode_utf8("en"@);
    reveal_strlit("status-message");
    is_ascii_chars_encode_utf8("status-message"@);
}

/// An array of short keywords can be written, whatever their number.
pub proof fn lemma_keyword_array_ok(list: Seq<Seq<char>>)
    requires
        all_short(list),
    ensures
        value_ok(keyword_array(list)),
{
    let v = keyword_array(list);
    assert forall|i: int| 0 <= i < members(v).len() implies single_ok(#[trigger] members(v)[i]) by {
        if list.len() > 0 {
            assert(short(list[i]));
        }
    }
}

/// An array of short media types can be written, whatever their number.
pub proof fn lemma_mime_array_ok(list: Seq<Seq<char>>)
    requires
        all_short(list),
    ensures
        value_ok(mime_array(list)),
{
    let v = mime_array(list);
    assert forall|i: int| 0 <= i < members(v).len() implies single_ok(#[trigger] members(v)[i]) by {
        if list.len() > 0 {
            assert(short(list[i]));
        }
    }
}

/// An array of enum values can be written, whatever their number.
pub proof fn lemma_enum_array_ok(list: Seq<i32>)
    ensures
        value_ok(enum_array(list)),
{
    let v = enum_array(list);
    assert forall|i: int| 0 <= i < members(v).len() implies single_ok(
        #[trigger] members(v)[i],
    ) by {}
}

/// An array of orientations can be written, whatever their number.
pub proof fn lemma_orientation_array_ok(list: Seq<PageOrientation>)
    ensures
        value_ok(orientation_array(list)),
{
    let v = orientation_array(list);
    assert forall|i: int| 0 <= i < members(v).len() implies single_ok(
        #[trigger] members(v)[i],
    ) by {}
}

/// An array of resolutions can be written, whatever their number.
pub proof fn lemma_resolution_array_ok(list: Seq<Resolution>)
    ensures
        value_ok(resolution_array(list)),
{
    let v = resolution_array(list);
    assert forall|i: int| 0 <= i < members(v).len() implies single_ok(
        #[trigger] members(v)[i],
    ) by {}
}

/// The list without attributes can be written.
pub proof fn lemma_none_ok()
    ensures
        all_ok(Seq::empty()),
{
    reveal(all_ok);
}

/// Attributes that can be written, one list after another, can be written.
pub proof fn lemma_all_ok_concat(a: Seq<AttributeView>, b: Seq<AttributeView>)
    requires
        all_ok(a),
        all_ok(b),
    ensures
        all_ok(a + b),
{
    reveal(all_ok);
    assert forall|i: int| 0 <= i < (a + b).len() implies attribute_ok(#[trigger] (a + b)[i]) by {
        if i < a.len() {
            assert((a + b)[i] == a[i]);
        } else {
            assert((a + b)[i] == b[i - a.len()]);
        }
    }
}

/// Putting attributes that can be written into a group of such keeps it so.
pub proof fn lemma_with_attributes_ok(attrs: Seq<AttributeView>, more: Seq<AttributeView>)
    requires
        all_ok(attrs),
        all_ok(more),
    ensures
        all_ok(with_attributes(attrs, more)),
    decreases more.len(),
{
    reveal(all_ok);
    if more.len() > 0 {
        let a = more[0];
        let next = with_attribute(attrs, a);
        crate::attribute::lemma_first_index(attrs, crate::attribute::named(a.name));
        assert(attribute_ok(a));
        assert forall|i: int| 0 <= i < next.len() implies attribute_ok(#[trigger] next[i]) by {
            if i < attrs.len() && next[i] != a {
                assert(next[i] == attrs[i]);
            }
        }
        assert forall|i: int| 0 <= i < more.drop_first().len() implies attribute_ok(
            #[trigger] more.drop_first()[i],
        ) by {
            assert(more.drop_first()[i] == more[i + 1]);
        }
        lemma_with_attributes_ok(next, more.drop_first());
    }
}

/// Whether the strings that the printer was configured with are short,
/// and its UUID has its sixteen octets.
pub open spec fn info_writable(info: PrinterInfoView) -> bool {
    &&& short(info.name)
    &&& short_if_there(info.info)
    &&& short_if_there(info.make_and_model)
    &&& (info.uuid matches Some(u) ==> u.len() == 16)
    &&& all_short(info.document_format_supported)
    &&& short(info.document_format_default)
    &&& short_if_there(info.document_format_preferred)
    &&& all_short(info.media_supported)
    &&& short(info.media_default)
    &&& all_short(info.sides_supported)
    &&& short(info.sides_default)
    &&& all_short(info.print_color_mode_supported)
    &&& short(info.print_color_mode_default)
    &&& all_short(info.pdf_versions_supported)
    &&& all_short(info.urf_supported)
    &&& all_short(info.pwg_raster_document_type_supported)
    &&& short_if_there(info.pwg_raster_document_sheet_back)
}

/// The hex digits of octets are plain ASCII, two for each octet.
pub proof fn lemma_hex_text(bytes: Seq<u8>)
    ensures
        hex_text(bytes).len() == 2 * bytes.len(),
        is_ascii_chars(hex_text(bytes)),
    decreases bytes.len(),
{
    if bytes.len() > 0 {
        lemma_hex_text(bytes.drop_last());
    }
}

/// The URN of a UUID of sixteen octets has forty-five characters, all
/// plain ASCII, and so is short.
pub proof fn lemma_uuid_urn_short(bytes: Seq<u8>)
    requires
        bytes.len() == 16,
    ensures
        short(uuid_urn(bytes)),
{
    reveal_strlit("urn:uuid:");
    lemma_hex_text(bytes.subrange(0, 4));
    lemma_hex_text(bytes.subrange(4, 6));
    lemma_hex_text(bytes.subrange(6, 8));
    lemma_hex_text(bytes.subrange(8, 10));
    lemma_hex_text(bytes.subrange(10, 16));
    let urn = uuid_urn(bytes);
    assert(urn.len() == 45);
    assert(is_ascii_chars(urn));
    is_ascii_chars_encode_utf8(urn);
}

/// A value that can be written as a single value can be written.
pub proof fn lemma_single_value_ok(v: IppValueView)
    requires
        single_ok(v),
    ensures
        value_ok(v),
{
    assert(members(v) =~= seq![v]);
}

/// A short text can be written, whatever kind of text it is.
pub proof fn lemma_text_values_ok(s: Seq<char>)
    requires
        short(s),
    ensures
        value_ok(IppValueView::Keyword(s)),
        value_ok(IppValueView::Uri(s)),
        value_ok(IppValueView::Charset(s)),
        value_ok(IppValueView::NaturalLanguage(s)),
        value_ok(IppValueView::MimeMediaType(s)),
        value_ok(IppValueView::TextWithoutLanguage(s)),
        value_ok(IppValueView::NameWithoutLanguage(s)),
{
    lemma_single_value_ok(IppValueView::Keyword(s));
    lemma_single_value_ok(IppValueView::Uri(s));
    lemma_single_value_ok(IppValueView::Charset(s));
    lemma_single_value_ok(IppValueView::NaturalLanguage(s));
    lemma_single_value_ok(IppValueView::MimeMediaType(s));
    lemma_single_value_ok(IppValueView::TextWithoutLanguage(s));
    lemma_single_value_ok(IppValueView::NameWithoutLanguage(s));
}

/// A number, a truth value and `no-value` can be written.
pub proof fn lemma_plain_values_ok(i: i32)
    ensures
        value_ok(IppValueView::Integer(i)),
        value_ok(IppValueView::Enum(i)),
        value_ok(IppValueView::Boolean(true)),
        value_ok(IppValueView::Boolean(false)),
        value_ok(IppValueView::NoValue),
{
    lemma_single_value_ok(IppValueView::Integer(i));
    lemma_single_value_ok(IppValueView::Enum(i));
    lemma_single_value_ok(IppValueView::Boolean(true));
    lemma_single_value_ok(IppValueView::Boolean(false));
    lemma_single_value_ok(IppValueView::NoValue);
}

/// A resolution can be written.
pub proof fn lemma_resolution_ok(r: Resolution)
    ensures
        value_ok(r.to_value()),
{
    lemma_single_value_ok(r.to_value());
}

/// What says who the printer is can be written.
#[verifier::rlimit(40)]
pub proof fn lemma_identity_ok(info: PrinterInfoView, printer_uri: Seq<char>, security: Seq<char>)
    requires
        short(info.name),
        short(printer_uri),
        short(security),
    ensures
        all_ok(identity_attributes(info, printer_uri, security)),
{
    reveal(all_ok);
    lemma_identity_words();
    let versions = seq!["1.0", "1.1", "2.0"].map_values(|s: &str| s@);
    assert(all_short(versions)) by {
        assert(versions[0] == "1.0"@);
        assert(versions[1] == "1.1"@);
        assert(versions[2] == "2.0"@);
    }
    lemma_keyword_array_ok(versions);
    lemma_enum_array_ok(
        seq![
            Operation::PrintJob.code() as i32,
            Operation::ValidateJob.code() as i32,
            Operation::CreateJob.code() as i32,
            Operation::SendDocument.code() as i32,
            Operation::CancelJob.code() as i32,
            Operation::GetJobAttributes.code() as i32,
            Operation::GetJobs.code() as i32,
            Operation::GetPrinterAttributes.code() as i32,
        ],
    );
    lemma_text_values_ok(printer_uri);
    lemma_text_values_ok("requesting-user-name"@);
    lemma_text_values_ok(security);
    lemma_text_values_ok(info.name);
    lemma_text_values_ok("none"@);
    lemma_plain_values_ok(PrinterState::Idle.code());
    let list = identity_attributes(info, printer_uri, security);
    assert(attribute_ok(list[0]));
    assert(attribute_ok(list[1]));
    assert(attribute_ok(list[2]));
    assert(attribute_ok(list[3]));
    assert(attribute_ok(list[4]));
    assert(attribute_ok(list[5]));
    assert(attribute_ok(list[6]));
    assert(attribute_ok(list[7]));
    assert(attribute_ok(list[8]));
}

/// What says which languages and formats the printer takes can be written.
#[verifier::rlimit(40)]
pub proof fn lemma_format_ok(info: PrinterInfoView, uptime: u64)
    requires
        short(info.document_format_default),
        all_short(info.document_format_supported),
    ensures
        all_ok(format_attributes(info, uptime)),
{
    reveal(all_ok);
    lemma_format_words();
    let compressions = seq!["none", "gzip"].map_values(|s: &str| s@);
    assert(all_short(compressions)) by {
        assert(compressions[0] == "none"@);
        assert(compressions[1] == "gzip"@);
    }
    lemma_keyword_array_ok(compressions);
    lemma_mime_array_ok(info.document_format_supported);
    lemma_text_values_ok("utf-8"@);
    lemma_text_values_ok("en"@);
    lemma_text_values_ok("attempted"@);
    lemma_text_values_ok(info.document_format_default);
    lemma_plain_values_ok(uptime as i32);
    let list = format_attributes(info, uptime);
    assert(attribute_ok(list[0]));
    assert(attribute_ok(list[1]));
    assert(attribute_ok(list[2]));
    assert(attribute_ok(list[3]));
    assert(attribute_ok(list[4]));
    assert(attribute_ok(list[5]));
    assert(attribute_ok(list[6]));
    assert(attribute_ok(list[7]));
    assert(attribute_ok(list[8]));
    assert(attribute_ok(list[9]));
}

/// What says which job template options the printer takes can be written.
#[verifier::rlimit(40)]
pub proof fn lemma_template_ok(info: PrinterInfoView)
    requires
        info_writable(info),
    ensures
        all_ok(template_attributes(info)),
{
    reveal(all_ok);
    lemma_template_words();
    lemma_keyword_array_ok(info.media_supported);
    lemma_keyword_array_ok(info.sides_supported);
    lemma_keyword_array_ok(info.print_color_mode_supported);
    lemma_orientation_array_ok(info.orientation_supported);
    lemma_text_values_ok(info.media_default);
    lemma_text_values_ok(info.sides_default);
    lemma_text_values_ok(info.print_color_mode_default);
    match info.orientation_default {
        Some(o) => {
            lemma_plain_values_ok(o.code());
        },
        None => {
            lemma_plain_values_ok(0);
        },
    }
    let list = template_attributes(info);
    assert(attribute_ok(list[0]));
    assert(attribute_ok(list[1]));
    assert(attribute_ok(list[2]));
    assert(attribute_ok(list[3]));
    assert(attribute_ok(list[4]));
    assert(attribute_ok(list[5]));
    assert(attribute_ok(list[6]));
    assert(attribute_ok(list[7]));
}

/// A list that can be written can be written with one more attribute
/// that can, where that is there.
pub proof fn lemma_with_optional_ok(
    list: Seq<AttributeView>,
    name: Seq<char>,
    value: Option<IppValueView>,
)
    requires
        all_ok(list),
        name_ok(name),
        value matches Some(v) ==> value_ok(v),
    ensures
        all_ok(with_optional(list, name, value)),
{
    reveal(all_ok);
    let r = with_optional(list, name, value);
    assert forall|i: int| 0 <= i < r.len() implies attribute_ok(#[trigger] r[i]) by {
        if i < list.len() {
            assert(r[i] == list[i]);
        }
    }
}

/// A list that can be written can be written with one more attribute
/// that can, where that is present.
pub proof fn lemma_with_present_ok(
    list: Seq<AttributeView>,
    present: bool,
    name: Seq<char>,
    value: IppValueView,
)
    requires
        all_ok(list),
        name_ok(name),
        value_ok(value),
    ensures
        all_ok(with_present(list, present, name, value)),
{
    reveal(all_ok);
    let r = with_present(list, present, name, value);
    assert forall|i: int| 0 <= i < r.len() implies attribute_ok(#[trigger] r[i]) by {
        if i < list.len() {
            assert(r[i] == list[i]);
        }
    }
}

/// What is reported only where the printer is configured with it can be written.
#[verifier::rlimit(40)]
pub proof fn lemma_optional_ok(info: PrinterInfoView)
    requires
        info_writable(info),
    ensures
        all_ok(optional_attributes(info)),
{
    lemma_none_ok();
    lemma_optional_words();
    match info.document_format_preferred {
        Some(f) => lemma_text_values_ok(f),
        None => {},
    }
    match info.printer_resolution_default {
        Some(r) => lemma_resolution_ok(r),
        None => {},
    }
    match info.pwg_raster_document_sheet_back {
        Some(k) => lemma_text_values_ok(k),
        None => {},
    }
    match info.info {
        Some(t) => lemma_text_values_ok(t),
        None => {},
    }
    match info.make_and_model {
        Some(t) => lemma_text_values_ok(t),
        None => {},
    }
    match info.uuid {
        Some(u) => {
            lemma_uuid_urn_short(u);
            lemma_text_values_ok(uuid_urn(u));
        },
        None => {},
    }
    let s0 = Seq::<AttributeView>::empty();
    let s1 = with_optional(
        s0,
        "document-format-preferred"@,
        match info.document_format_preferred {
            Some(f) => Some(IppValueView::MimeMediaType(f)),
            None => None,
        },
    );
    lemma_with_optional_ok(
        s0,
        "document-format-preferred"@,
        match info.document_format_preferred {
            Some(f) => Some(IppValueView::MimeMediaType(f)),
            None => None,
        },
    );
    lemma_resolution_array_ok(info.printer_resolution_supported);
    let s2 = with_present(
        s1,
        info.printer_resolution_supported.len() > 0,
        "printer-resolution-supported"@,
        resolution_array(info.printer_resolution_supported),
    );
    lemma_with_present_ok(
        s1,
        info.printer_resolution_supported.len() > 0,
        "printer-resolution-supported"@,
        resolution_array(info.printer_resolution_supported),
    );
    let s3 = with_optional(
        s2,
        "printer-resolution-default"@,
        match info.printer_resolution_default {
            Some(r) => Some(r.to_value()),
            None => None,
        },
    );
    lemma_with_optional_ok(
        s2,
        "printer-resolution-default"@,
        match info.printer_resolution_default {
            Some(r) => Some(r.to_value()),
            None => None,
        },
    );
    lemma_keyword_array_ok(info.pdf_versions_supported);
    let s4 = with_present(
        s3,
        info.pdf_versions_supported.len() > 0,
        "pdf-versions-supported"@,
        keyword_array(info.pdf_versions_supported),
    );
    lemma_with_present_ok(
        s3,
        info.pdf_versions_supported.len() > 0,
        "pdf-versions-supported"@,
        keyword_array(info.pdf_versions_supported),
    );
    lemma_keyword_array_ok(info.urf_supported);
    let s5 = with_present(
        s4,
        info.urf_supported.len() > 0,
        "urf-supported"@,
        keyword_array(info.urf_supported),
    );
    lemma_with_present_ok(
        s4,
        info.urf_supported.len() > 0,
        "urf-supported"@,
        keyword_array(info.urf_supported),
    );
    lemma_keyword_array_ok(info.pwg_raster_document_type_supported);
    let s6 = with_present(
        s5,
        info.pwg_raster_document_type_supported.len() > 0,
        "pwg-raster-document-type-supported"@,
        keyword_array(info.pwg_raster_document_type_supported),
    );
    lemma_with_present_ok(
        s5,
        info.pwg_raster_document_type_supported.len() > 0,
        "pwg-raster-document-type-supported"@,
        keyword_array(info.pwg_raster_document_type_supported),
    );
    lemma_resolution_array_ok(info.pwg_raster_document_resolution_supported);
    let s7 = with_present(
        s6,
        info.pwg_raster_document_resolution_supported.len() > 0,
        "pwg-raster-document-resolution-supported"@,
        resolution_array(info.pwg_raster_document_resolution_supported),
    );
    lemma_with_present_ok(
        s6,
        info.pwg_raster_document_resolution_supported.len() > 0,
        "pwg-raster-document-resolution-supported"@,
        resolution_array(info.pwg_raster_document_resolution_supported),
    );
    let s8 = with_optional(
        s7,
        "pwg-raster-document-sheet-back"@,
        match info.pwg_raster_document_sheet_back {
            Some(k) => Some(IppValueView::Keyword(k)),
            None => None,
        },
    );
    lemma_with_optional_ok(
        s7,
        "pwg-raster-document-sheet-back"@,
        match info.pwg_raster_document_sheet_back {
            Some(k) => Some(IppValueView::Keyword(k)),
            None => None,
        },
    );
    let fixed = seq![
        "job-name",
        "media",
        "orientation-requested",
        "print-color-mode",
        "sides",
    ].map_values(|s: &str| s@);
    assert(all_short(fixed)) by {
        assert(fixed[0] == "job-name"@);
        assert(fixed[1] == "media"@);
        assert(fixed[2] == "orientation-requested"@);
        assert(fixed[3] == "print-color-mode"@);
        assert(fixed[4] == "sides"@);
    }
    assert(all_short(creation_keywords(info))) by {
        let all = creation_keywords(info);
        assert forall|i: int| 0 <= i < all.len() implies short(#[trigger] all[i]) by {
            if i < 5 {
                assert(all[i] == fixed[i]);
            }
        }
    }
    lemma_keyword_array_ok(creation_keywords(info));
    let s9 = s8.push(
        attr("job-creation-attributes-supported"@, keyword_array(creation_keywords(info))),
    );
    lemma_with_present_ok(
        s8,
        true,
        "job-creation-attributes-supported"@,
        keyword_array(creation_keywords(info)),
    );
    let s10 = with_optional(
        s9,
        "printer-info"@,
        match info.info {
            Some(t) => Some(IppValueView::TextWithoutLanguage(t)),
            None => None,
        },
    );
    lemma_with_optional_ok(
        s9,
        "printer-info"@,
        match info.info {
            Some(t) => Some(IppValueView::TextWithoutLanguage(t)),
            None => None,
        },
    );
    let s11 = with_optional(
        s10,
        "printer-make-and-model"@,
        match info.make_and_model {
            Some(t) => Some(IppValueView::TextWithoutLanguage(t)),
            None => None,
        },
    );
    lemma_with_optional_ok(
        s10,
        "printer-make-and-model"@,
        match info.make_and_model {
            Some(t) => Some(IppValueView::TextWithoutLanguage(t)),
            None => None,
        },
    );
    lemma_with_optional_ok(
        s11,
        "printer-uuid"@,
        match info.uuid {
            Some(u) => Some(IppValueView::Uri(uuid_urn(u))),
            None => None,
        },
    );
}

/// What is kept of a list that can be written can be written.
pub proof fn lemma_retained_ok(list: Seq<AttributeView>, requested: Set<Seq<char>>, whole: bool)
    requires
        all_ok(list),
    ensures
        all_ok(retained(list, requested, whole)),
{
    reveal(all_ok);
    lemma_retained_within(list, requested, whole);
    let kept = retained(list, requested, whole);
    assert forall|i: int| 0 <= i < kept.len() implies attribute_ok(#[trigger] kept[i]) by {
        assert(list.contains(kept[i]));
        let k = choose|k: int| 0 <= k < list.len() && list[k] == kept[i];
        assert(attribute_ok(list[k]));
    }
}

/// The word for the security of a connection is short.
pub proof fn lemma_security_short(scheme: Option<Seq<char>>)
    ensures
        short(security(scheme)),
{
    reveal_strlit("tls");
    is_ascii_chars_encode_utf8("tls"@);
    reveal_strlit("none");
    is_ascii_chars_encode_utf8("none"@);
}

/// The printer attributes that are asked for can be written, where the
/// printer's strings and the printer's URL are short.
#[verifier::rlimit(40)]
pub proof fn lemma_printer_attributes_ok(
    info: PrinterInfoView,
    printer_uri: Seq<char>,
    scheme: Option<Seq<char>>,
    uptime: u64,
    requested: Set<Seq<char>>,
)
    requires
        info_writable(info),
        short(printer_uri),
    ensures
        all_ok(printer_attributes(info, printer_uri, security(scheme), uptime, requested)),
        all_ok(
            with_attributes(
                Seq::empty(),
                printer_attributes(info, printer_uri, security(scheme), uptime, requested),
            ),
        ),
{
    let sec = security(scheme);
    lemma_security_short(scheme);
    lemma_identity_ok(info, printer_uri, sec);
    lemma_format_ok(info, uptime);
    lemma_template_ok(info);
    lemma_optional_ok(info);
    let a = identity_attributes(info, printer_uri, sec);
    let b = format_attributes(info, uptime);
    let c = template_attributes(info);
    let d = optional_attributes(info);
    lemma_all_ok_concat(a, b);
    lemma_all_ok_concat(a + b, c);
    lemma_all_ok_concat(a + b + c, d);
    lemma_retained_ok(
        all_printer_attributes(info, printer_uri, sec, uptime),
        requested,
        requested.contains("all"@),
    );
    lemma_none_ok();
    lemma_with_attributes_ok(
        Seq::empty(),
        printer_attributes(info, printer_uri, sec, uptime, requested),
    );
}

/// Ten to the power of `k`.
pub open spec fn ten_to(k: nat) -> nat
    decreases k,
{
    if k == 0 {
        1
    } else {
        10 * ten_to((k - 1) as nat)
    }
}

/// The digits of a number are plain ASCII, and a number below ten to the
/// power of `k` has at most `k` of them.
pub proof fn lemma_digits(n: nat, k: nat)
    requires
        1 <= k,
        n < ten_to(k),
    ensures
        is_ascii_chars(digits(n)),
        1 <= digits(n).len() <= k,
    decreases n,
{
    if n >= 10 {
        assert(ten_to(1) == 10) by {
            reveal_with_fuel(ten_to, 2);
        }
        assert(k >= 2);
        assert(n / 10 < ten_to((k - 1) as nat));
        lemma_digits(n / 10, (k - 1) as nat);
    }
}

/// The decimal text of a number of thirty-two bits is plain ASCII and has
/// at most eleven characters.
pub proof fn lemma_decimal_text(v: i32)
    ensures
        is_ascii_chars(decimal_text(v as int)),
        1 <= decimal_text(v as int).len() <= 11,
{
    assert(ten_to(10) == 10_000_000_000) by {
        reveal_with_fuel(ten_to, 11);
    }
    if v < 0 {
        lemma_digits((-v) as nat, 10);
    } else {
        lemma_digits(v as nat, 10);
    }
}

/// The name of a job is short.
pub proof fn lemma_job_name_short(id: i32)
    ensures
        short(job_name(id)),
{
    reveal_strlit("Job #");
    lemma_decimal_text(id);
    let name = job_name(id);
    assert(is_ascii_chars(name));
    is_ascii_chars_encode_utf8(name);
}

/// Whether the strings of a job are short and the reasons for its state can
/// be written.
pub open spec fn job_writable(job: JobInfoView) -> bool {
    &&& short(job.state_message)
    &&& value_ok(job.state_reasons)
    &&& short(job.attributes.originating_user_name)
    &&& short(job.attributes.media)
    &&& short(job.attributes.sides)
    &&& short(job.attributes.print_color_mode)
}

/// The attributes that confirm a job can be written.
#[verifier::rlimit(40)]
pub proof fn lemma_lite_ok(job: JobInfoView, job_uri: Seq<char>)
    requires
        short(job.state_message),
        value_ok(job.state_reasons),
        short(job_uri),
    ensures
        all_ok(lite_job_attributes(job, job_uri)),
{
    reveal(all_ok);
    lemma_job_words();
    lemma_text_values_ok(job_uri);
    lemma_text_values_ok(job.state_message);
    lemma_plain_values_ok(job.id);
    lemma_plain_values_ok(job.state.code());
    let list = lite_job_attributes(job, job_uri);
    assert(attribute_ok(list[0]));
    assert(attribute_ok(list[1]));
    assert(attribute_ok(list[2]));
    assert(attribute_ok(list[3]));
    assert(attribute_ok(list[4]));
}

/// A time that may not have come yet can be written.
pub proof fn lemma_time_ok(t: Option<u64>)
    ensures
        value_ok(time_view(t)),
{
    match t {
        Some(secs) => lemma_plain_values_ok(secs as i32),
        None => lemma_plain_values_ok(0),
    }
}

/// What describes a job beyond what confirms it: who sent it, where, and when.
pub open spec fn description_rest(job: JobInfoView, printer_uri: Seq<char>, uptime: u64) -> Seq<
    AttributeView,
> {
    seq![
        attr("job-printer-uri"@, IppValueView::Uri(printer_uri)),
        attr("job-name"@, IppValueView::NameWithoutLanguage(job_name(job.id))),
        attr(
            "job-originating-user-name"@,
            IppValueView::NameWithoutLanguage(job.attributes.originating_user_name),
        ),
        attr("time-at-creation"@, seconds_view(job.created_at)),
        attr("time-at-processing"@, time_view(job.processing_at)),
        attr("time-at-completed"@, time_view(job.completed_at)),
        attr("job-printer-up-time"@, seconds_view(uptime)),
    ]
}

/// Who sent a job, where and when can be written.
#[verifier::rlimit(40)]
pub proof fn lemma_description_rest_ok(job: JobInfoView, printer_uri: Seq<char>, uptime: u64)
    requires
        short(job.attributes.originating_user_name),
        short(printer_uri),
    ensures
        all_ok(description_rest(job, printer_uri, uptime)),
{
    reveal(all_ok);
    lemma_job_words();
    lemma_job_name_short(job.id);
    let name = job_name(job.id);
    lemma_text_values_ok(printer_uri);
    lemma_text_values_ok(name);
    lemma_text_values_ok(job.attributes.originating_user_name);
    lemma_time_ok(Some(job.created_at));
    lemma_time_ok(job.processing_at);
    lemma_time_ok(job.completed_at);
    lemma_time_ok(Some(uptime));
    let more = description_rest(job, printer_uri, uptime);
    assert(attribute_ok(more[0]));
    assert(attribute_ok(more[1]));
    assert(attribute_ok(more[2]));
    assert(attribute_ok(more[3]));
    assert(attribute_ok(more[4]));
    assert(attribute_ok(more[5]));
    assert(attribute_ok(more[6]));
}

/// What describes a job can be written.
pub proof fn lemma_description_ok(
    job: JobInfoView,
    job_uri: Seq<char>,
    printer_uri: Seq<char>,
    uptime: u64,
)
    requires
        job_writable(job),
        short(job_uri),
        short(printer_uri),
    ensures
        all_ok(job_description_attributes(job, job_uri, printer_uri, uptime)),
{
    lemma_lite_ok(job, job_uri);
    lemma_description_rest_ok(job, printer_uri, uptime);
    lemma_all_ok_concat(
        lite_job_attributes(job, job_uri),
        description_rest(job, printer_uri, uptime),
    );
}

/// The print options of a job can be written.
#[verifier::rlimit(40)]
pub proof fn lemma_job_template_ok(job: JobInfoView)
    requires
        job_writable(job),
    ensures
        all_ok(job_template_attributes(job)),
{
    reveal(all_ok);
    lemma_job_words();
    lemma_text_values_ok(job.attributes.media);
    lemma_text_values_ok(job.attributes.sides);
    lemma_text_values_ok(job.attributes.print_color_mode);
    match job.attributes.orientation {
        Some(o) => lemma_plain_values_ok(o.code()),
        None => lemma_plain_values_ok(0),
    }
    let list = seq![
        attr("media"@, IppValueView::Keyword(job.attributes.media)),
        attr(
            "orientation-requested"@,
            match job.attributes.orientation {
                Some(o) => IppValueView::Enum(o.code()),
                None => IppValueView::NoValue,
            },
        ),
        attr("sides"@, IppValueView::Keyword(job.attributes.sides)),
        attr("print-color-mode"@, IppValueView::Keyword(job.attributes.print_color_mode)),
    ];
    assert(attribute_ok(list[0]));
    assert(attribute_ok(list[1]));
    assert(attribute_ok(list[2]));
    assert(attribute_ok(list[3]));
    match job.attributes.printer_resolution {
        Some(r) => {
            lemma_resolution_ok(r);
            lemma_with_optional_ok(list, "printer-resolution"@, Some(r.to_value()));
        },
        None => {
            lemma_with_optional_ok(list, "printer-resolution"@, None);
        },
    }
}

/// The attributes of a job that are asked for can be written, where the
/// job's strings and the two URLs are short.
pub proof fn lemma_job_attributes_ok(
    job: JobInfoView,
    job_uri: Seq<char>,
    printer_uri: Seq<char>,
    uptime: u64,
    requested: Set<Seq<char>>,
)
    requires
        job_writable(job),
        short(job_uri),
        short(printer_uri),
    ensures
        all_ok(job_attributes(job, job_uri, printer_uri, uptime, requested)),
        all_ok(
            with_attributes(
                Seq::empty(),
                job_attributes(job, job_uri, printer_uri, uptime, requested),
            ),
        ),
{
    let all = requested.contains("all"@);
    let description = job_description_attributes(job, job_uri, printer_uri, uptime);
    let template = job_template_attributes(job);
    lemma_description_ok(job, job_uri, printer_uri, uptime);
    lemma_job_template_ok(job);
    lemma_retained_ok(description, requested, all || requested.contains("job-description"@));
    lemma_retained_ok(template, requested, all || requested.contains("job-template"@));
    lemma_all_ok_concat(
        retained(description, requested, all || requested.contains("job-description"@)),
        retained(template, requested, all || requested.contains("job-template"@)),
    );
    lemma_none_ok();
    lemma_with_attributes_ok(
        Seq::empty(),
        job_attributes(job, job_uri, printer_uri, uptime, requested),
    );
}

/// The group that opens every response can be written.
pub proof fn lemma_basic_group_ok()
    ensures
        group_ok(basic_group()),
{
    lemma_opening_words();
    lemma_text_values_ok("utf-8"@);
    lemma_text_values_ok("en"@);
    let list = basic_group().attributes;
    assert(attribute_ok(list[0]));
    assert(attribute_ok(list[1]));
}

/// The group that reports an error can be written, where the message is short.
pub proof fn lemma_error_group_ok(msg: Seq<char>)
    requires
        short(msg),
    ensures
        group_ok(
            (GroupView {
                tag: DelimiterTag::OperationAttributes,
                attributes: seq![charset_attribute(), language_attribute(), status_message(msg)],
            }),
        ),
{
    lemma_opening_words();
    lemma_text_values_ok("utf-8"@);
    lemma_text_values_ok("en"@);
    lemma_text_values_ok(msg);
    let list = seq![charset_attribute(), language_attribute(), status_message(msg)];
    assert(attribute_ok(list[0]));
    assert(attribute_ok(list[1]));
    assert(attribute_ok(list[2]));
}

/// The words for the states of a job are short.
pub proof fn lemma_state_words()
    ensures
        short("Pending"@),
        short("Processing"@),
        short("Completed"@),
        value_ok(IppValueView::Keyword("none"@)),
{
    reveal_strlit("Pending");
    is_ascii_chars_encode_utf8("Pending"@);
    reveal_strlit("Processing");
    is_ascii_chars_encode_utf8("Processing"@);
    reveal_strlit("Completed");
    is_ascii_chars_encode_utf8("Completed"@);
    reveal_strlit("none");
    is_ascii_chars_encode_utf8("none"@);
    lemma_text_values_ok("none"@);
}

/// Whether the URLs that the service makes for a request that came by `h`
/// are short: that of the printer and that of each job.
pub open spec fn urls_short(s: ServiceView, h: HeadView) -> bool {
    &&& short(s.printer_uri(h))
    &&& forall|id: i32| short(#[trigger] s.job_uri(h, id))
}

/// Whether the words of a failure of the sink are short, as the response
/// and the job's state message give them.
pub open spec fn failure_short(outcome: Result<(), ServiceError>) -> bool {
    match outcome {
        Ok(_) => true,
        Err(e) => short(e@.reported().msg) && short("Aborted: "@ + e.text()),
    }
}

/// Whether the options of the job template that a request brings, and the
/// name of its user, are short.
pub open spec fn request_short(groups: Seq<GroupView>) -> bool {
    let tag = DelimiterTag::JobAttributes;
    &&& short(user_name(groups))
    &&& (found(groups, tag, "media"@) matches Some(IppValueView::Keyword(k)) ==> short(k))
    &&& (found(groups, tag, "sides"@) matches Some(IppValueView::Keyword(k)) ==> short(k))
    &&& (found(groups, tag, "print-color-mode"@) matches Some(IppValueView::Keyword(k)) ==> short(
        k,
    ))
}

/// The job that a request creates can be written, where the printer's
/// defaults and what the request brings are short.
pub proof fn lemma_new_job_writable(
    s: ServiceView,
    h: HeadView,
    groups: Seq<GroupView>,
    state: JobState,
    message: Seq<char>,
)
    requires
        info_writable(s.info),
        request_short(groups),
        short(message),
    ensures
        job_writable(new_job(s, h, groups, state, message)),
{
    lemma_state_words();
}

/// A job that can be written can be written once a document for it has come.
pub proof fn lemma_processing_writable(job: JobInfoView, now: u64)
    requires
        job_writable(job),
    ensures
        job_writable(processing(job, now)),
{
    lemma_state_words();
}

/// A job that can be written can be written once the sink is done with its
/// document, where the words of the sink's failure are short.
pub proof fn lemma_finished_writable(job: JobInfoView, outcome: Result<(), ServiceError>, now: u64)
    requires
        job_writable(job),
        failure_short(outcome),
    ensures
        job_writable(finished(job, outcome, now)),
{
    lemma_state_words();
}

/// The words that report a status are short.
pub proof fn lemma_status_text_short(code: StatusCode)
    ensures
        short(code.text()),
{
    match code {
        StatusCode::SuccessfulOk => {
            reveal_strlit("No error");
            is_ascii_chars_encode_utf8("No error"@);
        },
        StatusCode::SuccessfulOkIgnoredOrSubstitutedAttributes => {
            reveal_strlit("Ignored or substituted attributes");
            is_ascii_chars_encode_utf8("Ignored or substituted attributes"@);
        },
        StatusCode::SuccessfulOkConflictingAttributes => {
            reveal_strlit("Conflicting attributes");
            is_ascii_chars_encode_utf8("Conflicting attributes"@);
        },
        StatusCode::ClientErrorBadRequest => {
            reveal_strlit("Bad request");
            is_ascii_chars_encode_utf8("Bad request"@);
        },
        StatusCode::ClientErrorForbidden => {
            reveal_strlit("Forbidden");
            is_ascii_chars_encode_utf8("Forbidden"@);
        },
        StatusCode::ClientErrorNotAuthenticated => {
            reveal_strlit("Not authenticated");
            is_ascii_chars_encode_utf8("Not authenticated"@);
        },
        StatusCode::ClientErrorNotAuthorized => {
            reveal_strlit("Not authorized");
            is_ascii_chars_encode_utf8("Not authorized"@);
        },
        StatusCode::ClientErrorNotPossible => {
            reveal_strlit("Not possible");
            is_ascii_chars_encode_utf8("Not possible"@);
        },
        StatusCode::ClientErrorTimeout => {
            reveal_strlit("Timeout");
            is_ascii_chars_encode_utf8("Timeout"@);
        },
        StatusCode::ClientErrorNotFound => {
            reveal_strlit("Not found");
            is_ascii_chars_encode_utf8("Not found"@);
        },
        StatusCode::ClientErrorGone => {
            reveal_strlit("Gone");
            is_ascii_chars_encode_utf8("Gone"@);
        },
        StatusCode::ClientErrorRequestEntityTooLong => {
            reveal_strlit("Entity too long");
            is_ascii_chars_encode_utf8("Entity too long"@);
        },
        StatusCode::ClientErrorRequestValueTooLong => {
            reveal_strlit("Request value too long");
            is_ascii_chars_encode_utf8("Request value too long"@);
        },
        StatusCode::ClientErrorDocumentFormatNotSupported => {
            reveal_strlit("Document format not supported");
            is_ascii_chars_encode_utf8("Document format not supported"@);
        },
        StatusCode::ClientErrorAttributesOrValuesNotSupported => {
            reveal_strlit("Attributes or values not supported");
            is_ascii_chars_encode_utf8("Attributes or values not supported"@);
        },
        StatusCode::ClientErrorUriSchemeNotSupported => {
            reveal_strlit("Uri scheme not supported");
            is_ascii_chars_encode_utf8("Uri scheme not supported"@);
        },
        StatusCode::ClientErrorCharsetNotSupported => {
            reveal_strlit("Charset not supported");
            is_ascii_chars_encode_utf8("Charset not supported"@);
        },
        StatusCode::ClientErrorConflictingAttributes => {
            reveal_strlit("Conflicting attributes");
            is_ascii_chars_encode_utf8("Conflicting attributes"@);
        },
        StatusCode::ClientErrorCompressionNotSupported => {
            reveal_strlit("Compression not supported");
            is_ascii_chars_encode_utf8("Compression not supported"@);
        },
        StatusCode::ClientErrorCompressionError => {
            reveal_strlit("Compression error");
            is_ascii_chars_encode_utf8("Compression error"@);
        },
        StatusCode::ClientErrorDocumentFormatError => {
            reveal_strlit("Document format error");
            is_ascii_chars_encode_utf8("Document format error"@);
        },
        StatusCode::ClientErrorDocumentAccessError => {
            reveal_strlit("Document access error");
            is_ascii_chars_encode_utf8("Document access error"@);
        },
        StatusCode::ServerErrorInternalError => {
            reveal_strlit("Internal error");
            is_ascii_chars_encode_utf8("Internal error"@);
        },
        StatusCode::ServerErrorOperationNotSupported => {
            reveal_strlit("Operation not supported");
            is_ascii_chars_encode_utf8("Operation not supported"@);
        },
        StatusCode::ServerErrorServiceUnavailable => {
            reveal_strlit("Service unavailable");
            is_ascii_chars_encode_utf8("Service unavailable"@);
        },
        StatusCode::ServerErrorVersionNotSupported => {
            reveal_strlit("Version not supported");
            is_ascii_chars_encode_utf8("Version not supported"@);
        },
        StatusCode::ServerErrorDeviceError => {
            reveal_strlit("Device error");
            is_ascii_chars_encode_utf8("Device error"@);
        },
        StatusCode::ServerErrorTemporaryError => {
            reveal_strlit("Temporary error");
            is_ascii_chars_encode_utf8("Temporary error"@);
        },
        StatusCode::ServerErrorNotAcceptingJobs => {
            reveal_strlit("Not accepting jobs");
            is_ascii_chars_encode_utf8("Not accepting jobs"@);
        },
        StatusCode::ServerErrorBusy => {
            reveal_strlit("Busy");
            is_ascii_chars_encode_utf8("Busy"@);
        },
        StatusCode::ServerErrorJobCanceled => {
            reveal_strlit("Job canceled");
            is_ascii_chars_encode_utf8("Job canceled"@);
        },
        StatusCode::ServerErrorMultipleDocumentJobsNotSupported => {
            reveal_strlit("Multiple document jobs not supported");
            is_ascii_chars_encode_utf8("Multiple document jobs not supported"@);
        },
        StatusCode::UnknownStatusCode => {
            reveal_strlit("Unknown status code");
            is_ascii_chars_encode_utf8("Unknown status code"@);
        },
    }
}

/// Whether each job that the service holds can be written.
pub open spec fn store_writable(s: ServiceView) -> bool {
    forall|id: i32| #[trigger] s.jobs.contains_key(id) ==> job_writable(s.jobs[id])
}

/// The service holds only jobs that can be written once it holds one more
/// that can, or such a one in place of another.
pub proof fn lemma_holds_after_writable(
    before: ServiceView,
    after: ServiceView,
    next_job_id: i32,
    job: JobInfoView,
)
    requires
        store_writable(before),
        job_writable(job),
        after.holds_after(before, next_job_id, job),
    ensures
        store_writable(after),
        after.info == before.info,
{
    assert forall|id: i32| #[trigger] after.jobs.contains_key(id) implies job_writable(
        after.jobs[id],
    ) by {
        if id != job.id {
            assert(before.jobs.contains_key(id));
        }
    }
}

/// The octets of two texts joined are those of the first, then those of
/// the second.
pub proof fn lemma_octets_of_joined(a: Seq<char>, b: Seq<char>)
    ensures
        encode_utf8(a + b) == encode_utf8(a) + encode_utf8(b),
    decreases a.len(),
{
    if a.len() == 0 {
        assert(a + b =~= b);
        assert(encode_utf8(a + b) =~= encode_utf8(a) + encode_utf8(b));
    } else {
        assert((a + b).drop_first() =~= a.drop_first() + b);
        lemma_octets_of_joined(a.drop_first(), b);
        assert(encode_utf8(a + b) =~= encode_utf8(a) + encode_utf8(b));
    }
}

/// A text without the characters `c` at its ends has no more octets than
/// the text.
pub proof fn lemma_trim_octets(s: Seq<char>, c: char)
    ensures
        encode_utf8(trim(s, c)).len() <= encode_utf8(s).len(),
    decreases s.len(),
{
    if s.len() > 0 && s[0] == c {
        lemma_trim_octets(s.drop_first(), c);
    } else {
        lemma_trim_end_octets(s, c);
    }
}

/// A text without the characters `c` at its end has no more octets than
/// the text.
proof fn lemma_trim_end_octets(s: Seq<char>, c: char)
    ensures
        encode_utf8(trim_end(s, c)).len() <= encode_utf8(s).len(),
    decreases s.len(),
{
    if s.len() > 0 && s.last() == c {
        lemma_trim_end_octets(s.drop_last(), c);
        assert(s =~= s.drop_last() + seq![s.last()]);
        lemma_octets_of_joined(s.drop_last(), seq![s.last()]);
    }
}

/// The octets of the scheme of a URL: those of `scheme`, or the three of
/// `ipp` where there is none.
pub open spec fn scheme_octets(scheme: Option<Seq<char>>) -> int {
    match scheme {
        Some(s) => encode_utf8(s).len() as int,
        None => 3,
    }
}

/// A URL has no more octets than its parts and five more: three after the
/// scheme, and a slash before the base path and before the path.
pub proof fn lemma_url_octets(
    scheme: Option<Seq<char>>,
    host: Seq<char>,
    basepath: Seq<char>,
    path: Seq<char>,
)
    ensures
        encode_utf8(url(scheme, host, basepath, path)).len() <= scheme_octets(scheme)
            + encode_utf8(host).len() + encode_utf8(basepath).len() + encode_utf8(path).len() + 5,
{
    reveal_strlit("ipp");
    is_ascii_chars_encode_utf8("ipp"@);
    reveal_strlit("://");
    is_ascii_chars_encode_utf8("://"@);
    reveal_strlit("/");
    is_ascii_chars_encode_utf8("/"@);
    reveal_strlit("");
    is_ascii_chars_encode_utf8(""@);
    let base = trim(basepath, '/');
    lemma_trim_octets(basepath, '/');
    let scheme = match scheme {
        Some(s) => s,
        None => "ipp"@,
    };
    let before_base = if base.len() == 0 {
        ""@
    } else {
        "/"@
    };
    let before_path = if path.len() > 0 && path[0] == '/' {
        ""@
    } else {
        "/"@
    };
    lemma_octets_of_joined(scheme, "://"@);
    lemma_octets_of_joined(scheme + "://"@, host);
    lemma_octets_of_joined(scheme + "://"@ + host, before_base);
    lemma_octets_of_joined(scheme + "://"@ + host + before_base, base);
    lemma_octets_of_joined(scheme + "://"@ + host + before_base + base, before_path);
    lemma_octets_of_joined(scheme + "://"@ + host + before_base + base + before_path, path);
}

/// The URLs that the service makes are short where the scheme, the host
/// and the base path have twenty octets less than the most that can be
/// stated.
pub proof fn lemma_urls_short(s: ServiceView, h: HeadView)
    requires
        scheme_octets(h.scheme) + encode_utf8(s.host).len() + encode_utf8(s.basepath).len() + 20
            <= MAX_LENGTH,
    ensures
        urls_short(s, h),
{
    reveal_strlit("/");
    is_ascii_chars_encode_utf8("/"@);
    lemma_url_octets(h.scheme, s.host, s.basepath, "/"@);
    assert forall|id: i32| short(#[trigger] s.job_uri(h, id)) by {
        reveal_strlit("job/");
        lemma_decimal_text(id);
        let path = job_path(id);
        assert(is_ascii_chars(path));
        is_ascii_chars_encode_utf8(path);
        lemma_url_octets(h.scheme, s.host, s.basepath, path);
    }
}

/// The words of a failure of the sink are short where the failure is no
/// protocol error and its words have nine octets less than the most that
/// can be stated.
pub proof fn lemma_failure_short(words: String)
    requires
        encode_utf8(words@).len() + 9 <= MAX_LENGTH,
    ensures
        failure_short(Err(ServiceError::Other(words))),
{
    reveal_strlit("Aborted: ");
    is_ascii_chars_encode_utf8("Aborted: "@);
    lemma_octets_of_joined("Aborted: "@, words@);
}

} // verus!
