//! Reads the wire form of a message: the header and the attribute groups,
//! up to the tag that ends the attributes and no further.
use crate::attribute::{
    with_attribute, AttributeView, GroupView, IppAttribute, IppAttributeGroup, IppAttributes,
};
use crate::model::{DelimiterTag, IppHeader, IppVersion};
use crate::request::{IppPayload, IppRequestResponse, MessageView};
use crate::value::{lemma_array_view, views_of, IppValue, IppValueView};
use crate::wire::{be_i32, be_u16, be_u32, octet_i8};
use vstd::prelude::*;
use vstd::utf8::*;

verus! {

/// The part of an attribute that is no UTF-8.
#[derive(Debug, Clone, Copy, PartialEq, Eq, Structural)]
pub enum Utf8Part {
    Name,
    Value,
}

/// Why octets are no message.
#[derive(Debug, Clone, Copy, PartialEq, Eq, Structural)]
pub enum IppParseError {
    /// The octets end before the eight octets of the header do.
    TruncatedHeader,
    /// The octets end where a group, an attribute or the end of the
    /// attributes should begin.
    MissingEndOfAttributes,
    /// The octets end within an attribute.
    UnexpectedEof,
    /// A tag below `0x10` that is no delimiter.
    BadDelimiter(u8),
    /// A value where none may stand: before the first group, or without a
    /// name and not after a value of the same attribute.
    BadValueTag(u8),
    /// A value whose length is not that of its type.
    LengthMismatch,
    /// A name or a text that is no UTF-8.
    Utf8(Utf8Part),
}

/// One value as it stands on the wire: its tag, the octets of its name and
/// of the value, and the place after it.
pub struct Tlv {
    pub tag: u8,
    pub name: Seq<u8>,
    pub data: Seq<u8>,
    pub next: int,
}

/// The value that stands at `pos`.
pub open spec fn read_tlv(b: Seq<u8>, pos: int) -> Result<Tlv, IppParseError> {
    if pos + 3 > b.len() {
        Err(IppParseError::UnexpectedEof)
    } else {
        let n = be_u16(b.subrange(pos + 1, pos + 3));
        if pos + 5 + n > b.len() {
            Err(IppParseError::UnexpectedEof)
        } else {
            let m = be_u16(b.subrange(pos + 3 + n, pos + 5 + n));
            if pos + 5 + n + m > b.len() {
                Err(IppParseError::UnexpectedEof)
            } else {
                Ok(
                    Tlv {
                        tag: b[pos],
                        name: b.subrange(pos + 3, pos + 3 + n),
                        data: b.subrange(pos + 5 + n, pos + 5 + n + m),
                        next: pos + 5 + n + m,
                    },
                )
            }
        }
    }
}

/// Whether `tag` announces a text of some kind.
pub open spec fn text_tag(tag: u8) -> bool {
    tag == 0x41 || tag == 0x42 || tag == 0x44 || tag == 0x45 || tag == 0x46 || tag == 0x47 || tag
        == 0x48 || tag == 0x49 || tag == 0x4a
}

/// The text `s` as the value that `tag` announces.
pub open spec fn text_value(tag: u8, s: Seq<char>) -> IppValueView {
    if tag == 0x41 {
        IppValueView::TextWithoutLanguage(s)
    } else if tag == 0x42 {
        IppValueView::NameWithoutLanguage(s)
    } else if tag == 0x44 {
        IppValueView::Keyword(s)
    } else if tag == 0x45 {
        IppValueView::Uri(s)
    } else if tag == 0x46 {
        IppValueView::UriScheme(s)
    } else if tag == 0x47 {
        IppValueView::Charset(s)
    } else if tag == 0x48 {
        IppValueView::NaturalLanguage(s)
    } else if tag == 0x49 {
        IppValueView::MimeMediaType(s)
    } else {
        IppValueView::MemberAttrName(s)
    }
}

/// The language and the text of a value with a language: each stands
/// after its length, and the two fill the value.
pub open spec fn read_with_language(d: Seq<u8>) -> Result<(Seq<char>, Seq<char>), IppParseError> {
    if d.len() < 2 {
        Err(IppParseError::LengthMismatch)
    } else {
        let n = be_u16(d.subrange(0, 2));
        if d.len() < 4 + n {
            Err(IppParseError::LengthMismatch)
        } else {
            let m = be_u16(d.subrange(2 + n, 4 + n));
            if d.len() != 4 + n + m {
                Err(IppParseError::LengthMismatch)
            } else if !valid_utf8(d.subrange(2, 2 + n)) || !valid_utf8(
                d.subrange(4 + n, 4 + n + m),
            ) {
                Err(IppParseError::Utf8(Utf8Part::Value))
            } else {
                Ok((decode_utf8(d.subrange(2, 2 + n)), decode_utf8(d.subrange(4 + n, 4 + n + m))))
            }
        }
    }
}

/// The value that the octets `d` are under the tag `tag`. A value of a
/// type of fixed length must have that length, and a text must be UTF-8.
/// The octets of a value of a type that the library does not know are kept
/// as they are.
pub open spec fn read_value(tag: u8, d: Seq<u8>) -> Result<IppValueView, IppParseError> {
    if tag == 0x13 {
        if d.len() == 0 {
            Ok(IppValueView::NoValue)
        } else {
            Err(IppParseError::LengthMismatch)
        }
    } else if tag == 0x21 || tag == 0x23 {
        if d.len() == 4 {
            Ok(
                if tag == 0x21 {
                    IppValueView::Integer(be_i32(d))
                } else {
                    IppValueView::Enum(be_i32(d))
                },
            )
        } else {
            Err(IppParseError::LengthMismatch)
        }
    } else if tag == 0x22 {
        if d.len() == 1 {
            Ok(IppValueView::Boolean(d[0] != 0))
        } else {
            Err(IppParseError::LengthMismatch)
        }
    } else if tag == 0x30 {
        Ok(IppValueView::OctetString(d))
    } else if tag == 0x31 {
        if d.len() == 11 {
            Ok(
                IppValueView::DateTime {
                    year: be_u16(d.subrange(0, 2)) as u16,
                    month: d[2],
                    day: d[3],
                    hour: d[4],
                    minutes: d[5],
                    seconds: d[6],
                    deci_seconds: d[7],
                    utc_dir: d[8],
                    utc_hours: d[9],
                    utc_mins: d[10],
                },
            )
        } else {
            Err(IppParseError::LengthMismatch)
        }
    } else if tag == 0x32 {
        if d.len() == 9 {
            Ok(
                IppValueView::Resolution {
                    cross_feed: be_i32(d.subrange(0, 4)),
                    feed: be_i32(d.subrange(4, 8)),
                    units: octet_i8(d[8]),
                },
            )
        } else {
            Err(IppParseError::LengthMismatch)
        }
    } else if tag == 0x33 {
        if d.len() == 8 {
            Ok(
                IppValueView::RangeOfInteger {
                    min: be_i32(d.subrange(0, 4)),
                    max: be_i32(d.subrange(4, 8)),
                },
            )
        } else {
            Err(IppParseError::LengthMismatch)
        }
    } else if tag == 0x35 || tag == 0x36 {
        match read_with_language(d) {
            Ok((language, text)) => Ok(
                if tag == 0x35 {
                    IppValueView::TextWithLanguage { language, text }
                } else {
                    IppValueView::NameWithLanguage { language, name: text }
                },
            ),
            Err(e) => Err(e),
        }
    } else if text_tag(tag) {
        if valid_utf8(d) {
            Ok(text_value(tag, decode_utf8(d)))
        } else {
            Err(IppParseError::Utf8(Utf8Part::Value))
        }
    } else {
        Ok(IppValueView::Other { tag, data: d })
    }
}

/// Whether another value of the same attribute stands at `pos`: a value
/// with an empty name.
pub open spec fn continues(b: Seq<u8>, pos: int) -> bool {
    &&& 0 <= pos
    &&& pos + 3 <= b.len()
    &&& b[pos] >= 0x10
    &&& be_u16(b.subrange(pos + 1, pos + 3)) == 0
}

/// The values of an attribute, given those before `pos`: `values` and the
/// values with an empty name that stand from `pos` on, and the place after them.
pub open spec fn read_more(b: Seq<u8>, pos: int, values: Seq<IppValueView>) -> Result<
    (Seq<IppValueView>, int),
    IppParseError,
>
    decreases b.len() - pos,
{
    if continues(b, pos) {
        match read_tlv(b, pos) {
            Ok(t) => match read_value(t.tag, t.data) {
                Ok(v) => read_more(b, t.next, values.push(v)),
                Err(e) => Err(e),
            },
            Err(e) => Err(e),
        }
    } else {
        Ok((values, pos))
    }
}

/// The value of an attribute with the values `values`: the one value, or
/// the array of them where they are several.
pub open spec fn joined(values: Seq<IppValueView>) -> IppValueView {
    if values.len() == 1 {
        values[0]
    } else {
        IppValueView::Array(values)
    }
}

/// The attribute that stands at `pos`, with all its values, and the place
/// after it. Its first value has a name, which must be UTF-8.
pub open spec fn read_attribute(b: Seq<u8>, pos: int) -> Result<(AttributeView, int), IppParseError> {
    match read_tlv(b, pos) {
        Ok(t) => if t.name.len() == 0 {
            Err(IppParseError::BadValueTag(t.tag))
        } else if !valid_utf8(t.name) {
            Err(IppParseError::Utf8(Utf8Part::Name))
        } else {
            match read_value(t.tag, t.data) {
                Ok(v) => match read_more(b, t.next, seq![v]) {
                    Ok((values, next)) => Ok(
                        (AttributeView { name: decode_utf8(t.name), value: joined(values) }, next),
                    ),
                    Err(e) => Err(e),
                },
                Err(e) => Err(e),
            }
        },
        Err(e) => Err(e),
    }
}

/// Reading more values goes forward, and not beyond the octets.
pub proof fn lemma_read_more_advances(b: Seq<u8>, pos: int, values: Seq<IppValueView>)
    requires
        0 <= pos <= b.len(),
    ensures
        read_more(b, pos, values) matches Ok((_, next)) ==> pos <= next <= b.len(),
    decreases b.len() - pos,
{
    if continues(b, pos) {
        match read_tlv(b, pos) {
            Ok(t) => match read_value(t.tag, t.data) {
                Ok(v) => {
                    lemma_read_more_advances(b, t.next, values.push(v));
                },
                Err(e) => {},
            },
            Err(e) => {},
        }
    }
}

/// Reading an attribute goes forward, and not beyond the octets.
pub proof fn lemma_read_attribute_advances(b: Seq<u8>, pos: int)
    requires
        0 <= pos <= b.len(),
    ensures
        read_attribute(b, pos) matches Ok((_, next)) ==> pos < next <= b.len(),
{
    match read_tlv(b, pos) {
        Ok(t) => {
            match read_value(t.tag, t.data) {
                Ok(v) => {
                    lemma_read_more_advances(b, t.next, seq![v]);
                },
                Err(e) => {},
            }
        },
        Err(e) => {},
    }
}

/// `groups` with `a` put into the last group.
pub open spec fn into_last(groups: Seq<GroupView>, a: AttributeView) -> Seq<GroupView> {
    groups.update(
        groups.len() - 1,
        GroupView {
            tag: groups.last().tag,
            attributes: with_attribute(groups.last().attributes, a),
        },
    )
}

/// Whether `tag` opens a group.
pub open spec fn opens_group(tag: u8) -> bool {
    tag == 0x01 || tag == 0x02 || tag == 0x04 || tag == 0x05
}

/// The groups of a message, given those before `pos`, and the place after
/// the tag that ends the attributes. A delimiter opens a new group; an
/// attribute goes into the group that was opened last, in the place of the
/// attribute of its name where the group has one.
pub open spec fn read_groups(b: Seq<u8>, pos: int, groups: Seq<GroupView>) -> Result<
    (Seq<GroupView>, int),
    IppParseError,
>
    decreases b.len() - pos,
{
    if pos < 0 || pos >= b.len() {
        Err(IppParseError::MissingEndOfAttributes)
    } else if b[pos] == 0x03 {
        Ok((groups, pos + 1))
    } else if opens_group(b[pos]) {
        read_groups(
            b,
            pos + 1,
            groups.push(
                GroupView { tag: DelimiterTag::of_code(b[pos]).unwrap(), attributes: Seq::empty() },
            ),
        )
    } else if b[pos] < 0x10 {
        Err(IppParseError::BadDelimiter(b[pos]))
    } else if groups.len() == 0 {
        Err(IppParseError::BadValueTag(b[pos]))
    } else {
        match read_attribute(b, pos) {
            Ok((a, next)) => {
                proof {
                    lemma_read_attribute_advances(b, pos);
                }
                read_groups(b, next, into_last(groups, a))
            },
            Err(e) => Err(e),
        }
    }
}

/// The header that the first eight octets are.
pub open spec fn read_header(b: Seq<u8>) -> IppHeader {
    IppHeader {
        version: IppVersion { major: b[0], minor: b[1] },
        operation_or_status: be_u16(b.subrange(2, 4)) as u16,
        request_id: be_u32(b.subrange(4, 8)) as u32,
    }
}

/// What was read of a message: its header, its groups, and the number of
/// octets that they took. The payload begins after these.
pub struct ReadMessage {
    pub header: IppHeader,
    pub attributes: Seq<GroupView>,
    pub consumed: int,
}

/// The message that the octets begin with.
pub open spec fn read_message(b: Seq<u8>) -> Result<ReadMessage, IppParseError> {
    if b.len() < 8 {
        Err(IppParseError::TruncatedHeader)
    } else {
        match read_groups(b, 8, Seq::empty()) {
            Ok((groups, next)) => Ok(
                ReadMessage { header: read_header(b), attributes: groups, consumed: next },
            ),
            Err(e) => Err(e),
        }
    }
}

/// std's `String::from_utf8`: the string that the octets are in UTF-8, or
/// none where they are no UTF-8.
#[verifier::external_body]
fn string_from_utf8(bytes: Vec<u8>) -> (r: Option<String>)
    ensures
        match r {
            Some(s) => valid_utf8(bytes@) && s@ == decode_utf8(bytes@),
            None => !valid_utf8(bytes@),
        },
{
    String::from_utf8(bytes).ok()
}

/// The octets of `b` from `from` up to `to`.
fn slice_vec(b: &[u8], from: usize, to: usize) -> (r: Vec<u8>)
    requires
        from <= to <= b@.len(),
    ensures
        r@ == b@.subrange(from as int, to as int),
{
    let mut out: Vec<u8> = Vec::new();
    let mut i: usize = from;
    while i < to
        invariant
            from <= i <= to <= b@.len(),
            out@ == b@.subrange(from as int, i as int),
        decreases to - i,
    {
        out.push(b[i]);
        assert(b@.subrange(from as int, i as int + 1) =~= b@.subrange(from as int, i as int).push(
            b@[i as int],
        ));
        i += 1;
    }
    out
}

/// The number that the two octets at `pos` stand for.
fn get_u16(b: &[u8], pos: usize) -> (r: u16)
    requires
        pos + 2 <= b@.len(),
    ensures
        r == be_u16(b@.subrange(pos as int, pos + 2)),
{
    (b[pos] as u16) * 256 + (b[pos + 1] as u16)
}

/// The number that the four octets at `pos` stand for.
fn get_u32(b: &[u8], pos: usize) -> (r: u32)
    requires
        pos + 4 <= b@.len(),
    ensures
        r == be_u32(b@.subrange(pos as int, pos + 4)),
{
    (b[pos] as u32) * 16777216 + (b[pos + 1] as u32) * 65536 + (b[pos + 2] as u32) * 256 + (b[pos
        + 3] as u32)
}

/// The signed number that the four octets at `pos` stand for.
fn get_i32(b: &[u8], pos: usize) -> (r: i32)
    requires
        pos + 4 <= b@.len(),
    ensures
        r == be_i32(b@.subrange(pos as int, pos + 4)),
{
    let u = get_u32(b, pos);
    if u >= 2147483648 {
        (u as i64 - 4294967296) as i32
    } else {
        u as i32
    }
}

/// Where a value stands: its tag, and the places of its name and of its octets.
struct Span {
    tag: u8,
    name_from: usize,
    name_to: usize,
    data_from: usize,
    data_to: usize,
}

/// Finds the value that stands at `pos`.
fn parse_tlv(b: &[u8], pos: usize) -> (r: Result<Span, IppParseError>)
    requires
        pos <= b@.len(),
    ensures
        match read_tlv(b@, pos as int) {
            Ok(t) => r is Ok && {
                let s = r->Ok_0;
                &&& s.tag == t.tag
                &&& pos < s.name_from <= s.name_to <= s.data_from <= s.data_to <= b@.len()
                &&& b@.subrange(s.name_from as int, s.name_to as int) == t.name
                &&& b@.subrange(s.data_from as int, s.data_to as int) == t.data
                &&& s.data_to == t.next
            },
            Err(e) => r == Err::<Span, IppParseError>(e),
        },
{
    let len = b.len();
    if len - pos < 3 {
        return Err(IppParseError::UnexpectedEof);
    }
    let n = get_u16(b, pos + 1) as usize;
    if len - (pos + 3) < n + 2 {
        return Err(IppParseError::UnexpectedEof);
    }
    let m = get_u16(b, pos + 3 + n) as usize;
    if len - (pos + 5 + n) < m {
        return Err(IppParseError::UnexpectedEof);
    }
    Ok(
        Span {
            tag: b[pos],
            name_from: pos + 3,
            name_to: pos + 3 + n,
            data_from: pos + 5 + n,
            data_to: pos + 5 + n + m,
        },
    )
}

/// The text `s` as the value that `tag` announces.
fn make_text(tag: u8, s: String) -> (r: IppValue)
    requires
        text_tag(tag),
    ensures
        r@ == text_value(tag, s@),
{
    if tag == 0x41 {
        IppValue::TextWithoutLanguage(s)
    } else if tag == 0x42 {
        IppValue::NameWithoutLanguage(s)
    } else if tag == 0x44 {
        IppValue::Keyword(s)
    } else if tag == 0x45 {
        IppValue::Uri(s)
    } else if tag == 0x46 {
        IppValue::UriScheme(s)
    } else if tag == 0x47 {
        IppValue::Charset(s)
    } else if tag == 0x48 {
        IppValue::NaturalLanguage(s)
    } else if tag == 0x49 {
        IppValue::MimeMediaType(s)
    } else {
        IppValue::MemberAttrName(s)
    }
}

/// The language and the text of a value with a language.
fn parse_with_language(d: &[u8]) -> (r: Result<(String, String), IppParseError>)
    ensures
        match read_with_language(d@) {
            Ok((language, text)) => r is Ok && r->Ok_0.0@ == language && r->Ok_0.1@ == text,
            Err(e) => r == Err::<(String, String), IppParseError>(e),
        },
{
    let len = d.len();
    if len < 2 {
        return Err(IppParseError::LengthMismatch);
    }
    let n = get_u16(d, 0) as usize;
    if len - 2 < n + 2 {
        return Err(IppParseError::LengthMismatch);
    }
    let m = get_u16(d, 2 + n) as usize;
    if len - (4 + n) != m {
        return Err(IppParseError::LengthMismatch);
    }
    let language = string_from_utf8(slice_vec(d, 2, 2 + n));
    let text = string_from_utf8(slice_vec(d, 4 + n, 4 + n + m));
    match language {
        Some(l) => match text {
            Some(t) => Ok((l, t)),
            None => Err(IppParseError::Utf8(Utf8Part::Value)),
        },
        None => Err(IppParseError::Utf8(Utf8Part::Value)),
    }
}

/// The value that the octets `d` are under the tag `tag`.
pub fn parse_value(tag: u8, d: &[u8]) -> (r: Result<IppValue, IppParseError>)
    ensures
        match read_value(tag, d@) {
            Ok(v) => r is Ok && r->Ok_0@ == v,
            Err(e) => r == Err::<IppValue, IppParseError>(e),
        },
{
    let len = d.len();
    if tag == 0x13 {
        if len == 0 {
            Ok(IppValue::NoValue)
        } else {
            Err(IppParseError::LengthMismatch)
        }
    } else if tag == 0x21 || tag == 0x23 {
        if len == 4 {
            assert(d@.subrange(0, 4) =~= d@);
            let v = get_i32(d, 0);
            if tag == 0x21 {
                Ok(IppValue::Integer(v))
            } else {
                Ok(IppValue::Enum(v))
            }
        } else {
            Err(IppParseError::LengthMismatch)
        }
    } else if tag == 0x22 {
        if len == 1 {
            Ok(IppValue::Boolean(d[0] != 0))
        } else {
            Err(IppParseError::LengthMismatch)
        }
    } else if tag == 0x30 {
        let data = slice_vec(d, 0, len);
        assert(d@.subrange(0, len as int) =~= d@);
        Ok(IppValue::OctetString(data))
    } else if tag == 0x31 {
        if len == 11 {
            Ok(
                IppValue::DateTime {
                    year: get_u16(d, 0),
                    month: d[2],
                    day: d[3],
                    hour: d[4],
                    minutes: d[5],
                    seconds: d[6],
                    deci_seconds: d[7],
                    utc_dir: d[8],
                    utc_hours: d[9],
                    utc_mins: d[10],
                },
            )
        } else {
            Err(IppParseError::LengthMismatch)
        }
    } else if tag == 0x32 {
        if len == 9 {
            let units: i8 = if d[8] >= 128 {
                (d[8] as i16 - 256) as i8
            } else {
                d[8] as i8
            };
            Ok(
                IppValue::Resolution {
                    cross_feed: get_i32(d, 0),
                    feed: get_i32(d, 4),
                    units,
                },
            )
        } else {
            Err(IppParseError::LengthMismatch)
        }
    } else if tag == 0x33 {
        if len == 8 {
            Ok(IppValue::RangeOfInteger { min: get_i32(d, 0), max: get_i32(d, 4) })
        } else {
            Err(IppParseError::LengthMismatch)
        }
    } else if tag == 0x35 || tag == 0x36 {
        match parse_with_language(d) {
            Ok((language, text)) => {
                if tag == 0x35 {
                    Ok(IppValue::TextWithLanguage { language, text })
                } else {
                    Ok(IppValue::NameWithLanguage { language, name: text })
                }
            },
            Err(e) => Err(e),
        }
    } else if tag == 0x41 || tag == 0x42 || tag == 0x44 || tag == 0x45 || tag == 0x46 || tag == 0x47
        || tag == 0x48 || tag == 0x49 || tag == 0x4a {
        let data = slice_vec(d, 0, len);
        assert(d@.subrange(0, len as int) =~= d@);
        match string_from_utf8(data) {
            Some(s) => Ok(make_text(tag, s)),
            None => Err(IppParseError::Utf8(Utf8Part::Value)),
        }
    } else {
        let data = slice_vec(d, 0, len);
        assert(d@.subrange(0, len as int) =~= d@);
        Ok(IppValue::Other { tag, data })
    }
}

/// The value that stands in `b` from `from` up to `to`, under the tag `tag`.
fn parse_value_at(tag: u8, b: &[u8], from: usize, to: usize) -> (r: Result<
    IppValue,
    IppParseError,
>)
    requires
        from <= to <= b@.len(),
    ensures
        match read_value(tag, b@.subrange(from as int, to as int)) {
            Ok(v) => r is Ok && r->Ok_0@ == v,
            Err(e) => r == Err::<IppValue, IppParseError>(e),
        },
{
    let d = slice_vec(b, from, to);
    parse_value(tag, d.as_slice())
}

/// Whether another value of the same attribute stands at `pos`.
fn has_more(b: &[u8], pos: usize) -> (r: bool)
    requires
        pos <= b@.len(),
    ensures
        r == continues(b@, pos as int),
{
    if b.len() - pos < 3 {
        false
    } else {
        b[pos] >= 0x10 && get_u16(b, pos + 1) == 0
    }
}

/// The attribute that stands at `pos`, with all its values, and the place after it.
fn parse_attribute(b: &[u8], pos: usize) -> (r: Result<(IppAttribute, usize), IppParseError>)
    requires
        pos <= b@.len(),
    ensures
        match read_attribute(b@, pos as int) {
            Ok((a, next)) => r is Ok && r->Ok_0.0@ == a && r->Ok_0.1 == next && pos < next
                <= b@.len(),
            Err(e) => r == Err::<(IppAttribute, usize), IppParseError>(e),
        },
{
    proof {
        lemma_read_attribute_advances(b@, pos as int);
    }
    let span = match parse_tlv(b, pos) {
        Ok(s) => s,
        Err(e) => {
            return Err(e);
        },
    };
    if span.name_to == span.name_from {
        return Err(IppParseError::BadValueTag(span.tag));
    }
    let name = match string_from_utf8(slice_vec(b, span.name_from, span.name_to)) {
        Some(s) => s,
        None => {
            return Err(IppParseError::Utf8(Utf8Part::Name));
        },
    };
    let first = match parse_value_at(span.tag, b, span.data_from, span.data_to) {
        Ok(v) => v,
        Err(e) => {
            return Err(e);
        },
    };
    let ghost start = span.data_to as int;
    let ghost v0 = first@;
    let mut values: Vec<IppValue> = Vec::new();
    values.push(first);
    let mut at: usize = span.data_to;
    let mut failed: Option<IppParseError> = None;
    assert(views_of(values@) =~= seq![v0]);
    while failed.is_none() && has_more(b, at)
        invariant
            at <= b@.len(),
            values@.len() >= 1,
            failed is None ==> read_more(b@, start, seq![v0]) == read_more(
                b@,
                at as int,
                views_of(values@),
            ),
            failed matches Some(e) ==> read_more(b@, start, seq![v0]) == Err::<
                (Seq<IppValueView>, int),
                IppParseError,
            >(e),
        decreases b@.len() - at + (if failed is None { 1int } else { 0int }),
    {
        match parse_tlv(b, at) {
            Ok(s) => match parse_value_at(s.tag, b, s.data_from, s.data_to) {
                Ok(v) => {
                    let ghost before = values@;
                    values.push(v);
                    assert(views_of(values@) =~= views_of(before).push(v@));
                    at = s.data_to;
                },
                Err(e) => {
                    failed = Some(e);
                },
            },
            Err(e) => {
                failed = Some(e);
            },
        }
    }
    match failed {
        Some(e) => Err(e),
        None => {
            let ghost all = views_of(values@);
            let value = if values.len() == 1 {
                let v = values.pop().unwrap();
                assert(all[0] == v@);
                v
            } else {
                proof {
                    lemma_array_view(values);
                }
                IppValue::Array(values)
            };
            Ok((IppAttribute::new(name.as_str(), value), at))
        },
    }
}

/// Reading groups goes forward, and not beyond the octets.
pub proof fn lemma_read_groups_within(b: Seq<u8>, pos: int, groups: Seq<GroupView>)
    requires
        0 <= pos <= b.len(),
    ensures
        read_groups(b, pos, groups) matches Ok((_, next)) ==> pos < next <= b.len(),
    decreases b.len() - pos,
{
    if pos < b.len() {
        if b[pos] == 0x03 {
        } else if opens_group(b[pos]) {
            lemma_read_groups_within(
                b,
                pos + 1,
                groups.push(
                    GroupView {
                        tag: DelimiterTag::of_code(b[pos]).unwrap(),
                        attributes: Seq::empty(),
                    },
                ),
            );
        } else if b[pos] < 0x10 {
        } else if groups.len() == 0 {
        } else {
            lemma_read_attribute_advances(b, pos);
            match read_attribute(b, pos) {
                Ok((a, next)) => {
                    lemma_read_groups_within(b, next, into_last(groups, a));
                },
                Err(e) => {},
            }
        }
    }
}

/// A message takes more than its header, and no more than there is.
pub proof fn lemma_read_message_within(b: Seq<u8>)
    ensures
        read_message(b) matches Ok(m) ==> 8 < m.consumed <= b.len(),
{
    if b.len() >= 8 {
        lemma_read_groups_within(b, 8, Seq::empty());
    }
}

/// What was parsed of a message: its header, its groups, and the number
/// of octets that they took. The payload begins after these.
#[derive(Debug, PartialEq, Eq)]
pub struct ParsedMessage {
    pub header: IppHeader,
    pub attributes: IppAttributes,
    pub consumed: usize,
}

impl View for ParsedMessage {
    type V = ReadMessage;

    open spec fn view(&self) -> ReadMessage {
        ReadMessage {
            header: self.header,
            attributes: self.attributes@,
            consumed: self.consumed as int,
        }
    }
}

impl ParsedMessage {
    /// The request or response that was parsed, with `payload` as its payload.
    pub fn into_message<P>(self, payload: IppPayload<P>) -> (r: IppRequestResponse<P>)
        ensures
            r@ == (MessageView { header: self.header, attributes: self.attributes@, payload }),
    {
        IppRequestResponse { header: self.header, attributes: self.attributes, payload }
    }
}

/// The groups read so far: those that are closed, and the one that is open.
pub open spec fn so_far(done: Seq<GroupView>, open: Option<GroupView>) -> Seq<GroupView> {
    match open {
        Some(g) => done.push(g),
        None => done,
    }
}

/// The view of a group that may not be there.
pub open spec fn open_view(open: Option<IppAttributeGroup>) -> Option<GroupView> {
    match open {
        Some(g) => Some(g@),
        None => None,
    }
}

/// Reads the message that `b` begins with: the header and the attribute
/// groups, up to the tag that ends the attributes. What follows that tag is
/// the payload, of which nothing is read.
///
/// The octets are no message where they end too early: before the end of
/// the header (`TruncatedHeader`), within an attribute (`UnexpectedEof`), or
/// before the end of the attributes (`MissingEndOfAttributes`). Nor are they
/// where a tag below `0x10` is no delimiter (`BadDelimiter`), where a value
/// stands before the first group or without a name at the start of an
/// attribute (`BadValueTag`), where a value has not the length of its type
/// (`LengthMismatch`), or where a name or a text is no UTF-8 (`Utf8`).
pub fn parse_message(b: &[u8]) -> (r: Result<ParsedMessage, IppParseError>)
    ensures
        match read_message(b@) {
            Ok(m) => r is Ok && r->Ok_0@ == m && 8 < m.consumed <= b@.len(),
            Err(e) => r == Err::<ParsedMessage, IppParseError>(e),
        },
{
    let len = b.len();
    if len < 8 {
        return Err(IppParseError::TruncatedHeader);
    }
    let header = IppHeader {
        version: IppVersion { major: b[0], minor: b[1] },
        operation_or_status: get_u16(b, 2),
        request_id: get_u32(b, 4),
    };
    let mut attributes = IppAttributes::new();
    let mut open: Option<IppAttributeGroup> = None;
    let mut pos: usize = 8;
    while pos < len
        invariant
            8 <= pos <= len,
            len == b@.len(),
            header == read_header(b@),
            open is None ==> attributes@.len() == 0,
            read_groups(b@, 8, Seq::empty()) == read_groups(
                b@,
                pos as int,
                so_far(attributes@, open_view(open)),
            ),
        decreases len - pos,
    {
        let tag = b[pos];
        if tag == 0x03 {
            match open {
                Some(g) => {
                    attributes.push_group(g);
                },
                None => {},
            }
            return Ok(ParsedMessage { header, attributes, consumed: pos + 1 });
        } else if tag == 0x01 || tag == 0x02 || tag == 0x04 || tag == 0x05 {
            match open {
                Some(g) => {
                    attributes.push_group(g);
                },
                None => {},
            }
            open = Some(IppAttributeGroup::new(DelimiterTag::from_u8(tag).unwrap()));
            pos += 1;
        } else if tag < 0x10 {
            return Err(IppParseError::BadDelimiter(tag));
        } else {
            let mut group = match open {
                Some(g) => g,
                None => {
                    return Err(IppParseError::BadValueTag(tag));
                },
            };
            let ghost before = so_far(attributes@, Some(group@));
            match parse_attribute(b, pos) {
                Ok((a, next)) => {
                    group.insert(a);
                    assert(so_far(attributes@, Some(group@)) =~= into_last(before, a@));
                    open = Some(group);
                    pos = next;
                },
                Err(e) => {
                    return Err(e);
                },
            }
        }
    }
    Err(IppParseError::MissingEndOfAttributes)
}

impl IppParseError {
    /// Whether the error says that the octets end too early: more octets
    /// might make a message of them.
    pub open spec fn incomplete(self) -> bool {
        self == IppParseError::TruncatedHeader || self == IppParseError::UnexpectedEof || self
            == IppParseError::MissingEndOfAttributes
    }

    /// The words that report the error.
    pub open spec fn text(self) -> Seq<char> {
        match self {
            IppParseError::TruncatedHeader => "truncated header"@,
            IppParseError::MissingEndOfAttributes => "missing end of attributes"@,
            IppParseError::UnexpectedEof => "unexpected end of input"@,
            IppParseError::BadDelimiter(_) => "bad delimiter tag"@,
            IppParseError::BadValueTag(_) => "bad value tag"@,
            IppParseError::LengthMismatch => "length mismatch"@,
            IppParseError::Utf8(Utf8Part::Name) => "attribute name is not UTF-8"@,
            IppParseError::Utf8(Utf8Part::Value) => "attribute value is not UTF-8"@,
        }
    }

    /// Whether the error says that the octets end too early.
    pub fn is_incomplete(self) -> (r: bool)
        ensures
            r == self.incomplete(),
    {
        match self {
            IppParseError::TruncatedHeader => true,
            IppParseError::UnexpectedEof => true,
            IppParseError::MissingEndOfAttributes => true,
            _ => false,
        }
    }

    /// The words that report the error.
    pub fn to_text(self) -> (r: String)
        ensures
            r@ == self.text(),
    {
        match self {
            IppParseError::TruncatedHeader => "truncated header".to_owned(),
            IppParseError::MissingEndOfAttributes => "missing end of attributes".to_owned(),
            IppParseError::UnexpectedEof => "unexpected end of input".to_owned(),
            IppParseError::BadDelimiter(_) => "bad delimiter tag".to_owned(),
            IppParseError::BadValueTag(_) => "bad value tag".to_owned(),
            IppParseError::LengthMismatch => "length mismatch".to_owned(),
            IppParseError::Utf8(Utf8Part::Name) => "attribute name is not UTF-8".to_owned(),
            IppParseError::Utf8(Utf8Part::Value) => "attribute value is not UTF-8".to_owned(),
        }
    }
}

/// What a parser says after it was fed.
#[derive(Debug, PartialEq, Eq)]
pub enum ParseStep {
    /// The octets so far end too early: more are needed.
    More,
    /// The message, and the octets that were fed beyond it: the start of the payload.
    Done { message: ParsedMessage, rest: Vec<u8> },
    /// The octets are no message.
    Failed(IppParseError),
}

/// Parses a message from a body that comes in chunks. It keeps what it was
/// fed until that makes a message, and then hands back what it was fed
/// beyond the message, so that no octet of the payload is lost.
pub struct StreamParser {
    buffer: Vec<u8>,
}

impl View for StreamParser {
    type V = Seq<u8>;

    closed spec fn view(&self) -> Seq<u8> {
        self.buffer@
    }
}

/// What the parser says of the octets `b` that it was fed so far.
pub open spec fn step_for(b: Seq<u8>) -> Result<Option<(ReadMessage, Seq<u8>)>, IppParseError> {
    match read_message(b) {
        Ok(m) => Ok(Some((m, b.skip(m.consumed)))),
        Err(e) => if e.incomplete() {
            Ok(None)
        } else {
            Err(e)
        },
    }
}

impl StreamParser {
    /// A parser that was fed nothing yet.
    pub fn new() -> (r: Self)
        ensures
            r@ == Seq::<u8>::empty(),
    {
        StreamParser { buffer: Vec::new() }
    }

    /// The id of the request that the octets so far begin with, where
    /// they hold the whole header.
    pub fn request_id(&self) -> (r: Option<u32>)
        ensures
            r == if self@.len() >= 8 {
                Some(read_header(self@).request_id)
            } else {
                None
            },
    {
        if self.buffer.len() >= 8 {
            Some(get_u32(self.buffer.as_slice(), 4))
        } else {
            None
        }
    }

    /// Feeds the parser the next chunk of the body. The parser says what
    /// the octets that it was fed so far are: a message, with the octets
    /// beyond it; no message; or too few to tell. It keeps the octets
    /// unless they made a message.
    pub fn feed(&mut self, chunk: &[u8]) -> (r: ParseStep)
        ensures
            match step_for(old(self)@ + chunk@) {
                Ok(Some((m, rest))) => r matches ParseStep::Done { message, rest: left }
                    && message@ == m && left@ == rest && final(self)@ == Seq::<u8>::empty(),
                Ok(None) => r == ParseStep::More && final(self)@ == old(self)@ + chunk@,
                Err(e) => r == ParseStep::Failed(e) && final(self)@ == old(self)@ + chunk@,
            },
    {
        crate::wire::push_all(&mut self.buffer, chunk);
        match parse_message(self.buffer.as_slice()) {
            Ok(message) => {
                let rest = slice_vec(self.buffer.as_slice(), message.consumed, self.buffer.len());
                assert(self.buffer@.skip(message.consumed as int) =~= self.buffer@.subrange(
                    message.consumed as int,
                    self.buffer@.len() as int,
                ));
                self.buffer = Vec::new();
                ParseStep::Done { message, rest }
            },
            Err(e) => {
                if e.is_incomplete() {
                    ParseStep::More
                } else {
                    ParseStep::Failed(e)
                }
            },
        }
    }

    /// The body has ended before the octets that the parser was fed made a
    /// message: the error that says where they end too early.
    pub fn finish(self) -> (r: IppParseError)
        ensures
            match read_message(self@) {
                Ok(_) => r == IppParseError::MissingEndOfAttributes,
                Err(e) => r == e,
            },
    {
        match parse_message(self.buffer.as_slice()) {
            Ok(_) => IppParseError::MissingEndOfAttributes,
            Err(e) => e,
        }
    }
}

} // verus!
