//! The wire form of messages: how a header, the attribute groups and their
//! values are written as octets.
use crate::attribute::{AttributeView, GroupView, IppAttribute, IppAttributeGroup, IppAttributes};
use crate::model::{DelimiterTag, IppHeader};
use crate::request::IppRequestResponse;
use crate::value::{lemma_array_view, views_of, IppValue, IppValueView};
use vstd::prelude::*;
use vstd::string::*;
use vstd::utf8::*;

verus! {

/// The largest length that the wire form can state: lengths take two octets.
pub const MAX_LENGTH: usize = 65535;

/// The two octets of `n`, the high one first.
pub open spec fn u16_be(n: int) -> Seq<u8> {
    seq![(n / 256) as u8, (n % 256) as u8]
}

/// The number that two octets stand for, the high one first.
pub open spec fn be_u16(b: Seq<u8>) -> int {
    b[0] as int * 256 + b[1] as int
}

/// The four octets of `n`, the highest first.
pub open spec fn u32_be(n: int) -> Seq<u8> {
    seq![
        (n / 16777216) as u8,
        ((n / 65536) % 256) as u8,
        ((n / 256) % 256) as u8,
        (n % 256) as u8,
    ]
}

/// The number that four octets stand for, the highest first.
pub open spec fn be_u32(b: Seq<u8>) -> int {
    b[0] as int * 16777216 + b[1] as int * 65536 + b[2] as int * 256 + b[3] as int
}

/// The four octets of `v` in two's complement, the highest first.
pub open spec fn i32_be(v: i32) -> Seq<u8> {
    u32_be(
        if v >= 0 {
            v as int
        } else {
            v as int + 4294967296
        },
    )
}

/// The signed number that four octets stand for in two's complement.
pub open spec fn be_i32(b: Seq<u8>) -> i32 {
    let u = be_u32(b);
    if u >= 2147483648 {
        (u - 4294967296) as i32
    } else {
        u as i32
    }
}

/// The octet of `v` in two's complement.
pub open spec fn i8_octet(v: i8) -> u8 {
    if v >= 0 {
        v as u8
    } else {
        (v as int + 256) as u8
    }
}

/// The signed number that an octet stands for in two's complement.
pub open spec fn octet_i8(b: u8) -> i8 {
    if b >= 128 {
        (b as int - 256) as i8
    } else {
        b as i8
    }
}

/// The tag that announces a value on the wire. An array has none of its
/// own: each of its members is announced by itself.
pub open spec fn value_tag(v: IppValueView) -> u8 {
    match v {
        IppValueView::NoValue => 0x13,
        IppValueView::Integer(_) => 0x21,
        IppValueView::Boolean(_) => 0x22,
        IppValueView::Enum(_) => 0x23,
        IppValueView::OctetString(_) => 0x30,
        IppValueView::DateTime { .. } => 0x31,
        IppValueView::Resolution { .. } => 0x32,
        IppValueView::RangeOfInteger { .. } => 0x33,
        IppValueView::TextWithLanguage { .. } => 0x35,
        IppValueView::NameWithLanguage { .. } => 0x36,
        IppValueView::TextWithoutLanguage(_) => 0x41,
        IppValueView::NameWithoutLanguage(_) => 0x42,
        IppValueView::Keyword(_) => 0x44,
        IppValueView::Uri(_) => 0x45,
        IppValueView::UriScheme(_) => 0x46,
        IppValueView::Charset(_) => 0x47,
        IppValueView::NaturalLanguage(_) => 0x48,
        IppValueView::MimeMediaType(_) => 0x49,
        IppValueView::MemberAttrName(_) => 0x4a,
        IppValueView::Other { tag, .. } => tag,
        IppValueView::Array(_) => 0x12,
    }
}

/// Whether `tag` announces a value of a type that the library knows.
pub open spec fn typed_tag(tag: u8) -> bool {
    tag == 0x13 || tag == 0x21 || tag == 0x22 || tag == 0x23 || tag == 0x30 || tag == 0x31 || tag
        == 0x32 || tag == 0x33 || tag == 0x35 || tag == 0x36 || tag == 0x41 || tag == 0x42 || tag
        == 0x44 || tag == 0x45 || tag == 0x46 || tag == 0x47 || tag == 0x48 || tag == 0x49 || tag
        == 0x4a
}

/// A text with its language: each with its length before it.
pub open spec fn with_language(language: Seq<char>, text: Seq<char>) -> Seq<u8> {
    u16_be(encode_utf8(language).len() as int) + encode_utf8(language) + u16_be(
        encode_utf8(text).len() as int,
    ) + encode_utf8(text)
}

/// The octets of a value on the wire, without its tag and its length. An
/// array has none of its own.
pub open spec fn value_data(v: IppValueView) -> Seq<u8> {
    match v {
        IppValueView::NoValue => Seq::empty(),
        IppValueView::Integer(i) => i32_be(i),
        IppValueView::Boolean(b) => seq![
            if b {
                1u8
            } else {
                0u8
            },
        ],
        IppValueView::Enum(i) => i32_be(i),
        IppValueView::OctetString(d) => d,
        IppValueView::DateTime {
            year,
            month,
            day,
            hour,
            minutes,
            seconds,
            deci_seconds,
            utc_dir,
            utc_hours,
            utc_mins,
        } => u16_be(year as int) + seq![
            month,
            day,
            hour,
            minutes,
            seconds,
            deci_seconds,
            utc_dir,
            utc_hours,
            utc_mins,
        ],
        IppValueView::Resolution { cross_feed, feed, units } => i32_be(cross_feed) + i32_be(feed)
            + seq![i8_octet(units)],
        IppValueView::RangeOfInteger { min, max } => i32_be(min) + i32_be(max),
        IppValueView::TextWithLanguage { language, text } => with_language(language, text),
        IppValueView::NameWithLanguage { language, name } => with_language(language, name),
        IppValueView::TextWithoutLanguage(s) => encode_utf8(s),
        IppValueView::NameWithoutLanguage(s) => encode_utf8(s),
        IppValueView::Keyword(s) => encode_utf8(s),
        IppValueView::Uri(s) => encode_utf8(s),
        IppValueView::UriScheme(s) => encode_utf8(s),
        IppValueView::Charset(s) => encode_utf8(s),
        IppValueView::NaturalLanguage(s) => encode_utf8(s),
        IppValueView::MimeMediaType(s) => encode_utf8(s),
        IppValueView::MemberAttrName(s) => encode_utf8(s),
        IppValueView::Other { data, .. } => data,
        IppValueView::Array(_) => Seq::empty(),
    }
}

/// Whether a value can be written as one value on the wire: it is no
/// array, its octets are few enough for their length to be stated, and
/// where its type is one that the library does not know, its tag is a value
/// tag and not that of a type that the library does know.
pub open spec fn single_ok(v: IppValueView) -> bool {
    &&& !(v is Array)
    &&& value_data(v).len() <= MAX_LENGTH
    &&& (v matches IppValueView::Other { tag, .. } ==> tag >= 0x10 && !typed_tag(tag))
}

/// The values that a value is written as, one after the other: the value
/// itself, or the members of an array. An attribute has at least one value
/// on the wire, so an array without members is written as the one value
/// `no-value`.
pub open spec fn members(v: IppValueView) -> Seq<IppValueView> {
    match v {
        IppValueView::Array(items) => if items.len() == 0 {
            seq![IppValueView::NoValue]
        } else {
            items
        },
        _ => seq![v],
    }
}

/// Whether a value can be written on the wire: each of the values that it
/// is written as can. An array may have any number of members, but no array
/// among them.
pub open spec fn value_ok(v: IppValueView) -> bool {
    forall|i: int| 0 <= i < members(v).len() ==> single_ok(#[trigger] members(v)[i])
}

/// Whether a name can be written on the wire: it is not empty, and its
/// octets are few enough for their length to be stated.
pub open spec fn name_ok(name: Seq<char>) -> bool {
    1 <= encode_utf8(name).len() <= MAX_LENGTH
}

/// Whether an attribute can be written on the wire.
pub open spec fn attribute_ok(a: AttributeView) -> bool {
    name_ok(a.name) && value_ok(a.value)
}

/// Whether a group can be written on the wire: its tag opens a group, and
/// each of its attributes can be written.
pub open spec fn group_ok(g: GroupView) -> bool {
    &&& g.tag != DelimiterTag::EndOfAttributes
    &&& forall|i: int| 0 <= i < g.attributes.len() ==> attribute_ok(#[trigger] g.attributes[i])
}

/// Whether the groups can be written on the wire.
pub open spec fn encodable(groups: Seq<GroupView>) -> bool {
    forall|i: int| 0 <= i < groups.len() ==> group_ok(#[trigger] groups[i])
}

/// One value on the wire: its tag, the length of its name and the name,
/// the length of its octets and the octets.
pub open spec fn tlv(tag: u8, name: Seq<u8>, data: Seq<u8>) -> Seq<u8> {
    seq![tag] + u16_be(name.len() as int) + name + u16_be(data.len() as int) + data
}

/// The values of an attribute after the first: each with an empty name.
pub open spec fn additional_wire(items: Seq<IppValueView>) -> Seq<u8>
    decreases items.len(),
{
    if items.len() == 0 {
        Seq::empty()
    } else {
        tlv(value_tag(items[0]), Seq::empty(), value_data(items[0])) + additional_wire(
            items.drop_first(),
        )
    }
}

/// An attribute on the wire: its first value under its name, then the others.
pub open spec fn attribute_wire(a: AttributeView) -> Seq<u8> {
    tlv(value_tag(members(a.value)[0]), encode_utf8(a.name), value_data(members(a.value)[0]))
        + additional_wire(members(a.value).drop_first())
}

/// Attributes on the wire, one after the other.
pub open spec fn attributes_wire(attrs: Seq<AttributeView>) -> Seq<u8>
    decreases attrs.len(),
{
    if attrs.len() == 0 {
        Seq::empty()
    } else {
        attribute_wire(attrs[0]) + attributes_wire(attrs.drop_first())
    }
}

/// A group on the wire: its tag, then its attributes.
pub open spec fn group_wire(g: GroupView) -> Seq<u8> {
    seq![g.tag.code()] + attributes_wire(g.attributes)
}

/// Groups on the wire, one after the other.
pub open spec fn groups_wire(groups: Seq<GroupView>) -> Seq<u8>
    decreases groups.len(),
{
    if groups.len() == 0 {
        Seq::empty()
    } else {
        group_wire(groups[0]) + groups_wire(groups.drop_first())
    }
}

/// A header on the wire: the version, the operation or status, and the
/// id of the request, in eight octets.
pub open spec fn header_wire(h: IppHeader) -> Seq<u8> {
    seq![h.version.major, h.version.minor] + u16_be(h.operation_or_status as int) + u32_be(
        h.request_id as int,
    )
}

/// A message on the wire, without its payload: the header, the groups, and
/// the tag that ends the attributes.
pub open spec fn message_wire(h: IppHeader, groups: Seq<GroupView>) -> Seq<u8> {
    header_wire(h) + groups_wire(groups) + seq![DelimiterTag::EndOfAttributes.code()]
}

/// Additional values on the wire: those before the last, then the last.
pub proof fn lemma_additional_push(items: Seq<IppValueView>, v: IppValueView)
    ensures
        additional_wire(items.push(v)) == additional_wire(items) + tlv(
            value_tag(v),
            Seq::empty(),
            value_data(v),
        ),
    decreases items.len(),
{
    if items.len() == 0 {
        assert(items.push(v).drop_first() =~= Seq::<IppValueView>::empty());
        assert(additional_wire(Seq::<IppValueView>::empty()) =~= Seq::<u8>::empty());
        assert(items =~= Seq::<IppValueView>::empty());
        assert(additional_wire(items.push(v)) =~= additional_wire(items) + tlv(
            value_tag(v),
            Seq::empty(),
            value_data(v),
        ));
    } else {
        assert(items.push(v).drop_first() =~= items.drop_first().push(v));
        lemma_additional_push(items.drop_first(), v);
        assert(additional_wire(items.push(v)) =~= additional_wire(items) + tlv(
            value_tag(v),
            Seq::empty(),
            value_data(v),
        ));
    }
}

/// Attributes on the wire: those before the last, then the last.
pub proof fn lemma_attributes_push(attrs: Seq<AttributeView>, a: AttributeView)
    ensures
        attributes_wire(attrs.push(a)) == attributes_wire(attrs) + attribute_wire(a),
    decreases attrs.len(),
{
    if attrs.len() == 0 {
        assert(attrs.push(a).drop_first() =~= Seq::<AttributeView>::empty());
        assert(attributes_wire(Seq::<AttributeView>::empty()) =~= Seq::<u8>::empty());
        assert(attrs =~= Seq::<AttributeView>::empty());
        assert(attributes_wire(attrs.push(a)) =~= attributes_wire(attrs) + attribute_wire(a));
    } else {
        assert(attrs.push(a).drop_first() =~= attrs.drop_first().push(a));
        lemma_attributes_push(attrs.drop_first(), a);
        assert(attributes_wire(attrs.push(a)) =~= attributes_wire(attrs) + attribute_wire(a));
    }
}

/// Groups on the wire: those before the last, then the last.
pub proof fn lemma_groups_push(groups: Seq<GroupView>, g: GroupView)
    ensures
        groups_wire(groups.push(g)) == groups_wire(groups) + group_wire(g),
    decreases groups.len(),
{
    if groups.len() == 0 {
        assert(groups.push(g).drop_first() =~= Seq::<GroupView>::empty());
        assert(groups_wire(Seq::<GroupView>::empty()) =~= Seq::<u8>::empty());
        assert(groups =~= Seq::<GroupView>::empty());
        assert(groups_wire(groups.push(g)) =~= groups_wire(groups) + group_wire(g));
    } else {
        assert(groups.push(g).drop_first() =~= groups.drop_first().push(g));
        lemma_groups_push(groups.drop_first(), g);
        assert(groups_wire(groups.push(g)) =~= groups_wire(groups) + group_wire(g));
    }
}

/// Adds the two octets of `n` to `out`.
pub fn push_u16(out: &mut Vec<u8>, n: u16)
    ensures
        final(out)@ == old(out)@ + u16_be(n as int),
{
    out.push((n / 256) as u8);
    out.push((n % 256) as u8);
    assert(out@ =~= old(out)@ + u16_be(n as int));
}

/// Adds the four octets of `n` to `out`.
pub fn push_u32(out: &mut Vec<u8>, n: u32)
    ensures
        final(out)@ == old(out)@ + u32_be(n as int),
{
    out.push((n / 16777216) as u8);
    out.push(((n / 65536) % 256) as u8);
    out.push(((n / 256) % 256) as u8);
    out.push((n % 256) as u8);
    assert(out@ =~= old(out)@ + u32_be(n as int));
}

/// Adds the four octets of `v`, in two's complement, to `out`.
pub fn push_i32(out: &mut Vec<u8>, v: i32)
    ensures
        final(out)@ == old(out)@ + i32_be(v),
{
    let n: u32 = if v >= 0 {
        v as u32
    } else {
        (v as i64 + 4294967296) as u32
    };
    push_u32(out, n);
}

/// Adds the octets of `data` to `out`.
pub fn push_all(out: &mut Vec<u8>, data: &[u8])
    ensures
        final(out)@ == old(out)@ + data@,
{
    let mut i: usize = 0;
    while i < data.len()
        invariant
            i <= data.len(),
            out@ == old(out)@ + data@.take(i as int),
        decreases data.len() - i,
    {
        out.push(data[i]);
        assert(data@.take(i as int + 1) =~= data@.take(i as int).push(data@[i as int]));
        assert(out@ =~= old(out)@ + data@.take(i as int + 1));
        i += 1;
    }
    assert(data@.take(data.len() as int) =~= data@);
}

/// The tag that announces `v` on the wire.
pub fn tag_of(v: &IppValue) -> (r: u8)
    ensures
        r == value_tag(v@),
{
    match v {
        IppValue::NoValue => 0x13,
        IppValue::Integer(_) => 0x21,
        IppValue::Boolean(_) => 0x22,
        IppValue::Enum(_) => 0x23,
        IppValue::OctetString(_) => 0x30,
        IppValue::DateTime { .. } => 0x31,
        IppValue::Resolution { .. } => 0x32,
        IppValue::RangeOfInteger { .. } => 0x33,
        IppValue::TextWithLanguage { .. } => 0x35,
        IppValue::NameWithLanguage { .. } => 0x36,
        IppValue::TextWithoutLanguage(_) => 0x41,
        IppValue::NameWithoutLanguage(_) => 0x42,
        IppValue::Keyword(_) => 0x44,
        IppValue::Uri(_) => 0x45,
        IppValue::UriScheme(_) => 0x46,
        IppValue::Charset(_) => 0x47,
        IppValue::NaturalLanguage(_) => 0x48,
        IppValue::MimeMediaType(_) => 0x49,
        IppValue::MemberAttrName(_) => 0x4a,
        IppValue::Other { tag, .. } => *tag,
        IppValue::Array(_) => 0x12,
    }
}

/// Whether `tag` announces a value of a type that the library knows.
pub fn is_typed_tag(tag: u8) -> (r: bool)
    ensures
        r == typed_tag(tag),
{
    tag == 0x13 || tag == 0x21 || tag == 0x22 || tag == 0x23 || tag == 0x30 || tag == 0x31 || tag
        == 0x32 || tag == 0x33 || tag == 0x35 || tag == 0x36 || tag == 0x41 || tag == 0x42 || tag
        == 0x44 || tag == 0x45 || tag == 0x46 || tag == 0x47 || tag == 0x48 || tag == 0x49 || tag
        == 0x4a
}

/// A text with its language, each with its length before it; none where
/// one of the two is too long for its length to be stated.
fn language_data(language: &String, text: &String) -> (r: Option<Vec<u8>>)
    ensures
        match r {
            Some(d) => d@ == with_language(language@, text@) && encode_utf8(language@).len()
                <= MAX_LENGTH && encode_utf8(text@).len() <= MAX_LENGTH,
            None => with_language(language@, text@).len() > MAX_LENGTH,
        },
{
    let l = language.as_str().as_bytes();
    let t = text.as_str().as_bytes();
    if l.len() > MAX_LENGTH || t.len() > MAX_LENGTH {
        return None;
    }
    let mut out: Vec<u8> = Vec::new();
    push_u16(&mut out, l.len() as u16);
    push_all(&mut out, l);
    push_u16(&mut out, t.len() as u16);
    push_all(&mut out, t);
    assert(out@ =~= with_language(language@, text@));
    Some(out)
}

/// The octets of the string `s`.
fn text_data(s: &String) -> (r: Vec<u8>)
    ensures
        r@ == encode_utf8(s@),
{
    let mut out: Vec<u8> = Vec::new();
    push_all(&mut out, s.as_str().as_bytes());
    assert(out@ =~= encode_utf8(s@));
    out
}

/// The octets of `v` on the wire, without its tag and its length.
fn data_of(v: &IppValue) -> (r: Vec<u8>)
    requires
        !(v@ is TextWithLanguage),
        !(v@ is NameWithLanguage),
    ensures
        r@ == value_data(v@),
{
    let mut out: Vec<u8> = Vec::new();
    match v {
        IppValue::NoValue => {},
        IppValue::Integer(i) => {
            push_i32(&mut out, *i);
        },
        IppValue::Boolean(b) => {
            out.push(
                if *b {
                    1u8
                } else {
                    0u8
                },
            );
        },
        IppValue::Enum(i) => {
            push_i32(&mut out, *i);
        },
        IppValue::OctetString(d) => {
            push_all(&mut out, d.as_slice());
        },
        IppValue::DateTime {
            year,
            month,
            day,
            hour,
            minutes,
            seconds,
            deci_seconds,
            utc_dir,
            utc_hours,
            utc_mins,
        } => {
            push_u16(&mut out, *year);
            out.push(*month);
            out.push(*day);
            out.push(*hour);
            out.push(*minutes);
            out.push(*seconds);
            out.push(*deci_seconds);
            out.push(*utc_dir);
            out.push(*utc_hours);
            out.push(*utc_mins);
        },
        IppValue::Resolution { cross_feed, feed, units } => {
            push_i32(&mut out, *cross_feed);
            push_i32(&mut out, *feed);
            out.push(
                if *units >= 0 {
                    *units as u8
                } else {
                    (*units as i16 + 256) as u8
                },
            );
        },
        IppValue::RangeOfInteger { min, max } => {
            push_i32(&mut out, *min);
            push_i32(&mut out, *max);
        },
        IppValue::TextWithLanguage { .. } => {},
        IppValue::NameWithLanguage { .. } => {},
        IppValue::TextWithoutLanguage(s) => {
            return text_data(s);
        },
        IppValue::NameWithoutLanguage(s) => {
            return text_data(s);
        },
        IppValue::Keyword(s) => {
            return text_data(s);
        },
        IppValue::Uri(s) => {
            return text_data(s);
        },
        IppValue::UriScheme(s) => {
            return text_data(s);
        },
        IppValue::Charset(s) => {
            return text_data(s);
        },
        IppValue::NaturalLanguage(s) => {
            return text_data(s);
        },
        IppValue::MimeMediaType(s) => {
            return text_data(s);
        },
        IppValue::MemberAttrName(s) => {
            return text_data(s);
        },
        IppValue::Other { data, .. } => {
            push_all(&mut out, data.as_slice());
        },
        IppValue::Array(_) => {},
    }
    assert(out@ =~= value_data(v@));
    out
}

/// One value on the wire under the name `name`; none where the value
/// cannot be written as a single value.
fn single_bytes(name: &[u8], v: &IppValue) -> (r: Option<Vec<u8>>)
    requires
        name@.len() <= MAX_LENGTH,
    ensures
        match r {
            Some(b) => single_ok(v@) && b@ == tlv(value_tag(v@), name@, value_data(v@)),
            None => !single_ok(v@),
        },
{
    let data = match v {
        IppValue::Array(_) => {
            return None;
        },
        IppValue::TextWithLanguage { language, text } => match language_data(language, text) {
            Some(d) => d,
            None => {
                return None;
            },
        },
        IppValue::NameWithLanguage { language, name } => match language_data(language, name) {
            Some(d) => d,
            None => {
                return None;
            },
        },
        IppValue::Other { tag, .. } => {
            if *tag < 0x10 || is_typed_tag(*tag) {
                return None;
            }
            data_of(v)
        },
        _ => data_of(v),
    };
    if data.len() > MAX_LENGTH {
        return None;
    }
    let mut out: Vec<u8> = Vec::new();
    out.push(tag_of(v));
    push_u16(&mut out, name.len() as u16);
    push_all(&mut out, name);
    push_u16(&mut out, data.len() as u16);
    push_all(&mut out, data.as_slice());
    assert(out@ =~= tlv(value_tag(v@), name@, value_data(v@)));
    Some(out)
}

/// An attribute on the wire; none where it cannot be written.
pub fn attribute_bytes(a: &IppAttribute) -> (r: Option<Vec<u8>>)
    ensures
        match r {
            Some(b) => attribute_ok(a@) && b@ == attribute_wire(a@),
            None => !attribute_ok(a@),
        },
{
    let name = a.name().as_bytes();
    if name.len() < 1 || name.len() > MAX_LENGTH {
        return None;
    }
    match a.value() {
        IppValue::Array(items) => {
            proof {
                lemma_array_view(*items);
            }
            let ghost views = views_of(items@);
            if items.len() == 0 {
                let none = IppValue::NoValue;
                assert(members(a@.value) =~= seq![none@]);
                assert(members(a@.value).drop_first() =~= Seq::<IppValueView>::empty());
                let written = single_bytes(name, &none);
                assert(written.unwrap()@ =~= attribute_wire(a@));
                return written;
            }
            let mut out = match single_bytes(name, &items[0]) {
                Some(b) => b,
                None => {
                    assert(!single_ok(members(a@.value)[0]));
                    return None;
                },
            };
            let empty: [u8; 0] = [];
            let mut i: usize = 1;
            assert(views.subrange(1, 1) =~= Seq::<IppValueView>::empty());
            assert(out@ =~= tlv(value_tag(views[0]), name@, value_data(views[0]))
                + additional_wire(views.subrange(1, 1)));
            while i < items.len()
                invariant
                    1 <= i <= items.len(),
                    views == views_of(items@),
                    a@.value == IppValueView::Array(views),
                    empty@.len() == 0,
                    forall|j: int| 0 <= j < i ==> single_ok(#[trigger] views[j]),
                    out@ == tlv(value_tag(views[0]), name@, value_data(views[0]))
                        + additional_wire(views.subrange(1, i as int)),
                decreases items.len() - i,
            {
                match single_bytes(empty.as_slice(), &items[i]) {
                    Some(b) => {
                        proof {
                            lemma_additional_push(views.subrange(1, i as int), views[i as int]);
                            assert(views.subrange(1, i as int + 1) =~= views.subrange(
                                1,
                                i as int,
                            ).push(views[i as int]));
                            assert(empty@ =~= Seq::<u8>::empty());
                        }
                        let ghost before = out@;
                        push_all(&mut out, b.as_slice());
                        assert(out@ =~= tlv(value_tag(views[0]), name@, value_data(views[0]))
                            + additional_wire(views.subrange(1, i as int + 1)));
                    },
                    None => {
                        assert(!single_ok(members(a@.value)[i as int]));
                        return None;
                    },
                }
                i += 1;
            }
            assert(views.subrange(1, items.len() as int) =~= views.drop_first());
            Some(out)
        },
        v => {
            assert(members(v@) =~= seq![v@]);
            assert(members(v@).drop_first() =~= Seq::<IppValueView>::empty());
            match single_bytes(name, v) {
                Some(b) => {
                    assert(b@ =~= attribute_wire(a@));
                    Some(b)
                },
                None => {
                    assert(!single_ok(members(a@.value)[0]));
                    None
                },
            }
        },
    }
}

/// A group on the wire; none where it cannot be written.
pub fn group_bytes(g: &IppAttributeGroup) -> (r: Option<Vec<u8>>)
    ensures
        match r {
            Some(b) => group_ok(g@) && b@ == group_wire(g@),
            None => !group_ok(g@),
        },
{
    if g.tag() == DelimiterTag::EndOfAttributes {
        return None;
    }
    let mut out: Vec<u8> = Vec::new();
    out.push(g.tag().to_u8());
    let mut i: usize = 0;
    assert(g@.attributes.take(0) =~= Seq::<AttributeView>::empty());
    assert(out@ =~= seq![g@.tag.code()] + attributes_wire(g@.attributes.take(0)));
    while i < g.len()
        invariant
            i <= g@.attributes.len(),
            forall|j: int| 0 <= j < i ==> attribute_ok(#[trigger] g@.attributes[j]),
            out@ == seq![g@.tag.code()] + attributes_wire(g@.attributes.take(i as int)),
        decreases g@.attributes.len() - i,
    {
        match attribute_bytes(g.attribute(i)) {
            Some(b) => {
                proof {
                    lemma_attributes_push(g@.attributes.take(i as int), g@.attributes[i as int]);
                    assert(g@.attributes.take(i as int + 1) =~= g@.attributes.take(i as int).push(
                        g@.attributes[i as int],
                    ));
                }
                push_all(&mut out, b.as_slice());
                assert(out@ =~= seq![g@.tag.code()] + attributes_wire(
                    g@.attributes.take(i as int + 1),
                ));
            },
            None => {
                return None;
            },
        }
        i += 1;
    }
    assert(g@.attributes.take(g@.attributes.len() as int) =~= g@.attributes);
    Some(out)
}

/// The groups on the wire, one after the other; none where one of them
/// cannot be written.
pub fn groups_bytes(attributes: &IppAttributes) -> (r: Option<Vec<u8>>)
    ensures
        match r {
            Some(b) => encodable(attributes@) && b@ == groups_wire(attributes@),
            None => !encodable(attributes@),
        },
{
    let mut out: Vec<u8> = Vec::new();
    let mut i: usize = 0;
    assert(attributes@.take(0) =~= Seq::<GroupView>::empty());
    assert(out@ =~= groups_wire(attributes@.take(0)));
    while i < attributes.len()
        invariant
            i <= attributes@.len(),
            forall|j: int| 0 <= j < i ==> group_ok(#[trigger] attributes@[j]),
            out@ == groups_wire(attributes@.take(i as int)),
        decreases attributes@.len() - i,
    {
        match group_bytes(attributes.group(i)) {
            Some(b) => {
                proof {
                    lemma_groups_push(attributes@.take(i as int), attributes@[i as int]);
                    assert(attributes@.take(i as int + 1) =~= attributes@.take(i as int).push(
                        attributes@[i as int],
                    ));
                }
                push_all(&mut out, b.as_slice());
            },
            None => {
                return None;
            },
        }
        i += 1;
    }
    assert(attributes@.take(attributes@.len() as int) =~= attributes@);
    Some(out)
}

/// The eight octets of a header.
pub fn header_bytes(h: &IppHeader) -> (r: Vec<u8>)
    ensures
        r@ == header_wire(*h),
{
    let mut out: Vec<u8> = Vec::new();
    out.push(h.version.major);
    out.push(h.version.minor);
    push_u16(&mut out, h.operation_or_status);
    push_u32(&mut out, h.request_id);
    assert(out@ =~= header_wire(*h));
    out
}

impl<P> IppRequestResponse<P> {
    /// The message on the wire, without its payload: the header, the
    /// groups in their order with the attributes of each in their order, and
    /// the tag that ends the attributes. There is none where an attribute
    /// cannot be written: its name is empty, a length is above 65535, an
    /// array has an array among its members, a value of a type that the
    /// library does not know has a tag that it may not have, or a group has
    /// the tag that ends the attributes.
    ///
    /// An array of one member is written as that member, and an array
    /// without members as `no-value`.
    pub fn to_bytes(&self) -> (r: Option<Vec<u8>>)
        ensures
            match r {
                Some(b) => encodable(self@.attributes) && b@ == message_wire(
                    self@.header,
                    self@.attributes,
                ),
                None => !encodable(self@.attributes),
            },
    {
        let mut out = header_bytes(&self.header);
        match groups_bytes(&self.attributes) {
            Some(b) => {
                push_all(&mut out, b.as_slice());
                out.push(DelimiterTag::EndOfAttributes.to_u8());
                assert(out@ =~= message_wire(self@.header, self@.attributes));
                Some(out)
            },
            None => None,
        }
    }
}

} // verus!
