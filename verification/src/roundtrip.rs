//! What is written can be read: reading the wire form of a message gives
//! the message back.
use crate::attribute::{
    distinct_names, groups_wf, lemma_first_index_none, named, with_attribute, AttributeView,
    GroupView,
};
use crate::model::{DelimiterTag, IppHeader};
use crate::parser::{
    continues, into_last, joined, opens_group, read_attribute, read_groups, read_header,
    read_message, read_more, read_tlv, read_value, read_with_language, IppParseError, ReadMessage,
    Tlv,
};
use crate::value::IppValueView;
use crate::wire::{
    additional_wire, attribute_ok, attribute_wire, attributes_wire, be_i32, be_u16, be_u32,
    encodable, group_ok, group_wire, groups_wire, header_wire, i32_be, i8_octet, members,
    message_wire, octet_i8, single_ok, tlv, u16_be, u32_be, value_data, value_ok, value_tag,
    with_language, MAX_LENGTH,
};
use vstd::prelude::*;
use vstd::utf8::*;

verus! {

/// Two octets give back the number that they were written for.
pub proof fn lemma_u16(n: int)
    requires
        0 <= n < 65536,
    ensures
        u16_be(n).len() == 2,
        be_u16(u16_be(n)) == n,
{
}

/// Four octets give back the number that they were written for.
pub proof fn lemma_u32(n: int)
    requires
        0 <= n < 4294967296,
    ensures
        u32_be(n).len() == 4,
        be_u32(u32_be(n)) == n,
{
}

/// Four octets give back the signed number that they were written for.
pub proof fn lemma_i32(v: i32)
    ensures
        i32_be(v).len() == 4,
        be_i32(i32_be(v)) == v,
{
    if v >= 0 {
        lemma_u32(v as int);
    } else {
        lemma_u32(v as int + 4294967296);
    }
}

/// An octet gives back the signed number that it was written for.
pub proof fn lemma_i8(v: i8)
    ensures
        octet_i8(i8_octet(v)) == v,
{
}

/// The octets `x` stand in `b` at `pos`.
pub open spec fn stands_at(b: Seq<u8>, pos: int, x: Seq<u8>) -> bool {
    &&& 0 <= pos
    &&& pos + x.len() <= b.len()
    &&& b.subrange(pos, pos + x.len()) == x
}

/// Where `x` and then `y` stand, `x` stands, and `y` stands after it.
pub proof fn lemma_stands_at_both(b: Seq<u8>, pos: int, x: Seq<u8>, y: Seq<u8>)
    requires
        stands_at(b, pos, x + y),
    ensures
        stands_at(b, pos, x),
        stands_at(b, pos + x.len(), y),
{
    let whole = b.subrange(pos, pos + (x + y).len());
    assert(b.subrange(pos, pos + x.len()) =~= whole.subrange(0, x.len() as int));
    assert(whole.subrange(0, x.len() as int) =~= x);
    assert(b.subrange(pos + x.len(), pos + x.len() + y.len()) =~= whole.subrange(
        x.len() as int,
        (x + y).len() as int,
    ));
    assert(whole.subrange(x.len() as int, (x + y).len() as int) =~= y);
}

/// Where octets stand, each of them stands in its place.
pub proof fn lemma_stands_at_index(b: Seq<u8>, pos: int, x: Seq<u8>, i: int)
    requires
        stands_at(b, pos, x),
        0 <= i < x.len(),
    ensures
        b[pos + i] == x[i],
{
    assert(b.subrange(pos, pos + x.len())[i] == b[pos + i]);
}

/// A value that was written stands where it is read: with its tag, its
/// name and its octets, and the place after it.
pub proof fn lemma_read_tlv(b: Seq<u8>, pos: int, tag: u8, name: Seq<u8>, data: Seq<u8>)
    requires
        name.len() <= MAX_LENGTH,
        data.len() <= MAX_LENGTH,
        stands_at(b, pos, tlv(tag, name, data)),
    ensures
        tlv(tag, name, data).len() == 5 + name.len() + data.len(),
        read_tlv(b, pos) == Ok::<Tlv, IppParseError>(
            Tlv { tag, name, data, next: pos + 5 + name.len() + data.len() },
        ),
        b[pos] == tag,
        be_u16(b.subrange(pos + 1, pos + 3)) == name.len(),
{
    let n = name.len() as int;
    let m = data.len() as int;
    lemma_u16(n);
    lemma_u16(m);
    let t = tlv(tag, name, data);
    assert(t.len() == 5 + n + m);
    let whole = b.subrange(pos, pos + t.len());
    assert(whole == t);
    assert(b[pos] == whole[0]);
    assert(whole[0] == tag);
    assert(b.subrange(pos + 1, pos + 3) =~= whole.subrange(1, 3));
    assert(whole.subrange(1, 3) =~= u16_be(n));
    assert(b.subrange(pos + 3, pos + 3 + n) =~= whole.subrange(3, 3 + n));
    assert(whole.subrange(3, 3 + n) =~= name);
    assert(b.subrange(pos + 3 + n, pos + 5 + n) =~= whole.subrange(3 + n, 5 + n));
    assert(whole.subrange(3 + n, 5 + n) =~= u16_be(m));
    assert(b.subrange(pos + 5 + n, pos + 5 + n + m) =~= whole.subrange(5 + n, 5 + n + m));
    assert(whole.subrange(5 + n, 5 + n + m) =~= data);
}

/// A text gives back what it was written for.
pub proof fn lemma_text(s: Seq<char>)
    ensures
        valid_utf8(encode_utf8(s)),
        decode_utf8(encode_utf8(s)) == s,
{
    encode_utf8_valid_utf8(s);
    encode_utf8_decode_utf8(s);
}

/// A text with its language gives back the two that it was written for.
pub proof fn lemma_with_language(language: Seq<char>, text: Seq<char>)
    requires
        with_language(language, text).len() <= MAX_LENGTH,
    ensures
        read_with_language(with_language(language, text)) == Ok::<
            (Seq<char>, Seq<char>),
            IppParseError,
        >((language, text)),
{
    let l = encode_utf8(language);
    let t = encode_utf8(text);
    let n = l.len() as int;
    let m = t.len() as int;
    let d = with_language(language, text);
    assert(d.len() == 4 + n + m);
    lemma_u16(n);
    lemma_u16(m);
    lemma_text(language);
    lemma_text(text);
    assert(d.subrange(0, 2) =~= u16_be(n));
    assert(d.subrange(2, 2 + n) =~= l);
    assert(d.subrange(2 + n, 4 + n) =~= u16_be(m));
    assert(d.subrange(4 + n, 4 + n + m) =~= t);
}

/// A single value gives back what it was written for.
pub proof fn lemma_read_value(v: IppValueView)
    requires
        single_ok(v),
    ensures
        read_value(value_tag(v), value_data(v)) == Ok::<IppValueView, IppParseError>(v),
        value_tag(v) >= 0x10,
{
    let d = value_data(v);
    match v {
        IppValueView::NoValue => {},
        IppValueView::Integer(i) => {
            lemma_i32(i);
        },
        IppValueView::Boolean(b) => {},
        IppValueView::Enum(i) => {
            lemma_i32(i);
        },
        IppValueView::OctetString(_) => {},
        IppValueView::DateTime { year, .. } => {
            lemma_u16(year as int);
            assert(d.subrange(0, 2) =~= u16_be(year as int));
        },
        IppValueView::Resolution { cross_feed, feed, units } => {
            lemma_i32(cross_feed);
            lemma_i32(feed);
            lemma_i8(units);
            assert(d.subrange(0, 4) =~= i32_be(cross_feed));
            assert(d.subrange(4, 8) =~= i32_be(feed));
        },
        IppValueView::RangeOfInteger { min, max } => {
            lemma_i32(min);
            lemma_i32(max);
            assert(d.subrange(0, 4) =~= i32_be(min));
            assert(d.subrange(4, 8) =~= i32_be(max));
        },
        IppValueView::TextWithLanguage { language, text } => {
            lemma_with_language(language, text);
        },
        IppValueView::NameWithLanguage { language, name } => {
            lemma_with_language(language, name);
        },
        IppValueView::TextWithoutLanguage(s) => {
            lemma_text(s);
        },
        IppValueView::NameWithoutLanguage(s) => {
            lemma_text(s);
        },
        IppValueView::Keyword(s) => {
            lemma_text(s);
        },
        IppValueView::Uri(s) => {
            lemma_text(s);
        },
        IppValueView::UriScheme(s) => {
            lemma_text(s);
        },
        IppValueView::Charset(s) => {
            lemma_text(s);
        },
        IppValueView::NaturalLanguage(s) => {
            lemma_text(s);
        },
        IppValueView::MimeMediaType(s) => {
            lemma_text(s);
        },
        IppValueView::MemberAttrName(s) => {
            lemma_text(s);
        },
        IppValueView::Other { tag, data } => {},
        IppValueView::Array(_) => {},
    }
}

/// The values of an attribute after the first give back what they were
/// written for, where no value without a name follows them.
pub proof fn lemma_read_more(b: Seq<u8>, pos: int, before: Seq<IppValueView>, items: Seq<
    IppValueView,
>)
    requires
        stands_at(b, pos, additional_wire(items)),
        forall|i: int| 0 <= i < items.len() ==> single_ok(#[trigger] items[i]),
        !continues(b, pos + additional_wire(items).len()),
    ensures
        read_more(b, pos, before) == Ok::<(Seq<IppValueView>, int), IppParseError>(
            (before + items, pos + additional_wire(items).len()),
        ),
    decreases items.len(),
{
    if items.len() == 0 {
        assert(before + items =~= before);
    } else {
        let v = items[0];
        let rest = items.drop_first();
        let one = tlv(value_tag(v), Seq::empty(), value_data(v));
        assert(single_ok(v));
        lemma_read_value(v);
        lemma_stands_at_both(b, pos, one, additional_wire(rest));
        lemma_read_tlv(b, pos, value_tag(v), Seq::empty(), value_data(v));
        assert(continues(b, pos));
        assert forall|i: int| 0 <= i < rest.len() implies single_ok(#[trigger] rest[i]) by {
            assert(rest[i] == items[i + 1]);
        }
        lemma_read_more(b, pos + one.len(), before.push(v), rest);
        assert(before.push(v) + rest =~= before + items);
    }
}

/// What a value is read back as after it was written. An array of two or
/// more members, and any value that is no array, is read back as itself. An
/// array of one member is written as that member and so read back as it, and
/// an array without members is written and read back as `no-value`.
pub open spec fn as_read(v: IppValueView) -> IppValueView {
    joined(members(v))
}

/// What an attribute is read back as: its name, with its value as that is read back.
pub open spec fn attribute_as_read(a: AttributeView) -> AttributeView {
    AttributeView { name: a.name, value: as_read(a.value) }
}

/// What attributes are read back as, one for one.
pub open spec fn attributes_as_read(attrs: Seq<AttributeView>) -> Seq<AttributeView> {
    attrs.map_values(|a: AttributeView| attribute_as_read(a))
}

/// What a group is read back as: its tag, with its attributes as they are read back.
pub open spec fn group_as_read(g: GroupView) -> GroupView {
    GroupView { tag: g.tag, attributes: attributes_as_read(g.attributes) }
}

/// What groups are read back as, one for one.
pub open spec fn groups_as_read(groups: Seq<GroupView>) -> Seq<GroupView> {
    groups.map_values(|g: GroupView| group_as_read(g))
}

/// Whether no value of the groups is an array of fewer than two members.
pub open spec fn no_short_arrays(groups: Seq<GroupView>) -> bool {
    forall|i: int, j: int|
        0 <= i < groups.len() && 0 <= j < groups[i].attributes.len() ==> (
        #[trigger] groups[i].attributes[j].value matches IppValueView::Array(items) ==> items.len()
            >= 2)
}

/// Groups without arrays of fewer than two members are read back as themselves.
pub proof fn lemma_as_read_is_same(groups: Seq<GroupView>)
    requires
        no_short_arrays(groups),
    ensures
        groups_as_read(groups) == groups,
{
    assert forall|i: int| 0 <= i < groups.len() implies group_as_read(groups[i]) == groups[i] by {
        let g = groups[i];
        assert forall|j: int| 0 <= j < g.attributes.len() implies attribute_as_read(
            g.attributes[j],
        ) == g.attributes[j] by {
            let v = groups[i].attributes[j].value;
            match v {
                IppValueView::Array(items) => {
                    assert(items.len() >= 2);
                },
                _ => {},
            }
        }
        assert(attributes_as_read(g.attributes) =~= g.attributes);
    }
    assert(groups_as_read(groups) =~= groups);
}

/// What was read back is read back as itself when it is written again:
/// reading back changes a value once, and not again.
pub proof fn lemma_as_read_again(v: IppValueView)
    requires
        value_ok(v),
    ensures
        as_read(as_read(v)) == as_read(v),
        value_ok(as_read(v)),
{
    let ms = members(v);
    if ms.len() == 1 {
        assert(single_ok(ms[0]));
        assert(members(ms[0]) =~= seq![ms[0]]);
    } else {
        assert(members(IppValueView::Array(ms)) == ms);
    }
}

/// Reading back keeps the names of the attributes, each in its place.
pub proof fn lemma_as_read_names(attrs: Seq<AttributeView>)
    ensures
        attributes_as_read(attrs).len() == attrs.len(),
        forall|i: int|
            0 <= i < attrs.len() ==> (#[trigger] attributes_as_read(attrs)[i]).name
                == attrs[i].name,
        distinct_names(attrs) ==> distinct_names(attributes_as_read(attrs)),
{
    let read = attributes_as_read(attrs);
    if distinct_names(attrs) {
        assert forall|i: int, j: int| 0 <= i < j < read.len() implies (#[trigger] read[i]).name != (
        #[trigger] read[j]).name by {
            assert(read[i].name == attrs[i].name);
            assert(read[j].name == attrs[j].name);
        }
    }
}

/// An attribute gives back what it is read back as after it was written,
/// where no value without a name follows it.
pub proof fn lemma_read_attribute(b: Seq<u8>, pos: int, a: AttributeView)
    requires
        attribute_ok(a),
        stands_at(b, pos, attribute_wire(a)),
        !continues(b, pos + attribute_wire(a).len()),
    ensures
        read_attribute(b, pos) == Ok::<(AttributeView, int), IppParseError>(
            (attribute_as_read(a), pos + attribute_wire(a).len()),
        ),
        b[pos] >= 0x10,
        be_u16(b.subrange(pos + 1, pos + 3)) != 0,
        pos + 3 <= b.len(),
{
    let ms = members(a.value);
    let v = ms[0];
    let rest = ms.drop_first();
    let name = encode_utf8(a.name);
    let one = tlv(value_tag(v), name, value_data(v));
    assert(single_ok(v));
    lemma_read_value(v);
    lemma_text(a.name);
    lemma_stands_at_both(b, pos, one, additional_wire(rest));
    lemma_read_tlv(b, pos, value_tag(v), name, value_data(v));
    assert forall|i: int| 0 <= i < rest.len() implies single_ok(#[trigger] rest[i]) by {
        assert(rest[i] == ms[i + 1]);
    }
    lemma_read_more(b, pos + one.len(), seq![v], rest);
    assert(seq![v] + rest =~= ms);
}

/// `groups` with `attrs` added at the end of the last group.
pub open spec fn last_with(groups: Seq<GroupView>, attrs: Seq<AttributeView>) -> Seq<GroupView> {
    groups.update(
        groups.len() - 1,
        GroupView { tag: groups.last().tag, attributes: groups.last().attributes + attrs },
    )
}

/// The attributes of a group give back what they are read back as: read
/// into the last group, they stand at its end, where their names are new
/// to the group and a delimiter follows them.
pub proof fn lemma_read_attributes(
    b: Seq<u8>,
    pos: int,
    groups: Seq<GroupView>,
    attrs: Seq<AttributeView>,
)
    requires
        groups.len() > 0,
        forall|i: int| 0 <= i < attrs.len() ==> attribute_ok(#[trigger] attrs[i]),
        distinct_names(groups.last().attributes + attributes_as_read(attrs)),
        stands_at(b, pos, attributes_wire(attrs)),
        pos + attributes_wire(attrs).len() < b.len(),
        b[pos + attributes_wire(attrs).len()] < 0x10,
    ensures
        read_groups(b, pos, groups) == read_groups(
            b,
            pos + attributes_wire(attrs).len(),
            last_with(groups, attributes_as_read(attrs)),
        ),
    decreases attrs.len(),
{
    let read = attributes_as_read(attrs);
    if attrs.len() == 0 {
        assert(groups.last().attributes + read =~= groups.last().attributes);
        assert(last_with(groups, read) =~= groups);
    } else {
        let a = attrs[0];
        let rest = attrs.drop_first();
        let one = attribute_wire(a);
        let held = groups.last().attributes;
        let all = held + read;
        let got = attribute_as_read(a);
        assert(read[0] == got);
        assert(attributes_as_read(rest) =~= read.drop_first());
        assert(attribute_ok(a));
        lemma_stands_at_both(b, pos, one, attributes_wire(rest));
        assert forall|i: int| 0 <= i < rest.len() implies attribute_ok(#[trigger] rest[i]) by {
            assert(rest[i] == attrs[i + 1]);
        }
        // No value without a name follows the attribute: what follows is
        // the next attribute, which has a name, or the delimiter.
        let after = pos + one.len();
        if rest.len() == 0 {
            assert(attributes_wire(rest).len() == 0);
            assert(!continues(b, after));
        } else {
            let next = rest[0];
            assert(attribute_ok(next));
            let first = members(next.value)[0];
            let head = tlv(value_tag(first), encode_utf8(next.name), value_data(first));
            lemma_stands_at_both(b, after, attribute_wire(next), attributes_wire(rest.drop_first()));
            lemma_stands_at_both(
                b,
                after,
                head,
                additional_wire(members(next.value).drop_first()),
            );
            assert(single_ok(first));
            lemma_read_tlv(b, after, value_tag(first), encode_utf8(next.name), value_data(first));
            assert(!continues(b, after));
        }
        lemma_read_attribute(b, pos, a);
        // The name of the attribute is new to the group.
        assert forall|j: int| 0 <= j < held.len() implies !named(got.name)(#[trigger] held[j]) by {
            assert(all[j] == held[j]);
            assert(all[held.len() as int] == got);
        }
        lemma_first_index_none(held, named(got.name));
        assert(with_attribute(held, got) == held.push(got));
        let next_groups = into_last(groups, got);
        assert(next_groups.last().attributes + attributes_as_read(rest) =~= all);
        lemma_read_attributes(b, after, next_groups, rest);
        assert(last_with(next_groups, attributes_as_read(rest)) =~= last_with(groups, read));
        assert(!opens_group(b[pos]));
    }
}

/// The tag of a group gives back the group's kind.
pub proof fn lemma_group_tag(tag: DelimiterTag)
    requires
        tag != DelimiterTag::EndOfAttributes,
    ensures
        opens_group(tag.code()),
        tag.code() != 0x03,
        tag.code() < 0x10,
        DelimiterTag::of_code(tag.code()) == Some(tag),
{
}

/// Groups give back what they are read back as, where the tag that ends
/// the attributes follows them.
pub proof fn lemma_read_groups(b: Seq<u8>, pos: int, done: Seq<GroupView>, groups: Seq<GroupView>)
    requires
        encodable(groups),
        groups_wf(groups),
        stands_at(b, pos, groups_wire(groups)),
        pos + groups_wire(groups).len() < b.len(),
        b[pos + groups_wire(groups).len()] == 0x03,
    ensures
        read_groups(b, pos, done) == Ok::<(Seq<GroupView>, int), IppParseError>(
            (done + groups_as_read(groups), pos + groups_wire(groups).len() + 1),
        ),
    decreases groups.len(),
{
    if groups.len() == 0 {
        assert(done + groups_as_read(groups) =~= done);
    } else {
        let g = groups[0];
        let rest = groups.drop_first();
        assert(group_ok(g));
        assert(distinct_names(g.attributes));
        lemma_group_tag(g.tag);
        let head = seq![g.tag.code()];
        let body = attributes_wire(g.attributes);
        lemma_stands_at_both(b, pos, group_wire(g), groups_wire(rest));
        lemma_stands_at_both(b, pos, head, body);
        lemma_stands_at_index(b, pos, head, 0);
        assert(b[pos] == g.tag.code());
        let opened = done.push(GroupView { tag: g.tag, attributes: Seq::empty() });
        let after = pos + 1 + body.len();
        // A delimiter follows the attributes of the group: the tag of the
        // next group, or the tag that ends the attributes.
        if rest.len() == 0 {
            assert(groups_wire(rest).len() == 0);
            assert(b[after] == 0x03);
        } else {
            assert(group_ok(rest[0]));
            lemma_group_tag(rest[0].tag);
            lemma_stands_at_both(b, after, group_wire(rest[0]), groups_wire(rest.drop_first()));
            lemma_stands_at_both(
                b,
                after,
                seq![rest[0].tag.code()],
                attributes_wire(rest[0].attributes),
            );
            lemma_stands_at_index(b, after, seq![rest[0].tag.code()], 0);
        }
        let read = attributes_as_read(g.attributes);
        lemma_as_read_names(g.attributes);
        assert(opened.last().attributes + read =~= read);
        lemma_read_attributes(b, pos + 1, opened, g.attributes);
        assert(last_with(opened, read) =~= done.push(group_as_read(g)));
        assert forall|i: int| 0 <= i < rest.len() implies group_ok(#[trigger] rest[i])
            && distinct_names(rest[i].attributes) by {
            assert(rest[i] == groups[i + 1]);
        }
        lemma_read_groups(b, after, done.push(group_as_read(g)), rest);
        assert(groups_as_read(rest) =~= groups_as_read(groups).drop_first());
        assert(done.push(group_as_read(g)) + groups_as_read(rest) =~= done + groups_as_read(
            groups,
        ));
    }
}

/// Whether a message can be written and read back: each group can be
/// written, and no group has two attributes of one name.
pub open spec fn representable(groups: Seq<GroupView>) -> bool {
    encodable(groups) && groups_wf(groups)
}

/// Reading what was written gives it back. For every header and for all
/// groups that can be written and hold no name twice, the octets of the
/// message, with whatever payload after them, are read as that header and
/// as those groups, each value as [`as_read`] says: as itself, but for an
/// array of fewer than two members. The read takes the octets of the
/// message and no more: the payload begins with the octet after the tag
/// that ends the attributes.
pub proof fn lemma_round_trip(header: IppHeader, groups: Seq<GroupView>, payload: Seq<u8>)
    requires
        representable(groups),
    ensures
        read_message(message_wire(header, groups) + payload) == Ok::<ReadMessage, IppParseError>(
            ReadMessage {
                header,
                attributes: groups_as_read(groups),
                consumed: message_wire(header, groups).len() as int,
            },
        ),
        (message_wire(header, groups) + payload).skip(message_wire(header, groups).len() as int)
            == payload,
{
    let head = header_wire(header);
    let body = groups_wire(groups);
    let end = seq![DelimiterTag::EndOfAttributes.code()];
    let wire = message_wire(header, groups);
    let b = wire + payload;
    lemma_u16(header.operation_or_status as int);
    lemma_u32(header.request_id as int);
    assert(head.len() == 8);
    assert(b.subrange(2, 4) =~= u16_be(header.operation_or_status as int));
    assert(b.subrange(4, 8) =~= u32_be(header.request_id as int));
    assert(b[0] == header.version.major);
    assert(b[1] == header.version.minor);
    assert(read_header(b) == header);
    assert(b.subrange(8, 8 + body.len() as int) =~= body);
    assert(b[8 + body.len() as int] == 0x03);
    lemma_read_groups(b, 8, Seq::empty(), groups);
    assert(Seq::<GroupView>::empty() + groups_as_read(groups) =~= groups_as_read(groups));
    assert(b.skip(wire.len() as int) =~= payload);
}

} // verus!
