//! Reading is stable: what was read of some octets is read of them still
//! when more octets follow. So a body can be parsed as it comes.
use crate::attribute::GroupView;
use crate::model::IppHeader;
use crate::parser::{
    continues, into_last, opens_group, read_attribute, read_groups, read_header, read_message,
    read_more, read_tlv, read_value, step_for, IppParseError, ReadMessage,
};
use crate::roundtrip::{groups_as_read, lemma_round_trip, representable};
use crate::value::IppValueView;
use crate::wire::{be_u16, message_wire};
use vstd::prelude::*;

verus! {

/// What stands in `b` stands in `b` with more octets after it.
pub proof fn lemma_same_octets(b: Seq<u8>, more: Seq<u8>, from: int, to: int)
    requires
        0 <= from <= to <= b.len(),
    ensures
        (b + more).subrange(from, to) == b.subrange(from, to),
{
    assert((b + more).subrange(from, to) =~= b.subrange(from, to));
}

/// A value that is read whole is read the same with more octets after it.
pub proof fn lemma_read_tlv_stable(b: Seq<u8>, more: Seq<u8>, pos: int)
    requires
        0 <= pos <= b.len(),
        read_tlv(b, pos) is Ok,
    ensures
        read_tlv(b + more, pos) == read_tlv(b, pos),
{
    let c = b + more;
    let n = be_u16(b.subrange(pos + 1, pos + 3));
    lemma_same_octets(b, more, pos + 1, pos + 3);
    let m = be_u16(b.subrange(pos + 3 + n, pos + 5 + n));
    lemma_same_octets(b, more, pos + 3 + n, pos + 5 + n);
    lemma_same_octets(b, more, pos + 3, pos + 3 + n);
    lemma_same_octets(b, more, pos + 5 + n, pos + 5 + n + m);
    assert(c[pos] == b[pos]);
}

/// Whether the octets at `pos` say for good if another value of the same
/// attribute stands there: the three octets that tell are there, or the
/// octet that is there is a delimiter.
pub open spec fn decided(b: Seq<u8>, pos: int) -> bool {
    pos + 3 <= b.len() || (0 <= pos < b.len() && b[pos] < 0x10)
}

/// Whether another value follows is told the same with more octets, where
/// it is told for good.
pub proof fn lemma_continues_stable(b: Seq<u8>, more: Seq<u8>, pos: int)
    requires
        0 <= pos <= b.len(),
        decided(b, pos),
    ensures
        continues(b + more, pos) == continues(b, pos),
{
    let c = b + more;
    if pos + 3 <= b.len() {
        lemma_same_octets(b, more, pos + 1, pos + 3);
        assert(c[pos] == b[pos]);
    } else {
        assert(c[pos] == b[pos]);
    }
}

/// The values of an attribute are read the same with more octets after
/// them, where their end is told for good; and an error that is not for
/// want of octets stays.
pub proof fn lemma_read_more_stable(b: Seq<u8>, more: Seq<u8>, pos: int, values: Seq<IppValueView>)
    requires
        0 <= pos <= b.len(),
    ensures
        read_more(b, pos, values) matches Ok((_, next)) && decided(b, next) ==> read_more(
            b + more,
            pos,
            values,
        ) == read_more(b, pos, values),
        read_more(b, pos, values) matches Err(e) && !e.incomplete() ==> read_more(
            b + more,
            pos,
            values,
        ) == read_more(b, pos, values),
    decreases b.len() - pos,
{
    let c = b + more;
    if continues(b, pos) {
        lemma_continues_stable(b, more, pos);
        match read_tlv(b, pos) {
            Ok(t) => {
                lemma_read_tlv_stable(b, more, pos);
                match read_value(t.tag, t.data) {
                    Ok(v) => {
                        lemma_read_more_stable(b, more, t.next, values.push(v));
                    },
                    Err(e) => {},
                }
            },
            Err(e) => {},
        }
    } else {
        if decided(b, pos) {
            lemma_continues_stable(b, more, pos);
        }
    }
}

/// An attribute is read the same with more octets after it, where its end
/// is told for good; and an error that is not for want of octets stays.
pub proof fn lemma_read_attribute_stable(b: Seq<u8>, more: Seq<u8>, pos: int)
    requires
        0 <= pos <= b.len(),
    ensures
        read_attribute(b, pos) matches Ok((_, next)) && decided(b, next) ==> read_attribute(
            b + more,
            pos,
        ) == read_attribute(b, pos),
        read_attribute(b, pos) matches Err(e) && !e.incomplete() ==> read_attribute(b + more, pos)
            == read_attribute(b, pos),
{
    match read_tlv(b, pos) {
        Ok(t) => {
            lemma_read_tlv_stable(b, more, pos);
            match read_value(t.tag, t.data) {
                Ok(v) => {
                    lemma_read_more_stable(b, more, t.next, seq![v]);
                },
                Err(e) => {},
            }
        },
        Err(e) => {},
    }
}

/// Groups are read the same with more octets after them; and an error that
/// is not for want of octets stays.
pub proof fn lemma_read_groups_stable(b: Seq<u8>, more: Seq<u8>, pos: int, groups: Seq<GroupView>)
    requires
        0 <= pos <= b.len(),
    ensures
        read_groups(b, pos, groups) is Ok ==> read_groups(b + more, pos, groups) == read_groups(
            b,
            pos,
            groups,
        ),
        read_groups(b, pos, groups) matches Err(e) && !e.incomplete() ==> read_groups(
            b + more,
            pos,
            groups,
        ) == read_groups(b, pos, groups),
    decreases b.len() - pos,
{
    let c = b + more;
    if pos < b.len() {
        assert(c[pos] == b[pos]);
        if b[pos] == 0x03 {
        } else if opens_group(b[pos]) {
            lemma_read_groups_stable(
                b,
                more,
                pos + 1,
                groups.push(
                    GroupView {
                        tag: crate::model::DelimiterTag::of_code(b[pos]).unwrap(),
                        attributes: Seq::empty(),
                    },
                ),
            );
        } else if b[pos] < 0x10 {
        } else if groups.len() == 0 {
        } else {
            lemma_read_attribute_stable(b, more, pos);
            match read_attribute(b, pos) {
                Ok((a, next)) => {
                    crate::parser::lemma_read_attribute_advances(b, pos);
                    let after = read_groups(b, next, into_last(groups, a));
                    if after is Ok || (after matches Err(e) && !e.incomplete()) {
                        // What follows the attribute was read, so it was there.
                        assert(next < b.len());
                        if b[next] >= 0x10 {
                            assert(into_last(groups, a).len() > 0);
                            assert(!opens_group(b[next]));
                            assert(read_attribute(b, next) is Ok || (read_attribute(
                                b,
                                next,
                            ) matches Err(e) && !e.incomplete()));
                            assert(next + 3 <= b.len());
                        }
                        assert(decided(b, next));
                        lemma_read_groups_stable(b, more, next, into_last(groups, a));
                    }
                },
                Err(e) => {},
            }
        }
    }
}

/// A message that is read of some octets is read of them still when more
/// octets follow, and so is an error that is not for want of octets. What
/// is read of a body that comes in chunks is therefore what is read of the
/// whole body.
pub proof fn lemma_read_message_stable(b: Seq<u8>, more: Seq<u8>)
    ensures
        read_message(b) is Ok ==> read_message(b + more) == read_message(b),
        read_message(b) matches Err(e) && !e.incomplete() ==> read_message(b + more)
            == read_message(b),
{
    if b.len() >= 8 {
        let c = b + more;
        lemma_same_octets(b, more, 2, 4);
        lemma_same_octets(b, more, 4, 8);
        assert(c[0] == b[0]);
        assert(c[1] == b[1]);
        assert(read_header(c) == read_header(b));
        lemma_read_groups_stable(b, more, 8, Seq::empty());
    }
}

/// Once the parser has an answer for the octets it was fed, that is its
/// answer for any body that begins with these octets: the same message,
/// with the payload beginning at the same place, or the same error.
pub proof fn lemma_step_stable(b: Seq<u8>, more: Seq<u8>)
    ensures
        step_for(b) matches Ok(Some((m, rest))) ==> step_for(b + more) == Ok::<
            Option<(ReadMessage, Seq<u8>)>,
            IppParseError,
        >(Some((m, rest + more))),
        step_for(b) is Err ==> step_for(b + more) == step_for(b),
{
    lemma_read_message_stable(b, more);
    match read_message(b) {
        Ok(m) => {
            crate::parser::lemma_read_message_within(b);
            assert((b + more).skip(m.consumed) =~= b.skip(m.consumed) + more);
        },
        Err(e) => {},
    }
}

/// A message is read back however its body is cut into chunks. For every
/// header and for all groups that can be written and hold no name twice,
/// take the octets of the message with whatever payload after them, and
/// feed the parser the first `fed` of them, in chunks of any size. The
/// parser never fails. It asks for more as long as it was fed less than the
/// message. From then on it gives that header and those groups, as they
/// are read back, and hands
/// back the octets that it was fed beyond the message, which are the start
/// of the payload: the payload begins with the octet after the tag that ends
/// the attributes.
pub proof fn lemma_chunked_round_trip(
    header: IppHeader,
    groups: Seq<GroupView>,
    payload: Seq<u8>,
    fed: int,
)
    requires
        representable(groups),
        0 <= fed <= (message_wire(header, groups) + payload).len(),
    ensures
        match step_for((message_wire(header, groups) + payload).take(fed)) {
            Ok(Some((m, rest))) => {
                &&& fed >= message_wire(header, groups).len()
                &&& m == ReadMessage {
                    header,
                    attributes: groups_as_read(groups),
                    consumed: message_wire(header, groups).len() as int,
                }
                &&& rest == payload.take(fed - message_wire(header, groups).len())
            },
            Ok(None) => fed < message_wire(header, groups).len(),
            Err(_) => false,
        },
{
    let wire = message_wire(header, groups);
    let whole = wire + payload;
    let b = whole.take(fed);
    let more = whole.skip(fed);
    assert(b + more =~= whole);
    lemma_round_trip(header, groups, payload);
    lemma_read_message_stable(b, more);
    crate::parser::lemma_read_message_within(b);
    if fed >= wire.len() {
        let begun = payload.take(fed - wire.len());
        assert(wire + begun =~= b);
        lemma_round_trip(header, groups, begun);
        assert(b.skip(wire.len() as int) =~= begun);
    }
}

} // verus!
