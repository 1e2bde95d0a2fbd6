//! Helpers that read a request's attributes.
use crate::attribute::{
    first_index, found, holding, lemma_first_index, lookup, named, taken, without_attribute,
    AttributeView, GroupView, IppAttributes,
};
use crate::error::{IppError, IppErrorView};
use crate::model::DelimiterTag;
use crate::request::IppPayload;
use crate::status::StatusCode;
use crate::text::str_eq;
use crate::value::{IppValue, IppValueView};
use vstd::prelude::*;

pub mod reader_stream;

verus! {

/// The value of the attribute `name` in the first group under `tag` that has one.
pub fn get_ipp_attribute<'a>(r: &'a IppAttributes, tag: DelimiterTag, name: &str) -> (v: Option<
    &'a IppValue,
>)
    ensures
        match found(r@, tag, name@) {
            Some(x) => v.is_some() && v.unwrap()@ == x,
            None => v.is_none(),
        },
{
    r.find(tag, name)
}

/// Takes the attribute `name` out of the first group under `tag` that has
/// one, and gives its value.
pub fn take_ipp_attribute(r: &mut IppAttributes, tag: DelimiterTag, name: &str) -> (v: Option<
    IppValue,
>)
    ensures
        final(r)@ == taken(old(r)@, tag, name@),
        match found(old(r)@, tag, name@) {
            Some(x) => v.is_some() && v.unwrap()@ == x,
            None => v.is_none(),
        },
        old(r).wf() ==> final(r).wf(),
{
    r.take_value(tag, name)
}

/// Looking for one name finds the same after another name was taken out of a group.
pub proof fn lemma_lookup_without(attrs: Seq<AttributeView>, gone: Seq<char>, name: Seq<char>)
    requires
        gone != name,
    ensures
        lookup(without_attribute(attrs, gone), name) == lookup(attrs, name),
        first_index(without_attribute(attrs, gone), named(name)) is Some <==> first_index(
            attrs,
            named(name),
        ) is Some,
{
    let rest = without_attribute(attrs, gone);
    lemma_first_index(attrs, named(gone));
    lemma_first_index(attrs, named(name));
    lemma_first_index(rest, named(name));
    match first_index(attrs, named(gone)) {
        Some(k) => {
            assert forall|j: int| 0 <= j < rest.len() implies #[trigger] rest[j] == attrs[if j
                < k {
                j
            } else {
                j + 1
            }] by {}
            match first_index(attrs, named(name)) {
                Some(i) => {
                    let i2 = if i < k {
                        i
                    } else {
                        i - 1
                    };
                    assert(rest[i2] == attrs[i]);
                    match first_index(rest, named(name)) {
                        Some(m) => {
                            let m2 = if m < k {
                                m
                            } else {
                                m + 1
                            };
                            assert(rest[m] == attrs[m2]);
                            if m2 < i {
                                assert(!named(name)(attrs[m2]));
                            }
                            if i2 < m {
                                assert(!named(name)(rest[i2]));
                            }
                        },
                        None => {
                            assert(!named(name)(rest[i2]));
                        },
                    }
                },
                None => {
                    match first_index(rest, named(name)) {
                        Some(m) => {
                            let m2 = if m < k {
                                m
                            } else {
                                m + 1
                            };
                            assert(rest[m] == attrs[m2]);
                            assert(!named(name)(attrs[m2]));
                        },
                        None => {},
                    }
                },
            }
        },
        None => {},
    }
}

/// Looking for one attribute finds the same after an attribute of another
/// name was taken out of the groups.
pub proof fn lemma_found_after_taken(
    groups: Seq<GroupView>,
    tag: DelimiterTag,
    gone: Seq<char>,
    other: DelimiterTag,
    name: Seq<char>,
)
    requires
        gone != name,
    ensures
        found(taken(groups, tag, gone), other, name) == found(groups, other, name),
{
    let rest = taken(groups, tag, gone);
    lemma_first_index(groups, holding(tag, gone));
    assert(rest.len() == groups.len());
    assert forall|j: int| 0 <= j < groups.len() implies holding(other, name)(#[trigger] rest[j])
        == holding(other, name)(groups[j]) && lookup(rest[j].attributes, name) == lookup(
        groups[j].attributes,
        name,
    ) by {
        lemma_lookup_without(groups[j].attributes, gone, name);
    }
    lemma_first_index(groups, holding(other, name));
    lemma_first_index(rest, holding(other, name));
    match first_index(groups, holding(other, name)) {
        Some(i) => {
            assert(holding(other, name)(rest[i]));
            match first_index(rest, holding(other, name)) {
                Some(m) => {
                    assert(holding(other, name)(groups[m]));
                    if m < i {
                        assert(!holding(other, name)(groups[m]));
                    }
                    if i < m {
                        assert(!holding(other, name)(rest[i]));
                    }
                },
                None => {
                    assert(!holding(other, name)(rest[i]));
                },
            }
        },
        None => {
            match first_index(rest, holding(other, name)) {
                Some(m) => {
                    assert(holding(other, name)(groups[m]));
                    assert(!holding(other, name)(groups[m]));
                },
                None => {},
            }
        },
    }
}

/// What the `compression` attribute asks of the payload: nothing where it is
/// absent or `none`, inflating where it is `gzip`, and an error for any other word.
pub open spec fn decompressed<P>(payload: IppPayload<P>, compression: Option<Seq<char>>) -> Result<
    IppPayload<P>,
    IppErrorView,
> {
    match compression {
        None => Ok(payload),
        Some(c) => if c == "none"@ {
            Ok(payload)
        } else if c == "gzip"@ {
            Ok(IppPayload::Gzip(Box::new(payload)))
        } else {
            Err(IppError::of_status(StatusCode::ClientErrorCompressionNotSupported))
        },
    }
}

/// Wraps `payload` as the request's `compression` attribute asks: unchanged
/// where it is absent or `none`, to be inflated where it is `gzip`. Any other
/// word is answered with `client-error-compression-not-supported`.
pub fn decommpress_payload<P>(payload: IppPayload<P>, compression: Option<&str>) -> (r: Result<
    IppPayload<P>,
    IppError,
>)
    ensures
        match decompressed(
            payload,
            match compression {
                Some(c) => Some(c@),
                None => None,
            },
        ) {
            Ok(p) => r == Ok::<IppPayload<P>, IppError>(p),
            Err(e) => r is Err && r->Err_0@ == e,
        },
{
    match compression {
        None => Ok(payload),
        Some(c) => {
            if str_eq(c, "none") {
                Ok(payload)
            } else if str_eq(c, "gzip") {
                Ok(IppPayload::Gzip(Box::new(payload)))
            } else {
                Err(IppError::from_status(StatusCode::ClientErrorCompressionNotSupported))
            }
        },
    }
}

/// A set of attribute names.
///
/// The names are held in a list and found by comparing texts, not in a
/// hash set: of a hash set of strings nothing could be proved, neither
/// what it holds after an insert nor what a lookup gives.
#[derive(Debug, Clone, PartialEq, Eq)]
pub struct NameSet {
    names: Vec<String>,
}

impl View for NameSet {
    type V = Set<Seq<char>>;

    closed spec fn view(&self) -> Set<Seq<char>> {
        Set::new(|n: Seq<char>| exists|i: int| 0 <= i < self.names@.len() && self.names@[i]@ == n)
    }
}

impl NameSet {
    /// The empty set.
    pub fn new() -> (r: Self)
        ensures
            r@ == Set::<Seq<char>>::empty(),
    {
        let r = NameSet { names: Vec::new() };
        assert(r@ =~= Set::<Seq<char>>::empty());
        r
    }

    /// Whether `name` is in the set.
    pub fn contains(&self, name: &str) -> (r: bool)
        ensures
            r == self@.contains(name@),
    {
        let mut i: usize = 0;
        while i < self.names.len()
            invariant
                i <= self.names.len(),
                forall|j: int| 0 <= j < i ==> self.names@[j]@ != name@,
            decreases self.names.len() - i,
        {
            if str_eq(self.names[i].as_str(), name) {
                return true;
            }
            i += 1;
        }
        false
    }

    /// Puts `name` into the set.
    pub fn insert(&mut self, name: &str)
        ensures
            final(self)@ == old(self)@.insert(name@),
    {
        if !self.contains(name) {
            self.names.push(name.to_owned());
            assert forall|n: Seq<char>| self@.contains(n) == old(self)@.insert(name@).contains(
                n,
            ) by {
                if old(self)@.contains(n) {
                    let i = choose|i: int|
                        0 <= i < old(self).names@.len() && old(self).names@[i]@ == n;
                    assert(self.names@[i]@ == n);
                }
                if n == name@ {
                    assert(self.names@[self.names@.len() - 1]@ == n);
                }
            }
        }
        assert(self@ =~= old(self)@.insert(name@));
    }

    /// The set that holds each of `names`.
    pub fn of(names: &[&str]) -> (r: Self)
        ensures
            r@ == Set::new(|n: Seq<char>| exists|i: int| 0 <= i < names@.len() && names@[i]@ == n),
    {
        let mut r = NameSet::new();
        let mut k: usize = 0;
        while k < names.len()
            invariant
                k <= names.len(),
                r@ == Set::new(|n: Seq<char>| exists|i: int| 0 <= i < k && names@[i]@ == n),
            decreases names.len() - k,
        {
            let ghost before = r@;
            r.insert(names[k]);
            assert(r@ =~= Set::new(|n: Seq<char>| exists|i: int| 0 <= i < k + 1 && names@[i]@ == n))
                by {
                assert forall|n: Seq<char>| before.insert(names@[k as int]@).contains(n)
                    == (exists|i: int| 0 <= i < k + 1 && names@[i]@ == n) by {
                    if before.contains(n) {
                        let i = choose|i: int| 0 <= i < k && names@[i]@ == n;
                        assert(0 <= i < k + 1 && names@[i]@ == n);
                    }
                }
            }
            k += 1;
        }
        r
    }
}

/// The keywords that a value names: its own where it is a keyword, those of
/// its members where it is an array.
pub open spec fn keywords_of(v: IppValueView) -> Set<Seq<char>> {
    match v {
        IppValueView::Keyword(k) => set![k],
        IppValueView::Array(items) => Set::new(
            |k: Seq<char>|
                exists|i: int| 0 <= i < items.len() && items[i] == IppValueView::Keyword(k),
        ),
        _ => Set::empty(),
    }
}

/// The attribute names that a request asks for: the keywords of its
/// `requested-attributes`, or `all` where it has none.
pub open spec fn requested_names(groups: Seq<GroupView>) -> Set<Seq<char>> {
    match found(groups, DelimiterTag::OperationAttributes, "requested-attributes"@) {
        Some(v) => keywords_of(v),
        None => set!["all"@],
    }
}

/// The attribute names that the request asks for.
pub fn get_requested_attributes(r: &IppAttributes) -> (names: NameSet)
    ensures
        names@ == requested_names(r@),
{
    match get_ipp_attribute(r, DelimiterTag::OperationAttributes, "requested-attributes") {
        Some(v) => {
            let mut names = NameSet::new();
            match v {
                IppValue::Keyword(k) => {
                    names.insert(k.as_str());
                    assert(names@ =~= keywords_of(v@));
                },
                IppValue::Array(items) => {
                    let mut i: usize = 0;
                    while i < items.len()
                        invariant
                            i <= items.len(),
                            names@ == Set::new(
                                |k: Seq<char>|
                                    exists|j: int|
                                        0 <= j < i && items@[j]@ == IppValueView::Keyword(k),
                            ),
                        decreases items.len() - i,
                    {
                        let ghost before = names@;
                        match &items[i] {
                            IppValue::Keyword(k) => {
                                names.insert(k.as_str());
                            },
                            _ => {},
                        }
                        assert(names@ =~= Set::new(
                            |k: Seq<char>|
                                exists|j: int|
                                    0 <= j < i + 1 && items@[j]@ == IppValueView::Keyword(k),
                        )) by {
                            assert forall|k: Seq<char>| names@.contains(k) == (exists|j: int|
                                0 <= j < i + 1 && items@[j]@ == IppValueView::Keyword(k)) by {
                                if before.contains(k) {
                                    let j = choose|j: int|
                                        0 <= j < i && items@[j]@ == IppValueView::Keyword(k);
                                    assert(0 <= j < i + 1 && items@[j]@ == IppValueView::Keyword(
                                        k,
                                    ));
                                }
                            }
                        }
                        i += 1;
                    }
                    proof {
                        crate::value::lemma_array_view(*items);
                        let views = crate::value::views_of(items@);
                        assert(names@ =~= keywords_of(v@)) by {
                            assert forall|k: Seq<char>| names@.contains(k) == keywords_of(
                                v@,
                            ).contains(k) by {
                                if names@.contains(k) {
                                    let j = choose|j: int|
                                        0 <= j < items@.len() && items@[j]@
                                            == IppValueView::Keyword(k);
                                    assert(views[j] == IppValueView::Keyword(k));
                                }
                                if keywords_of(v@).contains(k) {
                                    let j = choose|j: int|
                                        0 <= j < views.len() && views[j] == IppValueView::Keyword(
                                            k,
                                        );
                                    assert(items@[j]@ == IppValueView::Keyword(k));
                                }
                            }
                        }
                    }
                },
                _ => {
                    assert(names@ =~= keywords_of(v@));
                },
            }
            names
        },
        None => {
            let mut names = NameSet::new();
            names.insert("all");
            assert(names@ =~= set!["all"@]);
            names
        },
    }
}

/// The name of the user who sent the request: the name, with or without a
/// language, in `requesting-user-name`; `anonymous` where there is none.
pub open spec fn user_name(groups: Seq<GroupView>) -> Seq<char> {
    match found(groups, DelimiterTag::OperationAttributes, "requesting-user-name"@) {
        Some(IppValueView::NameWithoutLanguage(name)) => name,
        Some(IppValueView::NameWithLanguage { name, .. }) => name,
        _ => "anonymous"@,
    }
}

/// Takes `requesting-user-name` out of the request and gives the name in
/// it, or `anonymous`.
pub fn take_requesting_user_name(r: &mut IppAttributes) -> (name: String)
    ensures
        name@ == user_name(old(r)@),
        final(r)@ == taken(old(r)@, DelimiterTag::OperationAttributes, "requesting-user-name"@),
        old(r).wf() ==> final(r).wf(),
{
    match take_ipp_attribute(r, DelimiterTag::OperationAttributes, "requesting-user-name") {
        Some(IppValue::NameWithoutLanguage(name)) => name,
        Some(IppValue::NameWithLanguage { name, .. }) => name,
        _ => "anonymous".to_owned(),
    }
}

} // verus!
