//! Attributes, attribute groups, and the ordered list of groups of a message.
use crate::model::DelimiterTag;
use crate::text::str_eq;
use crate::value::{IppValue, IppValueView};
use vstd::prelude::*;

verus! {

/// The place of the first member of `s` that `p` holds of, if there is one.
pub open spec fn first_index<T>(s: Seq<T>, p: spec_fn(T) -> bool) -> Option<int>
    decreases s.len(),
{
    if s.len() == 0 {
        None
    } else if p(s[0]) {
        Some(0)
    } else {
        match first_index(s.drop_first(), p) {
            Some(i) => Some(i + 1),
            None => None,
        }
    }
}

/// `first_index` finds the first member that `p` holds of, and finds none
/// only where `p` holds of no member.
pub proof fn lemma_first_index<T>(s: Seq<T>, p: spec_fn(T) -> bool)
    ensures
        match first_index(s, p) {
            Some(i) => 0 <= i < s.len() && p(s[i]) && forall|j: int| 0 <= j < i ==> !p(#[trigger] s[j]),
            None => forall|j: int| 0 <= j < s.len() ==> !p(#[trigger] s[j]),
        },
    decreases s.len(),
{
    if s.len() > 0 && !p(s[0]) {
        let t = s.drop_first();
        lemma_first_index(t, p);
        match first_index(t, p) {
            Some(i) => {
                assert forall|j: int| 0 <= j < i + 1 implies !p(#[trigger] s[j]) by {
                    if j > 0 {
                        assert(s[j] == t[j - 1]);
                    }
                }
            },
            None => {
                assert forall|j: int| 0 <= j < s.len() implies !p(#[trigger] s[j]) by {
                    if j > 0 {
                        assert(s[j] == t[j - 1]);
                    }
                }
            },
        }
    }
}

/// The first member that `p` holds of is at `i`.
pub proof fn lemma_first_index_is<T>(s: Seq<T>, p: spec_fn(T) -> bool, i: int)
    requires
        0 <= i < s.len(),
        p(s[i]),
        forall|j: int| 0 <= j < i ==> !p(#[trigger] s[j]),
    ensures
        first_index(s, p) == Some(i),
{
    lemma_first_index(s, p);
}

/// `p` holds of no member.
pub proof fn lemma_first_index_none<T>(s: Seq<T>, p: spec_fn(T) -> bool)
    requires
        forall|j: int| 0 <= j < s.len() ==> !p(#[trigger] s[j]),
    ensures
        first_index(s, p) is None,
{
    lemma_first_index(s, p);
}

/// An attribute: a name and its value.
#[derive(Debug, PartialEq, Eq)]
pub struct IppAttribute {
    name: String,
    value: IppValue,
}

/// What an [`IppAttribute`] stands for.
pub struct AttributeView {
    pub name: Seq<char>,
    pub value: IppValueView,
}

impl View for IppAttribute {
    type V = AttributeView;

    closed spec fn view(&self) -> AttributeView {
        AttributeView { name: self.name@, value: self.value@ }
    }
}

impl Clone for IppAttribute {
    fn clone(&self) -> (r: Self)
        ensures
            r@ == self@,
    {
        IppAttribute { name: self.name.clone(), value: self.value.clone() }
    }
}

impl IppAttribute {
    /// The attribute `name` with the value `value`.
    pub fn new(name: &str, value: IppValue) -> (r: Self)
        ensures
            r@ == (AttributeView { name: name@, value: value@ }),
    {
        IppAttribute { name: name.to_owned(), value }
    }

    /// The attribute's name.
    pub fn name(&self) -> (r: &str)
        ensures
            r@ == self@.name,
    {
        self.name.as_str()
    }

    /// The attribute's value.
    pub fn value(&self) -> (r: &IppValue)
        ensures
            r@ == self@.value,
    {
        &self.value
    }

    /// Gives up the attribute for its value.
    pub fn into_value(self) -> (r: IppValue)
        ensures
            r@ == self@.value,
    {
        self.value
    }
}

/// Whether `a` has the name `name`: the test that finds an attribute in a group.
pub open spec fn named(name: Seq<char>) -> spec_fn(AttributeView) -> bool {
    |a: AttributeView| a.name == name
}

/// The attribute of `attrs` that has the name `name`, if there is one.
pub open spec fn lookup(attrs: Seq<AttributeView>, name: Seq<char>) -> Option<AttributeView> {
    match first_index(attrs, named(name)) {
        Some(i) => Some(attrs[i]),
        None => None,
    }
}

/// `attrs` with `a` in the place of the attribute of its name, or at the end
/// where no attribute has that name.
pub open spec fn with_attribute(attrs: Seq<AttributeView>, a: AttributeView) -> Seq<AttributeView> {
    match first_index(attrs, named(a.name)) {
        Some(i) => attrs.update(i, a),
        None => attrs.push(a),
    }
}

/// `attrs` with each attribute of `more` put in, in order.
pub open spec fn with_attributes(attrs: Seq<AttributeView>, more: Seq<AttributeView>) -> Seq<
    AttributeView,
>
    decreases more.len(),
{
    if more.len() == 0 {
        attrs
    } else {
        with_attributes(with_attribute(attrs, more[0]), more.drop_first())
    }
}

/// `attrs` without the attribute that has the name `name`.
pub open spec fn without_attribute(attrs: Seq<AttributeView>, name: Seq<char>) -> Seq<
    AttributeView,
> {
    match first_index(attrs, named(name)) {
        Some(i) => attrs.remove(i),
        None => attrs,
    }
}

/// No two attributes of `attrs` have the same name.
pub open spec fn distinct_names(attrs: Seq<AttributeView>) -> bool {
    forall|i: int, j: int|
        0 <= i < j < attrs.len() ==> (#[trigger] attrs[i]).name != (#[trigger] attrs[j]).name
}

/// Putting an attribute in keeps the names distinct.
pub proof fn lemma_with_attribute_distinct(attrs: Seq<AttributeView>, a: AttributeView)
    requires
        distinct_names(attrs),
    ensures
        distinct_names(with_attribute(attrs, a)),
{
    lemma_first_index(attrs, named(a.name));
    let r = with_attribute(attrs, a);
    match first_index(attrs, named(a.name)) {
        Some(k) => {
            assert forall|i: int, j: int| 0 <= i < j < r.len() implies (#[trigger] r[i]).name != (
            #[trigger] r[j]).name by {
                assert(r[i].name == attrs[i].name);
                assert(r[j].name == attrs[j].name);
            }
        },
        None => {
            assert forall|i: int, j: int| 0 <= i < j < r.len() implies (#[trigger] r[i]).name != (
            #[trigger] r[j]).name by {
                if j < attrs.len() {
                    assert(r[i] == attrs[i]);
                    assert(r[j] == attrs[j]);
                } else {
                    assert(r[i] == attrs[i]);
                    assert(!named(a.name)(attrs[i]));
                }
            }
        },
    }
}

/// Putting several attributes in keeps the names distinct.
pub proof fn lemma_with_attributes_distinct(attrs: Seq<AttributeView>, more: Seq<AttributeView>)
    requires
        distinct_names(attrs),
    ensures
        distinct_names(with_attributes(attrs, more)),
    decreases more.len(),
{
    if more.len() > 0 {
        lemma_with_attribute_distinct(attrs, more[0]);
        lemma_with_attributes_distinct(with_attribute(attrs, more[0]), more.drop_first());
    }
}

/// Putting attributes with names that are not there yet adds them at the end.
pub proof fn lemma_with_attributes_new(attrs: Seq<AttributeView>, more: Seq<AttributeView>)
    requires
        distinct_names(attrs + more),
    ensures
        with_attributes(attrs, more) == attrs + more,
    decreases more.len(),
{
    if more.len() == 0 {
        assert(attrs + more =~= attrs);
    } else {
        let all = attrs + more;
        assert forall|j: int| 0 <= j < attrs.len() implies !named(more[0].name)(
            #[trigger] attrs[j],
        ) by {
            assert(all[j] == attrs[j]);
            assert(all[attrs.len() as int] == more[0]);
        }
        lemma_first_index_none(attrs, named(more[0].name));
        let next = with_attribute(attrs, more[0]);
        assert(next == attrs.push(more[0]));
        assert(next + more.drop_first() =~= all);
        lemma_with_attributes_new(next, more.drop_first());
    }
}

/// A list of attributes with distinct names makes a group of just these attributes.
pub proof fn lemma_with_attributes_of_distinct(list: Seq<AttributeView>)
    requires
        distinct_names(list),
    ensures
        with_attributes(Seq::empty(), list) == list,
{
    assert(Seq::<AttributeView>::empty() + list =~= list);
    lemma_with_attributes_new(Seq::empty(), list);
}

/// Taking an attribute out keeps the names distinct.
pub proof fn lemma_without_attribute_distinct(attrs: Seq<AttributeView>, name: Seq<char>)
    requires
        distinct_names(attrs),
    ensures
        distinct_names(without_attribute(attrs, name)),
{
    lemma_first_index(attrs, named(name));
    let r = without_attribute(attrs, name);
    match first_index(attrs, named(name)) {
        Some(k) => {
            assert forall|i: int, j: int| 0 <= i < j < r.len() implies (#[trigger] r[i]).name != (
            #[trigger] r[j]).name by {
                let i2 = if i < k { i } else { i + 1 };
                let j2 = if j < k { j } else { j + 1 };
                assert(r[i] == attrs[i2]);
                assert(r[j] == attrs[j2]);
            }
        },
        None => {},
    }
}

/// The views of a sequence of attributes, one for one.
pub open spec fn attribute_views(attrs: Seq<IppAttribute>) -> Seq<AttributeView> {
    attrs.map_values(|a: IppAttribute| a@)
}

/// A group of attributes under one delimiter tag. It maps names to
/// attributes: no two of its attributes have the same name, and they keep
/// the order in which their names first came.
///
/// The attributes are held in a list and found by comparing names, not in
/// a hash map keyed by the name: the order of a list can be stated, and
/// with it the octets of the group on the wire, where a walk of a hash map
/// would leave the order open, and nothing could be proved of a map whose
/// keys are strings.
#[derive(Debug, PartialEq, Eq)]
pub struct IppAttributeGroup {
    tag: DelimiterTag,
    attributes: Vec<IppAttribute>,
}

/// What an [`IppAttributeGroup`] stands for.
pub struct GroupView {
    pub tag: DelimiterTag,
    pub attributes: Seq<AttributeView>,
}

impl View for IppAttributeGroup {
    type V = GroupView;

    closed spec fn view(&self) -> GroupView {
        GroupView { tag: self.tag, attributes: attribute_views(self.attributes@) }
    }
}

impl IppAttributeGroup {
    /// The group is a map: no two of its attributes have the same name.
    pub open spec fn wf(&self) -> bool {
        distinct_names(self@.attributes)
    }

    /// An empty group under `tag`.
    pub fn new(tag: DelimiterTag) -> (r: Self)
        ensures
            r@ == (GroupView { tag, attributes: Seq::empty() }),
            r.wf(),
    {
        let r = IppAttributeGroup { tag, attributes: Vec::new() };
        assert(r@.attributes =~= Seq::empty());
        r
    }

    /// The tag that the group stands under.
    pub fn tag(&self) -> (r: DelimiterTag)
        ensures
            r == self@.tag,
    {
        self.tag
    }

    /// The number of attributes in the group.
    pub fn len(&self) -> (r: usize)
        ensures
            r == self@.attributes.len(),
    {
        self.attributes.len()
    }

    /// The attribute at place `i`.
    pub fn attribute(&self, i: usize) -> (r: &IppAttribute)
        requires
            i < self@.attributes.len(),
        ensures
            r@ == self@.attributes[i as int],
    {
        &self.attributes[i]
    }

    fn position(&self, name: &str) -> (r: Option<usize>)
        ensures
            match r {
                Some(i) => first_index(self@.attributes, named(name@)) == Some(i as int),
                None => first_index(self@.attributes, named(name@)) is None,
            },
    {
        let mut i: usize = 0;
        while i < self.attributes.len()
            invariant
                i <= self.attributes.len(),
                forall|j: int| 0 <= j < i ==> !named(name@)(#[trigger] self@.attributes[j]),
            decreases self.attributes.len() - i,
        {
            if str_eq(self.attributes[i].name.as_str(), name) {
                proof {
                    lemma_first_index_is(self@.attributes, named(name@), i as int);
                }
                return Some(i);
            }
            i += 1;
        }
        proof {
            lemma_first_index_none(self@.attributes, named(name@));
        }
        None
    }

    /// The attribute with the name `name`, if the group has one.
    pub fn get(&self, name: &str) -> (r: Option<&IppAttribute>)
        ensures
            match lookup(self@.attributes, name@) {
                Some(a) => r.is_some() && r.unwrap()@ == a,
                None => r.is_none(),
            },
    {
        match self.position(name) {
            Some(i) => {
                proof {
                    lemma_first_index(self@.attributes, named(name@));
                }
                Some(&self.attributes[i])
            },
            None => None,
        }
    }

    /// Puts `attribute` in: in the place of the attribute of its name, or at
    /// the end where the group has none of that name.
    pub fn insert(&mut self, attribute: IppAttribute)
        ensures
            final(self)@ == (GroupView {
                tag: old(self)@.tag,
                attributes: with_attribute(old(self)@.attributes, attribute@),
            }),
            old(self).wf() ==> final(self).wf(),
    {
        proof {
            if self.wf() {
                lemma_with_attribute_distinct(self@.attributes, attribute@);
            }
            lemma_first_index(self@.attributes, named(attribute@.name));
        }
        match self.position(attribute.name.as_str()) {
            Some(i) => {
                self.attributes.set(i, attribute);
                assert(self@.attributes =~= with_attribute(old(self)@.attributes, attribute@));
            },
            None => {
                self.attributes.push(attribute);
                assert(self@.attributes =~= with_attribute(old(self)@.attributes, attribute@));
            },
        }
    }

    /// Puts each attribute of `attributes` in, in order.
    pub fn extend(&mut self, attributes: Vec<IppAttribute>)
        ensures
            final(self)@ == (GroupView {
                tag: old(self)@.tag,
                attributes: with_attributes(
                    old(self)@.attributes,
                    attribute_views(attributes@),
                ),
            }),
            old(self).wf() ==> final(self).wf(),
    {
        let mut attributes = attributes;
        let ghost all = attribute_views(attributes@);
        // A vector gives its members up from the end: turn it round first.
        let mut rest: Vec<IppAttribute> = Vec::new();
        assert(attribute_views(attributes@) + attribute_views(rest@).reverse() =~= all);
        while attributes.len() > 0
            invariant
                attribute_views(attributes@) + attribute_views(rest@).reverse() == all,
            decreases attributes.len(),
        {
            let ghost before = attributes@;
            let ghost rest_before = rest@;
            let a = attributes.pop().unwrap();
            rest.push(a);
            assert(attribute_views(before) =~= attribute_views(attributes@).push(a@));
            assert(attribute_views(rest@).reverse() =~= seq![a@] + attribute_views(
                rest_before,
            ).reverse());
            assert(attribute_views(attributes@) + attribute_views(rest@).reverse() =~= all);
        }
        assert(attribute_views(rest@).reverse() =~= all);
        while rest.len() > 0
            invariant
                self@.tag == old(self)@.tag,
                old(self).wf() ==> self.wf(),
                with_attributes(self@.attributes, attribute_views(rest@).reverse())
                    == with_attributes(old(self)@.attributes, all),
            decreases rest.len(),
        {
            let ghost before = rest@;
            let ghost current = self@.attributes;
            let a = rest.pop().unwrap();
            proof {
                let todo = attribute_views(before).reverse();
                assert(todo[0] == a@);
                assert(todo.drop_first() =~= attribute_views(rest@).reverse());
            }
            self.insert(a);
        }
        assert(attribute_views(rest@).reverse() =~= Seq::<AttributeView>::empty());
    }

    /// Takes the attribute with the name `name` out of the group.
    pub fn remove(&mut self, name: &str) -> (r: Option<IppAttribute>)
        ensures
            final(self)@ == (GroupView {
                tag: old(self)@.tag,
                attributes: without_attribute(old(self)@.attributes, name@),
            }),
            match lookup(old(self)@.attributes, name@) {
                Some(a) => r.is_some() && r.unwrap()@ == a,
                None => r.is_none(),
            },
            old(self).wf() ==> final(self).wf(),
    {
        proof {
            if self.wf() {
                lemma_without_attribute_distinct(self@.attributes, name@);
            }
            lemma_first_index(self@.attributes, named(name@));
        }
        match self.position(name) {
            Some(i) => {
                let a = self.attributes.remove(i);
                assert(self@.attributes =~= without_attribute(old(self)@.attributes, name@));
                Some(a)
            },
            None => None,
        }
    }
}

/// Whether a group has the tag `tag`: the test that finds the group to add to.
pub open spec fn tagged(tag: DelimiterTag) -> spec_fn(GroupView) -> bool {
    |g: GroupView| g.tag == tag
}

/// Whether a group has the tag `tag` and an attribute with the name `name`.
pub open spec fn holding(tag: DelimiterTag, name: Seq<char>) -> spec_fn(GroupView) -> bool {
    |g: GroupView| g.tag == tag && first_index(g.attributes, named(name)) is Some
}

/// The value of the attribute `name` in the first group under `tag` that has one.
pub open spec fn found(groups: Seq<GroupView>, tag: DelimiterTag, name: Seq<char>) -> Option<
    IppValueView,
> {
    match first_index(groups, holding(tag, name)) {
        Some(i) => Some(lookup(groups[i].attributes, name).unwrap().value),
        None => None,
    }
}

/// `groups` without the attribute `name` in the first group under `tag` that has one.
pub open spec fn taken(groups: Seq<GroupView>, tag: DelimiterTag, name: Seq<char>) -> Seq<
    GroupView,
> {
    match first_index(groups, holding(tag, name)) {
        Some(i) => groups.update(
            i,
            GroupView { tag, attributes: without_attribute(groups[i].attributes, name) },
        ),
        None => groups,
    }
}

/// `groups` with `a` put into the first group under `tag`, or into a new
/// group at the end where there is none under `tag`.
pub open spec fn added(groups: Seq<GroupView>, tag: DelimiterTag, a: AttributeView) -> Seq<
    GroupView,
> {
    match first_index(groups, tagged(tag)) {
        Some(i) => groups.update(
            i,
            GroupView { tag, attributes: with_attribute(groups[i].attributes, a) },
        ),
        None => groups.push(GroupView { tag, attributes: seq![a] }),
    }
}

/// Every group of `groups` keeps the names of its attributes distinct.
pub open spec fn groups_wf(groups: Seq<GroupView>) -> bool {
    forall|i: int| 0 <= i < groups.len() ==> distinct_names((#[trigger] groups[i]).attributes)
}

/// The views of a sequence of groups, one for one.
pub open spec fn group_views(groups: Seq<IppAttributeGroup>) -> Seq<GroupView> {
    groups.map_values(|g: IppAttributeGroup| g@)
}

/// The attribute groups of a message, in the order in which they came or
/// will be written.
#[derive(Debug, PartialEq, Eq)]
pub struct IppAttributes {
    groups: Vec<IppAttributeGroup>,
}

impl View for IppAttributes {
    type V = Seq<GroupView>;

    closed spec fn view(&self) -> Seq<GroupView> {
        group_views(self.groups@)
    }
}

impl IppAttributes {
    /// Every group is a map from names to attributes.
    pub open spec fn wf(&self) -> bool {
        groups_wf(self@)
    }

    /// No groups.
    pub fn new() -> (r: Self)
        ensures
            r@ == Seq::<GroupView>::empty(),
            r.wf(),
    {
        let r = IppAttributes { groups: Vec::new() };
        assert(r@ =~= Seq::<GroupView>::empty());
        r
    }

    /// The number of groups.
    pub fn len(&self) -> (r: usize)
        ensures
            r == self@.len(),
    {
        self.groups.len()
    }

    /// The group at place `i`.
    pub fn group(&self, i: usize) -> (r: &IppAttributeGroup)
        requires
            i < self@.len(),
        ensures
            r@ == self@[i as int],
    {
        &self.groups[i]
    }

    /// Adds `group` after the groups that are there.
    pub fn push_group(&mut self, group: IppAttributeGroup)
        ensures
            final(self)@ == old(self)@.push(group@),
            old(self).wf() && group.wf() ==> final(self).wf(),
    {
        self.groups.push(group);
        assert(self@ =~= old(self)@.push(group@));
    }

    /// Gives the groups up and leaves none.
    pub fn take(&mut self) -> (r: Self)
        ensures
            r@ == old(self)@,
            final(self)@ == Seq::<GroupView>::empty(),
    {
        let mut r = IppAttributes { groups: Vec::new() };
        assert(r@ =~= Seq::<GroupView>::empty());
        core::mem::swap(&mut r, self);
        r
    }

    /// Puts `attribute` into the first group under `tag`; where there is
    /// none, into a new group under `tag` after the groups that are there.
    pub fn add(&mut self, tag: DelimiterTag, attribute: IppAttribute)
        ensures
            final(self)@ == added(old(self)@, tag, attribute@),
            old(self).wf() ==> final(self).wf(),
    {
        let mut i: usize = 0;
        while i < self.groups.len()
            invariant
                i <= self.groups.len(),
                *self == *old(self),
                forall|j: int| 0 <= j < i ==> !tagged(tag)(#[trigger] self@[j]),
            decreases self.groups.len() - i,
        {
            if self.groups[i].tag == tag {
                proof {
                    lemma_first_index_is(self@, tagged(tag), i as int);
                    if old(self).wf() {
                        lemma_with_attribute_distinct(self@[i as int].attributes, attribute@);
                    }
                }
                let mut g = self.groups.remove(i);
                g.insert(attribute);
                self.groups.insert(i, g);
                assert(self@ =~= added(old(self)@, tag, attribute@));
                return ;
            }
            i += 1;
        }
        proof {
            lemma_first_index_none(self@, tagged(tag));
            lemma_first_index_none(Seq::<AttributeView>::empty(), named(attribute@.name));
        }
        let mut g = IppAttributeGroup::new(tag);
        g.insert(attribute);
        assert(g@.attributes =~= seq![attribute@]);
        self.groups.push(g);
        assert(self@ =~= added(old(self)@, tag, attribute@));
    }

    /// The value of the attribute `name` in the first group under `tag` that has one.
    pub fn find(&self, tag: DelimiterTag, name: &str) -> (r: Option<&IppValue>)
        ensures
            match found(self@, tag, name@) {
                Some(v) => r.is_some() && r.unwrap()@ == v,
                None => r.is_none(),
            },
    {
        let mut i: usize = 0;
        while i < self.groups.len()
            invariant
                i <= self.groups.len(),
                forall|j: int| 0 <= j < i ==> !holding(tag, name@)(#[trigger] self@[j]),
            decreases self.groups.len() - i,
        {
            if self.groups[i].tag == tag {
                match self.groups[i].get(name) {
                    Some(a) => {
                        proof {
                            lemma_first_index_is(self@, holding(tag, name@), i as int);
                        }
                        return Some(a.value());
                    },
                    None => {},
                }
            }
            i += 1;
        }
        proof {
            lemma_first_index_none(self@, holding(tag, name@));
        }
        None
    }

    /// Takes the attribute `name` out of the first group under `tag` that has
    /// one, and gives its value.
    pub fn take_value(&mut self, tag: DelimiterTag, name: &str) -> (r: Option<IppValue>)
        ensures
            final(self)@ == taken(old(self)@, tag, name@),
            match found(old(self)@, tag, name@) {
                Some(v) => r.is_some() && r.unwrap()@ == v,
                None => r.is_none(),
            },
            old(self).wf() ==> final(self).wf(),
    {
        let mut i: usize = 0;
        while i < self.groups.len()
            invariant
                i <= self.groups.len(),
                *self == *old(self),
                forall|j: int| 0 <= j < i ==> !holding(tag, name@)(#[trigger] self@[j]),
            decreases self.groups.len() - i,
        {
            if self.groups[i].tag == tag {
                let has = self.groups[i].get(name).is_some();
                if has {
                    proof {
                        lemma_first_index_is(self@, holding(tag, name@), i as int);
                        if old(self).wf() {
                            lemma_without_attribute_distinct(self@[i as int].attributes, name@);
                        }
                    }
                    let mut g = self.groups.remove(i);
                    let a = g.remove(name);
                    self.groups.insert(i, g);
                    assert(self@ =~= taken(old(self)@, tag, name@));
                    return Some(a.unwrap().into_value());
                }
            }
            i += 1;
        }
        proof {
            lemma_first_index_none(self@, holding(tag, name@));
        }
        None
    }
}

} // verus!
