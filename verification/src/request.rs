//! Requests and responses: a header, the attribute groups, and the payload.
use crate::attribute::{
    added, lemma_first_index_is, lemma_first_index_none, named, tagged, with_attribute,
    AttributeView, GroupView, IppAttribute, IppAttributes,
};
use crate::model::{DelimiterTag, IppHeader, IppVersion};
use crate::status::StatusCode;
use crate::value::{IppValue, IppValueView};
use vstd::prelude::*;

verus! {

/// The octets that follow the attributes of a message: the document. The
/// library never reads them. It hands the source `P` on, bare or marked as
/// gzip data that is to be inflated while it is read.
#[derive(Debug, PartialEq, Eq)]
pub enum IppPayload<P> {
    /// No octets.
    Empty,
    /// The octets that the source gives.
    Stream(P),
    /// What the inner payload gives, inflated.
    Gzip(Box<IppPayload<P>>),
}

/// A request or a response.
#[derive(Debug, PartialEq, Eq)]
pub struct IppRequestResponse<P> {
    pub header: IppHeader,
    pub attributes: IppAttributes,
    pub payload: IppPayload<P>,
}

/// What an [`IppRequestResponse`] stands for.
pub struct MessageView<P> {
    pub header: IppHeader,
    pub attributes: Seq<GroupView>,
    pub payload: IppPayload<P>,
}

impl<P> View for IppRequestResponse<P> {
    type V = MessageView<P>;

    open spec fn view(&self) -> MessageView<P> {
        MessageView { header: self.header, attributes: self.attributes@, payload: self.payload }
    }
}

/// What the message `m` stands for.
pub open spec fn message_view<P>(m: IppRequestResponse<P>) -> MessageView<P> {
    m@
}

/// `attributes-charset = "utf-8"`.
pub open spec fn charset_attribute() -> AttributeView {
    AttributeView { name: "attributes-charset"@, value: IppValueView::Charset("utf-8"@) }
}

/// `attributes-natural-language = "en"`.
pub open spec fn language_attribute() -> AttributeView {
    AttributeView {
        name: "attributes-natural-language"@,
        value: IppValueView::NaturalLanguage("en"@),
    }
}

/// The group that opens every response: the charset, then the language.
pub open spec fn basic_group() -> GroupView {
    GroupView {
        tag: DelimiterTag::OperationAttributes,
        attributes: seq![charset_attribute(), language_attribute()],
    }
}

/// The response to request `id` that reports `status` and holds the opening group alone.
pub open spec fn plain_response<P>(version: IppVersion, status: StatusCode, id: u32) -> MessageView<
    P,
> {
    MessageView {
        header: IppHeader { version, operation_or_status: status.code(), request_id: id },
        attributes: seq![basic_group()],
        payload: IppPayload::Empty,
    }
}

/// `groups` with the charset and the language put into its operation attributes.
pub open spec fn with_basic(groups: Seq<GroupView>) -> Seq<GroupView> {
    added(
        added(groups, DelimiterTag::OperationAttributes, charset_attribute()),
        DelimiterTag::OperationAttributes,
        language_attribute(),
    )
}

/// The names of the two opening attributes differ.
pub proof fn lemma_basic_names_differ()
    ensures
        charset_attribute().name != language_attribute().name,
{
    reveal_strlit("attributes-charset");
    reveal_strlit("attributes-natural-language");
    assert("attributes-charset"@.len() != "attributes-natural-language"@.len());
}

/// Putting the opening attributes into no groups gives the opening group.
pub proof fn lemma_with_basic_of_empty()
    ensures
        with_basic(Seq::<GroupView>::empty()) == seq![basic_group()],
{
    let tag = DelimiterTag::OperationAttributes;
    let e = Seq::<GroupView>::empty();
    lemma_first_index_none(e, tagged(tag));
    let one = added(e, tag, charset_attribute());
    assert(one =~= seq![GroupView { tag, attributes: seq![charset_attribute()] }]);
    lemma_first_index_is(one, tagged(tag), 0);
    lemma_basic_names_differ();
    lemma_first_index_none(one[0].attributes, named(language_attribute().name));
    assert(with_attribute(one[0].attributes, language_attribute()) =~= seq![
        charset_attribute(),
        language_attribute(),
    ]);
    assert(with_basic(e) =~= seq![basic_group()]);
}

/// Where the first group is the operation group and opens with the charset
/// and the language, putting them in again changes nothing.
pub proof fn lemma_with_basic_again(groups: Seq<GroupView>)
    requires
        groups.len() > 0,
        groups[0].tag == DelimiterTag::OperationAttributes,
        groups[0].attributes.len() >= 2,
        groups[0].attributes[0] == charset_attribute(),
        groups[0].attributes[1] == language_attribute(),
    ensures
        with_basic(groups) == groups,
{
    let tag = DelimiterTag::OperationAttributes;
    lemma_basic_names_differ();
    lemma_first_index_is(groups, tagged(tag), 0);
    lemma_first_index_is(groups[0].attributes, named(charset_attribute().name), 0);
    assert(with_attribute(groups[0].attributes, charset_attribute()) =~= groups[0].attributes);
    let one = added(groups, tag, charset_attribute());
    assert(one =~= groups);
    lemma_first_index_is(groups[0].attributes, named(language_attribute().name), 1);
    assert(with_attribute(groups[0].attributes, language_attribute()) =~= groups[0].attributes);
    assert(with_basic(groups) =~= groups);
}

/// Puts `attributes-charset` and `attributes-natural-language` into the
/// operation attributes of `attributes`.
pub fn add_basic_attributes(attributes: &mut IppAttributes)
    ensures
        final(attributes)@ == with_basic(old(attributes)@),
        old(attributes).wf() ==> final(attributes).wf(),
{
    attributes.add(
        DelimiterTag::OperationAttributes,
        IppAttribute::new("attributes-charset", IppValue::Charset("utf-8".to_owned())),
    );
    attributes.add(
        DelimiterTag::OperationAttributes,
        IppAttribute::new("attributes-natural-language", IppValue::NaturalLanguage("en".to_owned())),
    );
}

impl<P> IppRequestResponse<P> {
    /// The response to request `id` that reports `status`. Its operation
    /// attributes open with the charset and the language, and it has no payload.
    pub fn new_response(version: IppVersion, status: StatusCode, id: u32) -> (r: Self)
        ensures
            r@ == plain_response::<P>(version, status, id),
            r.attributes.wf(),
    {
        let mut attributes = IppAttributes::new();
        add_basic_attributes(&mut attributes);
        proof {
            lemma_with_basic_of_empty();
        }
        IppRequestResponse {
            header: IppHeader::new(version, status.to_u16(), id),
            attributes,
            payload: IppPayload::Empty,
        }
    }

    /// Gives the message up for its payload.
    pub fn into_payload(self) -> (r: IppPayload<P>)
        ensures
            r == self.payload,
    {
        self.payload
    }
}

} // verus!
