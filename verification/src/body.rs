//! The body of an HTTP response: nothing, some octets, or the octets of an
//! IPP message followed by its payload.
use crate::parser::{read_message, IppParseError, ReadMessage};
use crate::request::{IppPayload, IppRequestResponse, MessageView};
use crate::roundtrip::{groups_as_read, lemma_round_trip, representable};
use crate::wire::{encodable, message_wire};
use vstd::prelude::*;
use vstd::string::*;

verus! {

/// What a body still has to give.
#[derive(Debug, PartialEq, Eq)]
pub enum BodyInner<P> {
    /// Some octets, until they are given.
    Bytes(Option<Vec<u8>>),
    /// The octets of a message, until they are given, and then its payload.
    IppRequestResponse { header: Option<Vec<u8>>, payload: IppPayload<P> },
    /// Nothing.
    Empty,
}

/// The body of an HTTP response.
#[derive(Debug, PartialEq, Eq)]
pub struct Body<P> {
    pub inner: BodyInner<P>,
}

/// What a body gives next.
#[derive(Debug, Clone, PartialEq, Eq)]
pub enum BodyStep {
    /// A frame with these octets.
    Frame(Vec<u8>),
    /// What the payload gives next: the payload is to be asked.
    Payload,
    /// Nothing more.
    End,
}

/// Whether a body that has `before` to give gives `r` next, and has `after`
/// to give then.
pub open spec fn gives_next<P>(before: BodyInner<P>, r: BodyStep, after: BodyInner<P>) -> bool {
    match before {
        BodyInner::Bytes(Some(b)) => r == BodyStep::Frame(b) && after == BodyInner::<P>::Bytes(
            None,
        ),
        BodyInner::Bytes(None) => r == BodyStep::End && after == before,
        BodyInner::IppRequestResponse { header: Some(h), payload } => r == BodyStep::Frame(h)
            && after == (BodyInner::IppRequestResponse { header: None, payload }),
        BodyInner::IppRequestResponse { header: None, payload } => r == BodyStep::Payload && after
            == before,
        BodyInner::Empty => r == BodyStep::End && after == before,
    }
}

/// All the octets that a body still has to give, where its payload reads `payload`.
pub open spec fn octets_left<P>(inner: BodyInner<P>, payload: Seq<u8>) -> Seq<u8> {
    match inner {
        BodyInner::Bytes(Some(b)) => b@,
        BodyInner::Bytes(None) => Seq::empty(),
        BodyInner::IppRequestResponse { header: Some(h), .. } => h@ + payload,
        BodyInner::IppRequestResponse { header: None, .. } => payload,
        BodyInner::Empty => Seq::empty(),
    }
}

/// The octets of a step of a body: those of its frame, or none.
pub open spec fn frame_octets(r: BodyStep) -> Seq<u8> {
    match r {
        BodyStep::Frame(b) => b@,
        _ => Seq::empty(),
    }
}

/// A body gives its octets in order, and loses none: the frame that it
/// gives next and what it has to give then make up what it had to give. Once
/// it is the payload's turn, all that is left is what the payload reads, and
/// a body that is at its end has nothing left.
pub proof fn lemma_next_in_order<P>(
    before: BodyInner<P>,
    r: BodyStep,
    after: BodyInner<P>,
    payload: Seq<u8>,
)
    requires
        gives_next(before, r, after),
    ensures
        frame_octets(r) + octets_left(after, payload) == octets_left(before, payload),
        r == BodyStep::Payload ==> octets_left(before, payload) == payload,
        r == BodyStep::End ==> octets_left(before, payload).len() == 0,
{
    assert(frame_octets(r) + octets_left(after, payload) =~= octets_left(before, payload));
}

/// The body of a message is read back as the message: for a message that
/// can be written and holds no name twice, all the octets of its body are
/// read as its header and its groups, as they are read back, and the
/// payload follows them.
pub proof fn lemma_body_round_trip<P>(t: MessageView<P>, inner: BodyInner<P>, payload: Seq<u8>)
    requires
        representable(t.attributes),
        inner matches BodyInner::IppRequestResponse { header: Some(h), .. } && h@ == message_wire(
            t.header,
            t.attributes,
        ),
    ensures
        read_message(octets_left(inner, payload)) == Ok::<ReadMessage, IppParseError>(
            ReadMessage {
                header: t.header,
                attributes: groups_as_read(t.attributes),
                consumed: message_wire(t.header, t.attributes).len() as int,
            },
        ),
        octets_left(inner, payload).skip(message_wire(t.header, t.attributes).len() as int)
            == payload,
{
    lemma_round_trip(t.header, t.attributes, payload);
}

impl<P> Body<P> {
    /// Return an empty body.
    pub fn empty() -> (r: Body<P>)
        ensures
            r.inner == BodyInner::<P>::Empty,
    {
        Body { inner: BodyInner::Empty }
    }

    /// A body that gives the octets `t`.
    pub fn from_bytes(t: Vec<u8>) -> (r: Body<P>)
        ensures
            r.inner == BodyInner::<P>::Bytes(Some(t)),
    {
        Body { inner: BodyInner::Bytes(Some(t)) }
    }

    /// A body that gives the octets of the text `t`.
    pub fn from_text(t: &str) -> (r: Body<P>)
        ensures
            r.inner matches BodyInner::Bytes(Some(b)) && b@ == vstd::utf8::encode_utf8(t@),
    {
        Body { inner: BodyInner::Bytes(Some(t.as_bytes_vec())) }
    }

    /// A body that gives the message `t` as it stands on the wire, and then
    /// the payload of `t`. There is none where the message cannot be written.
    pub fn from_message(t: IppRequestResponse<P>) -> (r: Option<Body<P>>)
        ensures
            match r {
                Some(body) => {
                    &&& encodable(t@.attributes)
                    &&& body.inner matches BodyInner::IppRequestResponse {
                        header: Some(h),
                        payload,
                    } && h@ == message_wire(t@.header, t@.attributes) && payload == t.payload
                },
                None => !encodable(t@.attributes),
            },
    {
        match t.to_bytes() {
            Some(header) => Some(
                Body {
                    inner: BodyInner::IppRequestResponse {
                        header: Some(header),
                        payload: t.into_payload(),
                    },
                },
            ),
            None => None,
        }
    }

    /// What the body gives next. Octets are given once, as one frame, and
    /// then nothing more. A message gives its own octets first, as one
    /// frame, and from then on what its payload gives. An empty body gives
    /// nothing.
    pub fn next(&mut self) -> (r: BodyStep)
        ensures
            gives_next(old(self).inner, r, final(self).inner),
    {
        match &mut self.inner {
            BodyInner::Bytes(b) => match b.take() {
                Some(bytes) => BodyStep::Frame(bytes),
                None => BodyStep::End,
            },
            BodyInner::IppRequestResponse { header, payload } => match header.take() {
                Some(bytes) => BodyStep::Frame(bytes),
                None => BodyStep::Payload,
            },
            BodyInner::Empty => BodyStep::End,
        }
    }
}

} // verus!
