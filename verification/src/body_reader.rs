//! Reads the chunks of a request body as one run of octets.
use vstd::prelude::*;

verus! {

/// What the body gave when it was asked for its next frame.
#[derive(Debug, Clone, PartialEq, Eq)]
pub enum FrameEvent {
    /// A frame of data.
    Data(Vec<u8>),
    /// A frame that holds no data, such as trailers.
    Other,
    /// The body has ended.
    End,
    /// The body failed, with these words.
    Failed(String),
    /// The body has nothing yet.
    Pending,
}

/// What a read comes to.
#[derive(Debug, Clone, PartialEq, Eq)]
pub enum ReadStep {
    /// The read is done and hands these octets over; none at the end of the body.
    Ready(Vec<u8>),
    /// The read failed, with these words.
    Failed(String),
    /// The body is to be asked for its next frame.
    Poll,
    /// The read has to wait for the body.
    Pending,
}

/// Reads a body of type `B` chunk by chunk. A chunk that a read does not
/// use up is kept, with the place where the next read goes on.
pub struct BodyReader<B> {
    body: B,
    chunk: Option<Vec<u8>>,
    offset: usize,
}

/// What a [`BodyReader`] stands for: the body, and the octets of the last
/// chunk that no read has handed over yet.
pub struct BodyReaderView<B> {
    pub body: B,
    pub rest: Seq<u8>,
}

/// The first `n` octets of `rest`, or all of them where there are fewer.
pub open spec fn front(rest: Seq<u8>, n: int) -> Seq<u8> {
    if n < rest.len() {
        rest.take(n)
    } else {
        rest
    }
}

/// What is left of `rest` after its first `n` octets.
pub open spec fn back(rest: Seq<u8>, n: int) -> Seq<u8> {
    if n < rest.len() {
        rest.skip(n)
    } else {
        Seq::empty()
    }
}

/// A read loses no octet of a chunk, nor hands one over twice: what it hands
/// over and what it keeps make up what was there, in order.
pub proof fn lemma_front_then_back(rest: Seq<u8>, n: int)
    requires
        0 <= n,
    ensures
        front(rest, n) + back(rest, n) == rest,
        front(rest, n).len() <= n,
{
    assert(front(rest, n) + back(rest, n) =~= rest);
}

/// A read that is asked for octets hands over none only at the end of the
/// body: of a chunk that is kept, and of a frame with data, it hands over at
/// least one.
pub proof fn lemma_some_octets(rest: Seq<u8>, want: int)
    requires
        rest.len() > 0,
        want > 0,
    ensures
        front(rest, want).len() > 0,
{
}

/// The words of the error that a failure of the body is reported with.
pub open spec fn failure_text(words: Seq<char>) -> Seq<char> {
    "Error reading body: "@ + words
}

impl<B> BodyReader<B> {
    /// The reader keeps a chunk only while octets of it are left.
    pub closed spec fn wf(&self) -> bool {
        match self.chunk {
            Some(data) => self.offset < data@.len(),
            None => true,
        }
    }

    /// The body, and what is left of the chunk that is kept.
    pub closed spec fn view(&self) -> BodyReaderView<B> {
        BodyReaderView {
            body: self.body,
            rest: match self.chunk {
                Some(data) => data@.skip(self.offset as int),
                None => Seq::empty(),
            },
        }
    }

    /// A reader at the start of `body`.
    pub fn new(body: B) -> (r: BodyReader<B>)
        ensures
            r.wf(),
            r.view() == (BodyReaderView { body, rest: Seq::empty() }),
    {
        BodyReader { body, chunk: None, offset: 0 }
    }

    /// The body, to ask it for its next frame.
    pub fn body(&self) -> (r: &B)
        ensures
            *r == self.view().body,
    {
        &self.body
    }

    /// Gives the reader up for its body.
    pub fn into_body(self) -> (r: B)
        ensures
            r == self.view().body,
    {
        self.body
    }

    /// Hands over up to `want` octets of `data` from `offset` on, and keeps
    /// what is left of the chunk.
    fn hand_over(&mut self, data: Vec<u8>, offset: usize, want: usize) -> (r: Vec<u8>)
        requires
            offset <= data@.len(),
        ensures
            r@ == front(data@.skip(offset as int), want as int),
            final(self).view() == (BodyReaderView {
                body: old(self).view().body,
                rest: back(data@.skip(offset as int), want as int),
            }),
            final(self).wf(),
    {
        let left = data.len() - offset;
        let n = if want < left {
            want
        } else {
            left
        };
        let mut out: Vec<u8> = Vec::new();
        let mut i: usize = 0;
        while i < n
            invariant
                i <= n,
                offset + n <= data@.len(),
                data@.len() <= usize::MAX,
                out@ == data@.subrange(offset as int, offset + i),
            decreases n - i,
        {
            out.push(data[offset + i]);
            assert(data@.subrange(offset as int, offset + i + 1) =~= data@.subrange(
                offset as int,
                offset + i,
            ).push(data@[offset + i]));
            i += 1;
        }
        assert(out@ =~= front(data@.skip(offset as int), want as int));
        if n < left {
            self.offset = offset + n;
            self.chunk = Some(data);
            assert(self.view().rest =~= back(data@.skip(offset as int), want as int));
        } else {
            self.offset = 0;
            self.chunk = None;
        }
        out
    }

    /// The first step of a read for `want` octets. Where a chunk is kept,
    /// the read is done: it hands over the octets of the chunk, `want` of
    /// them at most, and what is left is kept. Where none is kept, the body
    /// is to be asked for its next frame.
    pub fn read(&mut self, want: usize) -> (r: ReadStep)
        requires
            old(self).wf(),
        ensures
            final(self).wf(),
            final(self).view().body == old(self).view().body,
            old(self).view().rest.len() > 0 ==> r == ReadStep::Ready(r->Ready_0) && r->Ready_0@
                == front(old(self).view().rest, want as int) && final(self).view().rest == back(
                old(self).view().rest,
                want as int,
            ),
            old(self).view().rest.len() == 0 ==> r == ReadStep::Poll && final(self).view()
                == old(self).view(),
    {
        match self.chunk.take() {
            Some(data) => {
                let offset = self.offset;
                ReadStep::Ready(self.hand_over(data, offset, want))
            },
            None => ReadStep::Poll,
        }
    }

    /// The step of a read for `want` octets after the body was asked for a
    /// frame and gave `event`, while no chunk was kept. A frame of data
    /// ends the read: it hands over the first octets of the frame, `want`
    /// at most, and what is left is kept. A frame without data, or with
    /// data of no octets, has the body asked again: a read that hands over
    /// no octets would tell the reader that the body has ended. The end of
    /// the body ends the read with no octets, a failure of the body with an
    /// error, and a body that has nothing yet has the read wait.
    pub fn on_frame(&mut self, event: FrameEvent, want: usize) -> (r: ReadStep)
        requires
            old(self).wf(),
            old(self).view().rest.len() == 0,
        ensures
            final(self).wf(),
            final(self).view().body == old(self).view().body,
            match event {
                FrameEvent::Data(data) => if data@.len() == 0 {
                    r == ReadStep::Poll && final(self).view().rest.len() == 0
                } else {
                    r == ReadStep::Ready(r->Ready_0) && r->Ready_0@ == front(data@, want as int)
                        && final(self).view().rest == back(data@, want as int)
                },
                FrameEvent::Other => r == ReadStep::Poll && final(self).view().rest.len() == 0,
                FrameEvent::End => r == ReadStep::Ready(r->Ready_0) && r->Ready_0@.len() == 0
                    && final(self).view().rest.len() == 0,
                FrameEvent::Failed(words) => r == ReadStep::Failed(r->Failed_0) && r->Failed_0@
                    == failure_text(words@) && final(self).view().rest.len() == 0,
                FrameEvent::Pending => r == ReadStep::Pending && final(self).view().rest.len()
                    == 0,
            },
    {
        match event {
            FrameEvent::Data(data) => {
                if data.len() == 0 {
                    ReadStep::Poll
                } else {
                    assert(data@.skip(0) =~= data@);
                    ReadStep::Ready(self.hand_over(data, 0, want))
                }
            },
            FrameEvent::Other => ReadStep::Poll,
            FrameEvent::End => ReadStep::Ready(Vec::new()),
            FrameEvent::Failed(words) => {
                let mut text = "Error reading body: ".to_owned();
                text.append(words.as_str());
                ReadStep::Failed(text)
            },
            FrameEvent::Pending => ReadStep::Pending,
        }
    }
}

} // verus!
