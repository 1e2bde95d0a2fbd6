//! A stream of chunks read from a reader.
use vstd::prelude::*;

verus! {

/// The number of octets that the stream asks its reader for at a time.
pub const DEFAULT_CAPACITY: usize = 4096;

/// What the reader gave when it was asked for octets.
#[derive(Debug, Clone, PartialEq, Eq)]
pub enum ReadEvent {
    /// The reader has nothing yet.
    Pending,
    /// The reader failed, with these words.
    Failed(String),
    /// The reader gave these octets; none at its end.
    Read(Vec<u8>),
}

/// What the stream gives next.
#[derive(Debug, Clone, PartialEq, Eq)]
pub enum StreamStep {
    /// Nothing yet.
    Pending,
    /// A chunk.
    Chunk(Vec<u8>),
    /// The failure of the reader.
    Failed(String),
    /// Nothing more: the stream has ended.
    End,
}

/// Turns a reader of type `R` into a stream of chunks. The stream gives
/// the reader up at its end and when it fails, and is then at its end.
pub struct ReaderStream<R> {
    reader: Option<R>,
}

impl<R> ReaderStream<R> {
    /// The reader, while the stream has not ended.
    pub closed spec fn view(&self) -> Option<R> {
        self.reader
    }

    /// A stream of what `reader` gives.
    pub fn new(reader: R) -> (r: Self)
        ensures
            r.view() == Some(reader),
    {
        ReaderStream { reader: Some(reader) }
    }

    /// The number of octets to ask the reader for at a time.
    pub fn capacity(&self) -> (r: usize)
        ensures
            r == DEFAULT_CAPACITY,
    {
        DEFAULT_CAPACITY
    }

    /// The reader to ask for octets; none once the stream has ended.
    pub fn reader(&self) -> (r: Option<&R>)
        ensures
            match self.view() {
                Some(x) => r == Some(&x),
                None => r.is_none(),
            },
    {
        self.reader.as_ref()
    }

    /// Whether the stream has ended.
    pub fn is_done(&self) -> (r: bool)
        ensures
            r == self.view().is_none(),
    {
        self.reader.is_none()
    }

    /// What the stream gives after its reader was asked for octets and gave
    /// `event`. Octets make a chunk. No octets are the end of the reader,
    /// and so of the stream. A failure is handed on, and ends the stream
    /// too. A stream that has ended gives nothing more, whatever the event.
    pub fn on_read(&mut self, event: ReadEvent) -> (r: StreamStep)
        ensures
            old(self).view().is_none() ==> r == StreamStep::End && final(self).view().is_none(),
            old(self).view().is_some() ==> match event {
                ReadEvent::Pending => r == StreamStep::Pending && final(self).view() == old(self).view(),
                ReadEvent::Failed(words) => {
                    &&& r == StreamStep::Failed(words)
                    &&& final(self).view().is_none()
                },
                ReadEvent::Read(data) => if data@.len() == 0 {
                    r == StreamStep::End && final(self).view().is_none()
                } else {
                    r == StreamStep::Chunk(data) && final(self).view() == old(self).view()
                },
            },
    {
        if self.reader.is_none() {
            return StreamStep::End;
        }
        match event {
            ReadEvent::Pending => StreamStep::Pending,
            ReadEvent::Failed(words) => {
                self.reader = None;
                StreamStep::Failed(words)
            },
            ReadEvent::Read(data) => {
                if data.len() == 0 {
                    self.reader = None;
                    StreamStep::End
                } else {
                    StreamStep::Chunk(data)
                }
            },
        }
    }
}

} // verus!
