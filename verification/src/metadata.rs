//! Bounded buffering of the metadata part.
//!
//! The payload is kept in memory until it is deserialized, so it is refused
//! as soon as it goes over `MAX_METADATA_SIZE`, before anything is parsed.

use vstd::prelude::*;
use crate::limits::MAX_METADATA_SIZE;
use crate::sniff::views_of;

verus! {

/// What is kept of a payload that arrived as `chunks`: all of it, or nothing
/// once it is over the ceiling.
pub open spec fn buffered(chunks: Seq<Seq<u8>>) -> Option<Seq<u8>> {
    if chunks.flatten().len() <= MAX_METADATA_SIZE {
        Some(chunks.flatten())
    } else {
        None
    }
}

/// What the buffer holds after one more chunk.
pub open spec fn pushed(kept: Option<Seq<u8>>, chunk: Seq<u8>) -> Option<Seq<u8>> {
    match kept {
        Some(bytes) if bytes.len() + chunk.len() <= MAX_METADATA_SIZE => Some(bytes + chunk),
        _ => None,
    }
}

/// The metadata payload as far as it has arrived.
pub struct MetadataBuffer {
    bytes: Vec<u8>,
    oversized: bool,
}

impl View for MetadataBuffer {
    type V = Option<Seq<u8>>;

    closed spec fn view(&self) -> Option<Seq<u8>> {
        if self.oversized {
            None
        } else {
            Some(self.bytes@)
        }
    }
}

impl MetadataBuffer {
    /// The buffer never holds more than the ceiling, and nothing once the
    /// payload has gone over it.
    #[verifier::type_invariant]
    spec fn wf(&self) -> bool {
        self.bytes@.len() <= MAX_METADATA_SIZE && (self.oversized ==> self.bytes@.len() == 0)
    }

    /// An empty buffer.
    pub fn new() -> (buffer: MetadataBuffer)
        ensures
            buffer@ == Some(Seq::<u8>::empty()),
    {
        MetadataBuffer { bytes: Vec::new(), oversized: false }
    }

    /// Takes in the next chunk. Answers whether the payload is still under
    /// the ceiling; once it is not, everything buffered is dropped.
    pub fn push(&mut self, chunk: &[u8]) -> (fits: bool)
        ensures
            final(self)@ == pushed(old(self)@, chunk@),
            fits == final(self)@.is_some(),
    {
        proof {
            use_type_invariant(&*self);
        }
        if self.oversized {
            return false;
        }
        if chunk.len() > MAX_METADATA_SIZE - self.bytes.len() {
            self.bytes = Vec::new();
            self.oversized = true;
            return false;
        }
        let mut bytes: Vec<u8> = Vec::new();
        std::mem::swap(&mut self.bytes, &mut bytes);
        bytes.extend_from_slice(chunk);
        self.bytes = bytes;
        true
    }

    /// Number of bytes held.
    pub fn len(&self) -> (n: usize)
        ensures
            n <= MAX_METADATA_SIZE,
            match self@ {
                Some(bytes) => n == bytes.len(),
                None => n == 0,
            },
    {
        proof {
            use_type_invariant(self);
        }
        self.bytes.len()
    }

    /// The payload to deserialize, or `None` if it went over the ceiling.
    pub fn finish(self) -> (payload: Option<Vec<u8>>)
        ensures
            payload.deep_view() == self@,
            payload matches Some(bytes) ==> bytes@.len() <= MAX_METADATA_SIZE,
    {
        proof {
            use_type_invariant(&self);
        }
        if self.oversized {
            None
        } else {
            let bytes = self.bytes;
            assert(bytes.deep_view() =~= bytes@);
            Some(bytes)
        }
    }
}

/// What the buffer holds after the chunks were pushed one by one.
pub open spec fn pushed_all(chunks: Seq<Seq<u8>>) -> Option<Seq<u8>>
    decreases chunks.len(),
{
    if chunks.len() == 0 {
        Some(Seq::empty())
    } else {
        pushed(pushed_all(chunks.drop_last()), chunks.last())
    }
}

/// A payload is kept whole if and only if its total size is within the
/// ceiling, however it is cut into chunks.
pub proof fn lemma_pushed_all_is_buffered(chunks: Seq<Seq<u8>>)
    ensures
        pushed_all(chunks) == buffered(chunks),
    decreases chunks.len(),
{
    if chunks.len() == 0 {
        assert(chunks.flatten() =~= Seq::<u8>::empty());
    } else {
        let init = chunks.drop_last();
        lemma_pushed_all_is_buffered(init);
        assert(chunks =~= init.push(chunks.last()));
        init.lemma_flatten_push(chunks.last());
        assert(chunks.flatten() =~= init.flatten() + chunks.last());
    }
}

/// Buffers a payload that is already in memory, chunk by chunk.
pub fn collect_metadata(chunks: &Vec<Vec<u8>>) -> (payload: Option<Vec<u8>>)
    ensures
        payload.deep_view() == buffered(views_of(chunks@)),
{
    let mut buffer = MetadataBuffer::new();
    let mut i: usize = 0;
    while i < chunks.len()
        invariant
            i <= chunks.len(),
            buffer@ == pushed_all(views_of(chunks@).take(i as int)),
        decreases chunks.len() - i,
    {
        let _ = buffer.push(chunks[i].as_slice());
        proof {
            let all = views_of(chunks@);
            assert(all.take(i + 1).drop_last() =~= all.take(i as int));
            assert(all.take(i + 1).last() == chunks@[i as int]@);
        }
        i = i + 1;
    }
    proof {
        assert(views_of(chunks@).take(i as int) =~= views_of(chunks@));
        lemma_pushed_all_is_buffered(views_of(chunks@));
    }
    buffer.finish()
}

} // verus!
