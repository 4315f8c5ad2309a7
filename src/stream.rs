use vstd::prelude::*;
use crate::resolution::{spec_plan, OutputPlan, RaceState, plan_output};

verus! {

/// One piece of streamed server output.
pub enum Chunk {
    /// Markup written at its position in the document.
    Markup(String),
    /// A boundary's fallback, wrapped in markers naming its chunk, to be
    /// replaced by a later out-of-order chunk.
    MarkedFallback { id: u64, markup: String },
    /// A position reserved in document order, to be filled once the boundary
    /// with this chunk identifier settles.
    Deferred { id: u64 },
    /// Content sent after the main document, to be spliced in by the client
    /// where the marked fallback of the same chunk stands.
    OutOfOrder { id: u64, markup: String },
}

/// Whether `c` is the reserved position of chunk `id`.
pub open spec fn is_slot(c: Chunk, id: u64) -> bool {
    c == Chunk::Deferred { id }
}

/// The output of one document: its chunks in order, the next chunk
/// identifier, and the chunks recorded as unresolved on the server.
pub struct StreamBuffer {
    next_id: u64,
    chunks: Vec<Chunk>,
    incomplete: Vec<u64>,
}

impl StreamBuffer {
    pub closed spec fn spec_next_id(&self) -> u64 {
        self.next_id
    }

    pub closed spec fn spec_chunks(&self) -> Seq<Chunk> {
        self.chunks@
    }

    pub closed spec fn spec_incomplete(&self) -> Seq<u64> {
        self.incomplete@
    }

    /// An empty document whose first chunk identifier is 0.
    pub fn new() -> (r: Self)
        ensures
            r.spec_next_id() == 0,
            r.spec_chunks() == Seq::<Chunk>::empty(),
            r.spec_incomplete() == Seq::<u64>::empty(),
    {
        StreamBuffer { next_id: 0, chunks: Vec::new(), incomplete: Vec::new() }
    }

    /// The identifier the next boundary will get.
    pub fn peek_next_id(&self) -> (r: u64)
        ensures
            r == self.spec_next_id(),
    {
        self.next_id
    }

    /// Assigns the next chunk identifier; identifiers increase by one.
    pub fn next_chunk_id(&mut self) -> (id: u64)
        requires
            old(self).spec_next_id() < u64::MAX,
        ensures
            id == old(self).spec_next_id(),
            final(self).spec_next_id() == old(self).spec_next_id() + 1,
            final(self).spec_chunks() == old(self).spec_chunks(),
            final(self).spec_incomplete() == old(self).spec_incomplete(),
    {
        let id = self.next_id;
        self.next_id = self.next_id + 1;
        id
    }

    /// Appends a chunk at the current position.
    pub fn push(&mut self, c: Chunk)
        ensures
            final(self).spec_chunks() == old(self).spec_chunks().push(c),
            final(self).spec_next_id() == old(self).spec_next_id(),
            final(self).spec_incomplete() == old(self).spec_incomplete(),
    {
        self.chunks.push(c);
    }

    /// Records chunk `id` as unresolved on the server.
    pub fn mark_incomplete(&mut self, id: u64)
        ensures
            final(self).spec_incomplete() == old(self).spec_incomplete().push(id),
            final(self).spec_next_id() == old(self).spec_next_id(),
            final(self).spec_chunks() == old(self).spec_chunks(),
    {
        self.incomplete.push(id);
    }

    /// Fills the first reserved position of chunk `id` with `markup`. Returns
    /// whether such a position was found; if not, nothing changes.
    pub fn fill_deferred(&mut self, id: u64, markup: String) -> (filled: bool)
        ensures
            filled == exists|i: int| 0 <= i < old(self).spec_chunks().len() && is_slot(old(self).spec_chunks()[i], id),
            !filled ==> final(self).spec_chunks() == old(self).spec_chunks(),
            filled ==> exists|i: int|
                0 <= i < old(self).spec_chunks().len()
                && is_slot(old(self).spec_chunks()[i], id)
                && (forall|j: int| 0 <= j < i ==> !is_slot(old(self).spec_chunks()[j], id))
                && final(self).spec_chunks() == old(self).spec_chunks().update(i, Chunk::Markup(markup)),
            final(self).spec_next_id() == old(self).spec_next_id(),
            final(self).spec_incomplete() == old(self).spec_incomplete(),
    {
        let mut i: usize = 0;
        while i < self.chunks.len()
            invariant
                i <= self.chunks@.len(),
                self.chunks@ == old(self).chunks@,
                self.next_id == old(self).next_id,
                self.incomplete@ == old(self).incomplete@,
                forall|j: int| 0 <= j < i ==> !is_slot(self.chunks@[j], id),
            decreases self.chunks@.len() - i,
        {
            let found = match &self.chunks[i] {
                Chunk::Deferred { id: d } => *d == id,
                _ => false,
            };
            if found {
                assert(is_slot(old(self).spec_chunks()[i as int], id));
                self.chunks.set(i, Chunk::Markup(markup));
                assert(self.spec_chunks() == old(self).spec_chunks().update(i as int, Chunk::Markup(markup)));
                return true;
            }
            assert(!is_slot(self.chunks@[i as int], id));
            i = i + 1;
        }
        false
    }

    /// Hands out the chunks and the unresolved chunk identifiers.
    pub fn finish(self) -> (r: (Vec<Chunk>, Vec<u64>))
        ensures
            r.0@ == self.spec_chunks(),
            r.1@ == self.spec_incomplete(),
    {
        (self.chunks, self.incomplete)
    }
}

/// The chunks that writing a boundary appends, after its race was polled once.
pub open spec fn spec_written(id: u64, s: RaceState, out_of_order: bool, fallback: String, content: Option<String>) -> Seq<Chunk> {
    match spec_plan(s, out_of_order) {
        OutputPlan::InlineContent => seq![Chunk::Markup(content.unwrap())],
        OutputPlan::InlineFallback => seq![Chunk::Markup(fallback)],
        OutputPlan::FallbackThenOutOfOrder => seq![Chunk::MarkedFallback { id, markup: fallback }],
        OutputPlan::DeferredInOrder => seq![Chunk::Deferred { id }],
    }
}

/// Writes boundary `id` once its race has been polled to state `s`:
/// resolved content or, after a local read, the fallback goes in place and
/// the chunk is recorded as unresolved; an unsettled race writes a marked
/// fallback (out of order) or reserves its position (in order).
/// `content` is the resolved content's markup, present when `s` is resolved.
pub fn write_boundary(
    buf: &mut StreamBuffer,
    id: u64,
    s: RaceState,
    out_of_order: bool,
    fallback: String,
    content: Option<String>,
)
    requires
        s == RaceState::Resolved ==> content is Some,
    ensures
        final(buf).spec_chunks() == old(buf).spec_chunks() + spec_written(id, s, out_of_order, fallback, content),
        final(buf).spec_incomplete() == if s == RaceState::Incomplete {
            old(buf).spec_incomplete().push(id)
        } else {
            old(buf).spec_incomplete()
        },
        final(buf).spec_next_id() == old(buf).spec_next_id(),
{
    let plan = plan_output(s, out_of_order);
    let c = match plan {
        OutputPlan::InlineContent => match content {
            Some(m) => Chunk::Markup(m),
            None => Chunk::Markup(fallback),
        },
        OutputPlan::InlineFallback => {
            buf.mark_incomplete(id);
            Chunk::Markup(fallback)
        },
        OutputPlan::FallbackThenOutOfOrder => Chunk::MarkedFallback { id, markup: fallback },
        OutputPlan::DeferredInOrder => Chunk::Deferred { id },
    };
    buf.push(c);
    assert(final(buf).spec_chunks() =~= old(buf).spec_chunks() + spec_written(id, s, out_of_order, fallback, content));
}

/// Completes boundary `id`, written earlier while its race was unsettled, now
/// that the race settled to `s`. Out of order, resolved content is appended
/// as a labeled chunk and a lost race leaves the marked fallback in place; in
/// order, the reserved position is filled with the content or the fallback.
/// A lost race records the chunk as unresolved. Returns whether the output
/// changed where a position or a chunk was expected.
pub fn complete_boundary(
    buf: &mut StreamBuffer,
    id: u64,
    s: RaceState,
    out_of_order: bool,
    fallback: String,
    content: String,
) -> (written: bool)
    requires
        s.spec_settled(),
    ensures
        s == RaceState::Incomplete ==> final(buf).spec_incomplete() == old(buf).spec_incomplete().push(id),
        s == RaceState::Resolved ==> final(buf).spec_incomplete() == old(buf).spec_incomplete(),
        out_of_order && s == RaceState::Resolved ==> written && final(buf).spec_chunks()
            == old(buf).spec_chunks().push(Chunk::OutOfOrder { id, markup: content }),
        out_of_order && s == RaceState::Incomplete ==> !written && final(buf).spec_chunks() == old(buf).spec_chunks(),
        !out_of_order ==> (written == exists|i: int|
            0 <= i < old(buf).spec_chunks().len() && is_slot(old(buf).spec_chunks()[i], id)),
        !out_of_order && !written ==> final(buf).spec_chunks() == old(buf).spec_chunks(),
        !out_of_order && written ==> exists|i: int|
            0 <= i < old(buf).spec_chunks().len()
            && is_slot(old(buf).spec_chunks()[i], id)
            && (forall|j: int| 0 <= j < i ==> !is_slot(old(buf).spec_chunks()[j], id))
            && final(buf).spec_chunks() == old(buf).spec_chunks().update(i, Chunk::Markup(
                if s == RaceState::Resolved { content } else { fallback },
            )),
        final(buf).spec_next_id() == old(buf).spec_next_id(),
{
    let resolved = match s {
        RaceState::Resolved => true,
        _ => false,
    };
    if !resolved {
        buf.mark_incomplete(id);
    }
    if out_of_order {
        if resolved {
            buf.push(Chunk::OutOfOrder { id, markup: content });
            true
        } else {
            false
        }
    } else if resolved {
        buf.fill_deferred(id, content)
    } else {
        buf.fill_deferred(id, fallback)
    }
}

} // verus!
