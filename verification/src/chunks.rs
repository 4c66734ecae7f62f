//! Concatenation of streamed output chunks.
//!
//! A command run inside a container streams its combined stdout/stderr as a
//! sequence of text chunks. The executor's result is the concatenation of
//! every chunk in arrival order; how the stream happened to cut the text into
//! chunks must not show in the result.

use vstd::prelude::*;

verus! {

/// The concatenation of a sequence of chunks, in order.
pub open spec fn concat_chunks(chunks: Seq<Seq<char>>) -> Seq<char>
    decreases chunks.len(),
{
    if chunks.len() == 0 {
        Seq::empty()
    } else {
        concat_chunks(chunks.drop_last()) + chunks.last()
    }
}

/// Concatenation distributes over appending chunk sequences.
pub proof fn lemma_concat_chunks_app(a: Seq<Seq<char>>, b: Seq<Seq<char>>)
    ensures
        concat_chunks(a + b) == concat_chunks(a) + concat_chunks(b),
    decreases b.len(),
{
    if b.len() == 0 {
        assert(a + b =~= a);
        assert(concat_chunks(b) == Seq::<char>::empty());
        assert(concat_chunks(a) + Seq::<char>::empty() =~= concat_chunks(a));
    } else {
        lemma_concat_chunks_app(a, b.drop_last());
        assert((a + b).drop_last() =~= a + b.drop_last());
        assert((a + b).last() == b.last());
        assert(concat_chunks(a) + concat_chunks(b.drop_last()) + b.last() == concat_chunks(a)
            + (concat_chunks(b.drop_last()) + b.last()));
    }
}

/// The concatenation of a single chunk is that chunk.
pub proof fn lemma_concat_chunks_singleton(c: Seq<char>)
    ensures
        concat_chunks(seq![c]) == c,
{
    let s = seq![c];
    assert(s.len() == 1);
    assert(s.drop_last() =~= Seq::<Seq<char>>::empty());
    assert(concat_chunks(s.drop_last()) == Seq::<char>::empty());
    assert(s.last() == c);
    assert(concat_chunks(s) == concat_chunks(s.drop_last()) + s.last());
    assert(Seq::<char>::empty() + c =~= c);
}

/// Chunk boundaries do not matter: delivering the chunk at position `i` as
/// two pieces `p` and `q` instead of one piece `p + q` leaves the
/// concatenated output unchanged.
pub proof fn lemma_chunk_split(chunks: Seq<Seq<char>>, i: int, p: Seq<char>, q: Seq<char>)
    requires
        0 <= i < chunks.len(),
        chunks[i] == p + q,
    ensures
        concat_chunks(chunks.take(i) + seq![p, q] + chunks.skip(i + 1)) == concat_chunks(chunks),
{
    let head = chunks.take(i);
    let tail = chunks.skip(i + 1);
    lemma_concat_chunks_app(head + seq![p, q], tail);
    lemma_concat_chunks_app(head, seq![p, q]);
    lemma_concat_chunks_app(head + seq![chunks[i]], tail);
    lemma_concat_chunks_app(head, seq![chunks[i]]);
    assert(concat_chunks(seq![p, q]) == p + q) by {
        assert(seq![p, q].drop_last() =~= seq![p]);
        lemma_concat_chunks_singleton(p);
        assert(concat_chunks(seq![p, q]) == p + q);
    }
    lemma_concat_chunks_singleton(chunks[i]);
    assert(head + seq![chunks[i]] + tail =~= chunks);
    assert(concat_chunks(head) + (p + q) == concat_chunks(head) + chunks[i]);
}

/// Accumulates streamed output chunks into the single combined result string.
/// It remembers, in ghost state, the chunks it was fed, and maintains the
/// invariant that the output is exactly their concatenation in arrival order.
pub struct OutputAccumulator {
    /// The combined output so far.
    pub output: String,
    /// The chunks delivered so far, in arrival order.
    pub chunks: Ghost<Seq<Seq<char>>>,
}

impl OutputAccumulator {
    /// The output is the concatenation of the recorded chunks.
    pub open spec fn wf(self) -> bool {
        self.output@ == concat_chunks(self.chunks@)
    }

    /// An empty accumulator: no chunks seen, empty output.
    pub fn new() -> (r: Self)
        ensures
            r.wf(),
            r.chunks@ == Seq::<Seq<char>>::empty(),
            r.output@ == Seq::<char>::empty(),
    {
        let r = OutputAccumulator { output: String::new(), chunks: Ghost(Seq::empty()) };
        proof {
            assert(concat_chunks(r.chunks@) == Seq::<char>::empty());
        }
        r
    }

    /// Appends one delivered chunk to the combined output.
    pub fn push_chunk(&mut self, chunk: &str)
        requires
            old(self).wf(),
        ensures
            final(self).wf(),
            final(self).chunks@ == old(self).chunks@.push(chunk@),
            final(self).output@ == old(self).output@ + chunk@,
    {
        self.output.append(chunk);
        proof {
            self.chunks@ = self.chunks@.push(chunk@);
            assert(self.chunks@.drop_last() =~= old(self).chunks@);
            assert(self.chunks@.last() == chunk@);
        }
    }

    /// Hands out the combined output once the stream has completed.
    pub fn into_output(self) -> (r: String)
        requires
            self.wf(),
        ensures
            r@ == concat_chunks(self.chunks@),
    {
        self.output
    }
}

/// Concatenates a whole sequence of delivered chunks at once.
pub fn accumulate_chunks(chunks: &Vec<String>) -> (r: String)
    ensures
        r@ == concat_chunks(chunks@.map_values(|c: String| c@)),
{
    let ghost all = chunks@.map_values(|c: String| c@);
    let mut acc = OutputAccumulator::new();
    proof {
        assert(all.take(0) =~= Seq::<Seq<char>>::empty());
    }
    let mut i: usize = 0;
    while i < chunks.len()
        invariant
            i <= chunks.len(),
            acc.wf(),
            acc.chunks@ == all.take(i as int),
            all == chunks@.map_values(|c: String| c@),
        decreases chunks.len() - i,
    {
        acc.push_chunk(chunks[i].as_str());
        proof {
            assert(all.take(i + 1) =~= all.take(i as int).push(all[i as int]));
        }
        i = i + 1;
    }
    proof {
        assert(all.take(chunks@.len() as int) =~= all);
    }
    acc.into_output()
}

} // verus!
