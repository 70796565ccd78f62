use vstd::prelude::*;

verus! {

/// Size of the buffer that file payloads move through.
pub const CHUNK_SIZE: usize = 512;

/// The lengths of the chunks that move `remaining` bytes: full chunks, then
/// what is left; nothing at all for an empty payload.
pub open spec fn chunk_plan(remaining: nat) -> Seq<nat>
    decreases remaining,
{
    if remaining == 0 {
        seq![]
    } else if remaining <= CHUNK_SIZE {
        seq![remaining]
    } else {
        seq![CHUNK_SIZE as nat] + chunk_plan((remaining - CHUNK_SIZE) as nat)
    }
}

pub open spec fn total_of(s: Seq<nat>) -> nat
    decreases s.len(),
{
    if s.len() == 0 {
        0
    } else {
        s[0] + total_of(s.drop_first())
    }
}

/// The chunks of a payload add up to its size, each holds between one byte and
/// a full buffer, and there are as many as full buffers needed to hold it.
pub proof fn lemma_chunk_plan(size: nat)
    ensures
        total_of(chunk_plan(size)) == size,
        forall|i: int| 0 <= i < chunk_plan(size).len() ==> 0 < #[trigger] chunk_plan(size)[i] <= CHUNK_SIZE,
        chunk_plan(size).len() == (size + CHUNK_SIZE - 1) / (CHUNK_SIZE as int),
    decreases size,
{
    if size > CHUNK_SIZE {
        let rest = (size - CHUNK_SIZE) as nat;
        lemma_chunk_plan(rest);
        let p = chunk_plan(size);
        assert(p.drop_first() =~= chunk_plan(rest));
        assert forall|i: int| 0 <= i < p.len() implies 0 < #[trigger] p[i] <= CHUNK_SIZE by {
            if i > 0 {
                assert(p[i] == chunk_plan(rest)[i - 1]);
            }
        }
    } else if size > 0 {
        assert(chunk_plan(size).drop_first() =~= Seq::<nat>::empty());
        assert(total_of(chunk_plan(size).drop_first()) == 0);
    }
}

/// Position within a payload of `size` bytes that moves chunk by chunk.
#[derive(Clone, Copy, Debug, PartialEq, Eq, Structural)]
pub struct Chunker {
    pub size: u64,
    pub moved: u64,
}

impl Chunker {
    pub open spec fn wf(&self) -> bool {
        self.moved <= self.size
    }

    /// The chunks still to move.
    pub open spec fn pending(&self) -> Seq<nat> {
        chunk_plan((self.size - self.moved) as nat)
    }

    pub fn new(size: u64) -> (r: Chunker)
        ensures
            r.wf(),
            r.size == size,
            r.moved == 0,
            r.pending() == chunk_plan(size as nat),
    {
        Chunker { size, moved: 0 }
    }

    /// Whether every byte of the payload has moved: the loop runs while
    /// `moved < size`, so an empty payload moves no chunk at all.
    pub fn is_done(&self) -> (r: bool)
        requires
            self.wf(),
        ensures
            r == (self.moved == self.size),
            r == (self.pending().len() == 0),
    {
        self.moved == self.size
    }

    /// Length of the next chunk: `min(CHUNK_SIZE, size - moved)`, zero when done.
    pub fn next_len(&self) -> (r: usize)
        requires
            self.wf(),
        ensures
            r as int == (if self.size - self.moved < CHUNK_SIZE {
                self.size - self.moved
            } else {
                CHUNK_SIZE as int
            }),
            r > 0 ==> r == self.pending()[0],
            r <= CHUNK_SIZE,
    {
        let rest = self.size - self.moved;
        if rest < CHUNK_SIZE as u64 {
            rest as usize
        } else {
            CHUNK_SIZE
        }
    }

    /// Records that the next chunk has moved.
    pub fn advance(&mut self)
        requires
            old(self).wf(),
            old(self).moved < old(self).size,
        ensures
            final(self).wf(),
            final(self).size == old(self).size,
            final(self).moved > old(self).moved,
            final(self).pending() == old(self).pending().drop_first(),
            final(self).moved - old(self).moved == old(self).pending()[0],
    {
        let n = self.next_len();
        let ghost before = self.pending();
        self.moved = self.moved + n as u64;
        proof {
            let rest = (old(self).size - old(self).moved) as nat;
            if rest > CHUNK_SIZE {
                assert(before.drop_first() =~= chunk_plan((rest - CHUNK_SIZE) as nat));
            } else {
                assert(before.drop_first() =~= Seq::<nat>::empty());
            }
        }
    }
}

} // verus!
