//! Cuts a streamed request body into the parts of a multipart upload.
//!
//! Pieces of the body are collected in a buffer. When a piece arrives and the
//! buffer already holds a full part, the buffer is handed out as a part and
//! the piece starts the next one. So every part but the trailing one holds at
//! least [`PART_SIZE`] bytes, and the parts, in the order in which they were
//! handed out, spell the body.

use vstd::prelude::*;

verus! {

/// Minimum size of every part but the last: 5 MiB.
pub const PART_SIZE: usize = 5242880;

/// Largest body that an upload may carry: 10 GiB.
pub const MAX_BODY_SIZE: u64 = 10737418240;

/// The bytes that a sequence of parts spells when read in order.
pub open spec fn joined(parts: Seq<Seq<u8>>) -> Seq<u8>
    decreases parts.len(),
{
    if parts.len() == 0 {
        Seq::empty()
    } else {
        joined(parts.drop_last()) + parts.last()
    }
}

/// Whether each of `parts` is large enough to be stored as a part that is
/// not the last.
pub open spec fn all_full(parts: Seq<Seq<u8>>) -> bool {
    forall|i: int| 0 <= i < parts.len() ==> (#[trigger] parts[i]).len() >= PART_SIZE
}

/// Parts that are all full hold at least `PART_SIZE` bytes each.
pub proof fn lemma_joined_len(parts: Seq<Seq<u8>>)
    requires
        all_full(parts),
    ensures
        joined(parts).len() >= parts.len() * PART_SIZE,
    decreases parts.len(),
{
    if parts.len() > 0 {
        let init = parts.drop_last();
        assert forall|i: int| 0 <= i < init.len() implies (#[trigger] init[i]).len()
            >= PART_SIZE by {
            assert(init[i] == parts[i]);
        }
        lemma_joined_len(init);
        assert(parts.last() == parts[parts.len() - 1]);
    }
}

/// Appending a part appends its bytes.
pub proof fn lemma_joined_push(parts: Seq<Seq<u8>>, part: Seq<u8>)
    ensures
        joined(parts.push(part)) == joined(parts) + part,
{
    assert(parts.push(part).drop_last() == parts);
    assert(parts.push(part).last() == part);
}

/// What became of a piece of the body that was handed to the assembler.
pub enum Pushed {
    /// The piece was added to the buffer.
    Buffered,
    /// The buffer was full: it is handed out as the next part, and the piece
    /// starts a new buffer.
    Part(Vec<u8>),
    /// With this piece the body would exceed [`MAX_BODY_SIZE`]. The piece was
    /// dropped and nothing changed.
    TooLarge,
}

/// The buffer between the request body and the object store.
pub struct PartAssembler {
    buffer: Vec<u8>,
    handed_out: u32,
    received: u64,
    shipped: Ghost<Seq<Seq<u8>>>,
}

impl PartAssembler {
    /// The invariant of the assembler.
    pub closed spec fn wf(&self) -> bool {
        &&& self.shipped@.len() == self.handed_out
        &&& all_full(self.shipped@)
        &&& self.received == joined(self.shipped@).len() + self.buffer@.len()
        &&& self.received <= MAX_BODY_SIZE
    }

    /// The parts handed out so far, oldest first.
    pub closed spec fn shipped(&self) -> Seq<Seq<u8>> {
        self.shipped@
    }

    /// The bytes that wait in the buffer.
    pub closed spec fn pending(&self) -> Seq<u8> {
        self.buffer@
    }

    /// Everything received so far.
    pub open spec fn body(&self) -> Seq<u8> {
        joined(self.shipped()) + self.pending()
    }

    /// In a well-formed assembler the parts handed out are full, and the
    /// body is within the limit.
    pub proof fn lemma_wf(&self)
        requires
            self.wf(),
        ensures
            all_full(self.shipped()),
            self.body().len() <= MAX_BODY_SIZE,
            self.shipped().len() * PART_SIZE <= self.body().len(),
            self.shipped().len() <= 2048,
    {
        lemma_joined_len(self.shipped@);
    }

    /// An assembler that has received nothing.
    pub fn new() -> (assembler: Self)
        ensures
            assembler.wf(),
            assembler.shipped() == Seq::<Seq<u8>>::empty(),
            assembler.pending() == Seq::<u8>::empty(),
    {
        PartAssembler {
            buffer: Vec::new(),
            handed_out: 0,
            received: 0,
            shipped: Ghost(Seq::empty()),
        }
    }

    /// Number of bytes received so far.
    pub fn received(&self) -> (n: u64)
        requires
            self.wf(),
        ensures
            n == self.body().len(),
            n <= MAX_BODY_SIZE,
    {
        self.received
    }

    /// Number of parts handed out so far.
    pub fn parts_handed_out(&self) -> (n: u32)
        requires
            self.wf(),
        ensures
            n == self.shipped().len(),
            n <= 2048,
    {
        proof {
            self.lemma_wf();
        }
        self.handed_out
    }

    /// Takes the next piece of the body.
    pub fn push(&mut self, piece: Vec<u8>) -> (pushed: Pushed)
        requires
            old(self).wf(),
        ensures
            final(self).wf(),
            match pushed {
                Pushed::TooLarge => {
                    &&& old(self).body().len() + piece@.len() > MAX_BODY_SIZE
                    &&& final(self).shipped() == old(self).shipped()
                    &&& final(self).pending() == old(self).pending()
                },
                Pushed::Part(part) => {
                    &&& old(self).body().len() + piece@.len() <= MAX_BODY_SIZE
                    &&& old(self).pending().len() >= PART_SIZE
                    &&& part@ == old(self).pending()
                    &&& final(self).shipped() == old(self).shipped().push(part@)
                    &&& final(self).pending() == piece@
                },
                Pushed::Buffered => {
                    &&& old(self).body().len() + piece@.len() <= MAX_BODY_SIZE
                    &&& old(self).pending().len() < PART_SIZE
                    &&& final(self).shipped() == old(self).shipped()
                    &&& final(self).pending() == old(self).pending() + piece@
                },
            },
            !(pushed is TooLarge) ==> final(self).body() == old(self).body() + piece@,
    {
        let ghost incoming = piece@;
        let mut piece = piece;
        let room: u64 = MAX_BODY_SIZE - self.received;
        if piece.len() as u64 > room {
            return Pushed::TooLarge;
        }
        self.received = self.received + piece.len() as u64;
        if self.buffer.len() >= PART_SIZE {
            proof {
                lemma_joined_len(self.shipped@.push(self.buffer@));
                lemma_joined_push(self.shipped@, self.buffer@);
            }
            let mut part: Vec<u8> = Vec::new();
            core::mem::swap(&mut self.buffer, &mut part);
            self.buffer = piece;
            self.handed_out = self.handed_out + 1;
            self.shipped = Ghost(self.shipped@.push(part@));
            assert(self.body() == old(self).body() + incoming) by {
                assert(joined(self.shipped@) + incoming == joined(old(self).shipped@) + old(
                    self,
                ).buffer@ + incoming);
            }
            Pushed::Part(part)
        } else {
            self.buffer.append(&mut piece);
            assert(self.body() == old(self).body() + incoming) by {
                assert(joined(self.shipped@) + (old(self).buffer@ + incoming) == joined(
                    self.shipped@,
                ) + old(self).buffer@ + incoming);
            }
            Pushed::Buffered
        }
    }

    /// Ends the body: hands out what is left in the buffer as the trailing
    /// part, which may be smaller than [`PART_SIZE`], or empty.
    pub fn finish(self) -> (part: Vec<u8>)
        requires
            self.wf(),
        ensures
            part@ == self.pending(),
            joined(self.shipped().push(part@)) == self.body(),
    {
        proof {
            lemma_joined_push(self.shipped@, self.buffer@);
        }
        self.buffer
    }
}

} // verus!
