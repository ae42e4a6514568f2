//! A buffer in which a proof too large for one message is assembled from chunks.

use vstd::prelude::*;

verus! {

/// What a buffered proof is for.
#[derive(Clone, Copy, PartialEq, Eq, Debug, Structural)]
pub enum ProofType {
    /// Hole-card commitments.
    Deck,
    /// Community-card reveals.
    Reveal,
    /// Hand rank at showdown.
    Showdown,
}

impl Default for ProofType {
    fn default() -> (proof_type: Self)
        ensures
            proof_type == ProofType::Deck,
    {
        ProofType::Deck
    }
}

/// A refused operation on a proof buffer.
#[derive(Clone, Copy, PartialEq, Eq, Debug, Structural)]
pub enum ProofBufferError {
    /// The chunk would end beyond the declared size.
    ChunkOverflow,
    /// The buffer is read before it is complete.
    IncompleteBuffer,
}

/// A byte region of declared size that one player fills chunk by chunk.
#[derive(Clone, PartialEq, Eq, Debug)]
pub struct ProofBuffer {
    /// The hand the proof belongs to.
    pub hand: [u8; 32],
    /// The player who uploads.
    pub player: [u8; 32],
    /// What the proof is for.
    pub proof_type: ProofType,
    /// Declared size of the payload.
    pub size: u16,
    /// The furthest end offset that a chunk has reached.
    pub uploaded: u16,
    /// Whether `uploaded` has reached `size`.
    pub complete: bool,
    /// Address bump of the buffer record.
    pub bump: u8,
    /// The payload, `size` bytes.
    pub data: Vec<u8>,
}

/// The bytes of `data` with `chunk` written over them from `offset` on.
pub open spec fn overwritten(data: Seq<u8>, offset: int, chunk: Seq<u8>) -> Seq<u8> {
    Seq::new(
        data.len(),
        |i: int|
            if offset <= i < offset + chunk.len() {
                chunk[i - offset]
            } else {
                data[i]
            },
    )
}

impl ProofBuffer {
    /// Bytes of a buffer record besides its payload.
    pub const BASE_LEN: usize = 83;

    /// Bytes that a buffer record for a proof of `proof_size` bytes takes.
    pub fn space(proof_size: u16) -> (bytes: usize)
        ensures
            bytes == ProofBuffer::BASE_LEN + proof_size,
    {
        Self::BASE_LEN + proof_size as usize
    }

    /// The payload has the declared size.
    pub open spec fn sized(&self) -> bool {
        self.data@.len() == self.size
    }

    /// The payload has the declared size, the frontier lies within it, and the
    /// buffer is complete only if the frontier has reached the end; a buffer that
    /// has to hold anything is complete as soon as it has.
    pub open spec fn wf(&self) -> bool {
        &&& self.sized()
        &&& self.uploaded <= self.size
        &&& self.complete ==> self.uploaded == self.size
        &&& self.uploaded == self.size && self.size > 0 ==> self.complete
    }

    /// Resets the record to an empty buffer of `size` zero bytes.
    pub fn init(
        &mut self,
        hand: [u8; 32],
        player: [u8; 32],
        proof_type: ProofType,
        size: u16,
        bump: u8,
    )
        ensures
            final(self).hand == hand,
            final(self).player == player,
            final(self).proof_type == proof_type,
            final(self).size == size,
            final(self).uploaded == 0,
            !final(self).complete,
            final(self).bump == bump,
            final(self).data@ == Seq::new(size as nat, |i: int| 0u8),
            final(self).wf(),
    {
        self.hand = hand;
        self.player = player;
        self.proof_type = proof_type;
        self.size = size;
        self.uploaded = 0;
        self.complete = false;
        self.bump = bump;
        let mut data: Vec<u8> = Vec::new();
        let mut i: u16 = 0;
        while i < size
            invariant
                i <= size,
                data@ == Seq::new(i as nat, |j: int| 0u8),
            decreases size - i,
        {
            data.push(0u8);
            i += 1;
        }
        self.data = data;
    }

    /// Writes `chunk` at `offset`. A chunk that would end beyond the declared size
    /// is refused and nothing is written. Otherwise the frontier moves to the end
    /// of the chunk if that is further than it was, and the buffer is complete once
    /// the frontier has reached the declared size. Chunks may overlap and may come
    /// in any order: only the frontier is tracked, not which bytes were written.
    pub fn upload_chunk(&mut self, offset: u16, chunk: &[u8]) -> (res: Result<(), ProofBufferError>)
        requires
            old(self).sized(),
        ensures
            final(self).sized(),
            old(self).wf() ==> final(self).wf(),
            res is Ok <==> offset + chunk@.len() <= old(self).size,
            res is Err ==> res == Err::<(), _>(ProofBufferError::ChunkOverflow) && *final(self)
                == *old(self),
            res is Ok ==> {
                &&& final(self).data@ == overwritten(old(self).data@, offset as int, chunk@)
                &&& final(self).uploaded == if offset + chunk@.len() > old(self).uploaded {
                    offset + chunk@.len()
                } else {
                    old(self).uploaded as int
                }
                &&& final(self).complete == (old(self).complete || final(self).uploaded
                    >= old(self).size)
                &&& final(self).hand == old(self).hand
                &&& final(self).player == old(self).player
                &&& final(self).proof_type == old(self).proof_type
                &&& final(self).size == old(self).size
                &&& final(self).bump == old(self).bump
            },
    {
        let start = offset as usize;
        let size = self.size as usize;
        if start > size || chunk.len() > size - start {
            return Err(ProofBufferError::ChunkOverflow);
        }
        let end = start + chunk.len();
        let mut i: usize = 0;
        while i < chunk.len()
            invariant
                i <= chunk@.len(),
                start + chunk@.len() == end <= size,
                self.data@.len() == size,
                self.data@ == overwritten(old(self).data@, start as int, chunk@.take(i as int)),
                self.hand == old(self).hand,
                self.player == old(self).player,
                self.proof_type == old(self).proof_type,
                self.size == old(self).size,
                self.uploaded == old(self).uploaded,
                self.complete == old(self).complete,
                self.bump == old(self).bump,
            decreases chunk@.len() - i,
        {
            self.data[start + i] = chunk[i];
            i += 1;
        }
        assert(chunk@.take(chunk@.len() as int) == chunk@);
        let new_uploaded = end as u16;
        if new_uploaded > self.uploaded {
            self.uploaded = new_uploaded;
        }
        if self.uploaded >= self.size {
            self.complete = true;
        }
        Ok(())
    }

    /// The assembled payload, once the buffer is complete.
    pub fn get_proof_data(&self) -> (res: Result<&[u8], ProofBufferError>)
        ensures
            res is Ok <==> self.complete,
            res matches Ok(data) ==> data@ == self.data@,
            res matches Err(e) ==> e == ProofBufferError::IncompleteBuffer,
    {
        if !self.complete {
            return Err(ProofBufferError::IncompleteBuffer);
        }
        Ok(self.data.as_slice())
    }
}

} // verus!
