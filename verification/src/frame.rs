//! The frame accumulator: a fixed-capacity buffer that collects serial bytes.
use vstd::prelude::*;
use vstd::slice::slice_subrange;
use crate::protocol::CAPACITY;

verus! {

/// Raised when a byte arrives while the accumulator is already full.
#[derive(Clone, Copy, Debug, PartialEq, Eq, Structural)]
pub struct BufferExhausted;

/// Fixed-capacity byte accumulator with a write cursor.
///
/// Its view is the sequence of bytes accumulated since the last reset.
pub struct Cmdbuf {
    buf: [u8; 128],
    len: u8,
    pos: u8,
}

impl View for Cmdbuf {
    type V = Seq<u8>;

    closed spec fn view(&self) -> Seq<u8> {
        self.buf@.subrange(0, self.pos as int)
    }
}

impl Cmdbuf {
    /// The cursor never passes the capacity.
    #[verifier::type_invariant]
    pub closed spec fn inv(&self) -> bool {
        self.len == CAPACITY && self.pos <= self.len
    }

    /// An accumulator never holds more than its capacity.
    pub proof fn lemma_within_capacity(&self)
        requires
            self.inv(),
        ensures
            self@.len() <= CAPACITY,
    {
    }

    /// A fresh, empty accumulator.
    pub fn new() -> (r: Self)
        ensures
            r@ == Seq::<u8>::empty(),
    {
        Cmdbuf { buf: [0; 128], len: 128, pos: 0 }
    }

    /// Writes `b` at the cursor and advances it, unless the buffer is full.
    pub fn append(&mut self, b: u8) -> (r: Result<(), BufferExhausted>)
        ensures
            old(self)@.len() <= CAPACITY,
            old(self)@.len() < CAPACITY ==> r is Ok && final(self)@ == old(self)@.push(b),
            old(self)@.len() >= CAPACITY ==> r == Err::<(), BufferExhausted>(BufferExhausted)
                && final(self)@ == old(self)@,
    {
        proof {
            use_type_invariant(&*self);
        }
        if self.pos >= self.len {
            return Err(BufferExhausted);
        }
        let at: usize = self.pos as usize;
        self.buf[at] = b;
        self.pos = self.pos + 1;
        assert(self@ =~= old(self)@.push(b));
        Ok(())
    }

    /// Discards everything accumulated so far.
    pub fn reset(&mut self)
        ensures
            final(self)@ == Seq::<u8>::empty(),
    {
        proof {
            use_type_invariant(&*self);
        }
        self.pos = 0;
    }

    /// The bytes accumulated so far, oldest first.
    pub fn get(&self) -> (r: &[u8])
        ensures
            r@ == self@,
            r@.len() <= CAPACITY,
    {
        proof {
            use_type_invariant(self);
        }
        slice_subrange(self.buf.as_slice(), 0, self.pos as usize)
    }
}

} // verus!
