//! Adapter that lets a blocking SPI peripheral stand where an asynchronous
//! bus is asked for.

use vstd::prelude::*;

verus! {

/// Wrapper of a blocking peripheral.
pub struct BlockingAsync<T> {
    wrapped: T,
}

impl<T> BlockingAsync<T> {
    /// The peripheral inside the wrapper.
    pub closed spec fn wrapped(&self) -> T {
        self.wrapped
    }

    /// Create a new instance of a wrapper for a given peripheral.
    pub fn new(wrapped: T) -> (adapter: Self)
        ensures
            adapter.wrapped() == wrapped,
    {
        Self { wrapped }
    }

    /// Gives the peripheral back.
    pub fn into_inner(self) -> (wrapped: T)
        ensures
            wrapped == self.wrapped(),
    {
        self.wrapped
    }

    /// Access to the peripheral, to run a blocking operation on it.
    pub fn get_mut(&mut self) -> (wrapped: &mut T)
        ensures
            *wrapped == old(self).wrapped(),
            final(self).wrapped() == *final(wrapped),
    {
        &mut self.wrapped
    }
}

/// The buffer that a full-duplex transfer hands to the blocking peripheral:
/// the bytes to write fill the front of the read buffer, as far as both
/// reach, and the rest of the read buffer stays.
pub open spec fn spec_transfer_buffer(read: Seq<u8>, write: Seq<u8>) -> Seq<u8> {
    Seq::new(
        read.len(),
        |i: int|
            if i < write.len() {
                write[i]
            } else {
                read[i]
            },
    )
}

/// Prepares a full-duplex transfer in place: copies the bytes to write into
/// the front of the read buffer, as far as both reach. The blocking
/// peripheral then transfers the read buffer.
pub fn prepare_transfer(read: &mut [u8], write: &[u8])
    ensures
        final(read)@ == spec_transfer_buffer(old(read)@, write@),
{
    let n = if read.len() < write.len() {
        read.len()
    } else {
        write.len()
    };
    let mut i: usize = 0;
    while i < n
        invariant
            i <= n,
            n <= read@.len(),
            n <= write@.len(),
            read@.len() == old(read)@.len(),
            forall|j: int| 0 <= j < i ==> read@[j] == write@[j],
            forall|j: int| i <= j < read@.len() ==> read@[j] == old(read)@[j],
        decreases n - i,
    {
        read[i] = write[i];
        i = i + 1;
    }
    assert(read@ =~= spec_transfer_buffer(old(read)@, write@));
}

} // verus!
