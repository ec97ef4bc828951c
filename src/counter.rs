use vstd::prelude::*;
use crate::pallet::Error;

verus! {

/// Hands out kitty indices in increasing order, never reusing one.
pub struct IdentityCounter {
    next_id: u64,
}

impl IdentityCounter {
    /// The index that the next allocation returns.
    pub closed spec fn next(&self) -> u64 {
        self.next_id
    }

    /// A counter whose first index is 0.
    pub fn new() -> (r: IdentityCounter)
        ensures
            r.next() == 0,
    {
        IdentityCounter { next_id: 0 }
    }

    /// A counter whose first index is `next_id`.
    pub fn starting_at(next_id: u64) -> (r: IdentityCounter)
        ensures
            r.next() == next_id,
    {
        IdentityCounter { next_id }
    }

    /// The index that the next allocation returns.
    pub fn next_id(&self) -> (r: u64)
        ensures
            r == self.next(),
    {
        self.next_id
    }

    /// Returns the current index and advances past it; fails, leaving the
    /// counter as it was, once the index space is used up.
    pub fn allocate(&mut self) -> (r: Result<u64, Error>)
        ensures
            r is Ok <==> old(self).next() < u64::MAX,
            match r {
                Ok(id) => id == old(self).next() && final(self).next() == id + 1,
                Err(e) => e == Error::KittyCountOverflow && *final(self) == *old(self),
            },
    {
        if self.next_id == u64::MAX {
            return Err(Error::KittyCountOverflow);
        }
        let id = self.next_id;
        self.next_id = id + 1;
        Ok(id)
    }
}

} // verus!
