//! A slot pool with stable handles: the storage behind the widget tree and
//! the scene graph. Slots are never recycled by this model, so a freed
//! handle stays dead.

use vstd::prelude::*;

verus! {

/// A stable reference to one pool slot.
#[derive(Clone, Copy, Debug, PartialEq, Eq, Structural, Hash)]
pub struct Handle {
    /// Slot index; the none handle uses the largest index.
    pub index: u32,
}

impl Handle {
    /// The handle that refers to nothing.
    pub fn none() -> (h: Handle)
        ensures
            h.index == u32::MAX,
    {
        Handle { index: u32::MAX }
    }

    /// True for the none handle.
    pub open spec fn spec_is_none(self) -> bool {
        self.index == u32::MAX
    }

    /// True for the none handle.
    pub fn is_none(&self) -> (r: bool)
        ensures
            r == self.spec_is_none(),
    {
        self.index == u32::MAX
    }

    /// True for any handle but the none handle.
    pub fn is_some(&self) -> (r: bool)
        ensures
            r == !self.spec_is_none(),
    {
        self.index != u32::MAX
    }
}

/// A pool of optional payloads; a `None` slot is a freed object.
#[derive(Debug)]
pub struct Pool<T> {
    /// The slots, in spawn order.
    pub records: Vec<Option<T>>,
}

impl<T> Pool<T> {
    /// An empty pool.
    pub fn new() -> (p: Pool<T>)
        ensures
            p.records@.len() == 0,
    {
        Pool { records: Vec::new() }
    }

    /// True when `h` refers to a live object of this pool.
    pub open spec fn spec_is_valid(self, h: Handle) -> bool {
        h.index < self.records@.len() && self.records@[h.index as int] is Some
    }

    /// True when `h` refers to a live object of this pool.
    pub fn is_valid(&self, h: Handle) -> (r: bool)
        ensures
            r == self.spec_is_valid(h),
    {
        (h.index as usize) < self.records.len() && self.records[h.index as usize].is_some()
    }

    /// Adds an object and returns its handle.
    pub fn spawn(&mut self, t: T) -> (h: Handle)
        requires
            old(self).records@.len() < u32::MAX,
        ensures
            h.index == old(self).records@.len(),
            final(self).records@ == old(self).records@.push(Option::Some(t)),
            final(self).spec_is_valid(h),
    {
        let h = Handle { index: self.records.len() as u32 };
        self.records.push(Option::Some(t));
        h
    }

    /// Read access to a live object.
    pub fn borrow(&self, h: Handle) -> (r: &T)
        requires
            self.spec_is_valid(h),
        ensures
            Option::Some(*r) == self.records@[h.index as int],
    {
        match &self.records[h.index as usize] {
            Option::Some(t) => t,
            Option::None => vstd::pervasive::unreached(),
        }
    }

    /// Read access to an object that may be dead.
    pub fn try_borrow(&self, h: Handle) -> (r: Option<&T>)
        ensures
            match r {
                Option::Some(t) => self.spec_is_valid(h) && Option::Some(*t)
                    == self.records@[h.index as int],
                Option::None => !self.spec_is_valid(h),
            },
    {
        if (h.index as usize) < self.records.len() {
            match &self.records[h.index as usize] {
                Option::Some(t) => Option::Some(t),
                Option::None => Option::None,
            }
        } else {
            Option::None
        }
    }

    /// Takes a live object out of its slot, leaving the slot empty.
    pub fn take(&mut self, h: Handle) -> (r: T)
        requires
            old(self).spec_is_valid(h),
        ensures
            Option::Some(r) == old(self).records@[h.index as int],
            final(self).records@ == old(self).records@.update(h.index as int, Option::None),
    {
        let mut taken: Option<T> = Option::None;
        core::mem::swap(&mut self.records[h.index as usize], &mut taken);
        match taken {
            Option::Some(t) => t,
            Option::None => vstd::pervasive::unreached(),
        }
    }

    /// Puts an object back into an empty slot.
    pub fn put_back(&mut self, h: Handle, t: T)
        requires
            h.index < old(self).records@.len(),
            old(self).records@[h.index as int] is None,
        ensures
            final(self).records@ == old(self).records@.update(h.index as int, Option::Some(t)),
            final(self).spec_is_valid(h),
    {
        self.records[h.index as usize] = Option::Some(t);
    }

    /// Frees a slot; freeing a dead or dangling handle does nothing.
    pub fn free(&mut self, h: Handle)
        ensures
            final(self).records@.len() == old(self).records@.len(),
            h.index < old(self).records@.len() ==> final(self).records@ == old(
                self,
            ).records@.update(h.index as int, Option::None),
            h.index >= old(self).records@.len() ==> final(self).records@ == old(self).records@,
    {
        if (h.index as usize) < self.records.len() {
            self.records[h.index as usize] = Option::None;
            proof {
                assert(self.records@ =~= old(self).records@.update(h.index as int, Option::None));
            }
        }
    }

    /// How many objects are alive.
    pub fn alive_count(&self) -> (n: usize)
        ensures
            n == count_alive(self.records@, self.records@.len() as int),
    {
        let mut n: usize = 0;
        let mut i: usize = 0;
        while i < self.records.len()
            invariant
                i <= self.records@.len(),
                n == count_alive(self.records@, i as int),
                n <= i,
            decreases self.records@.len() - i,
        {
            if self.records[i].is_some() {
                n = n + 1;
            }
            i = i + 1;
        }
        n
    }
}

/// Number of live slots among the first `i` records.
pub open spec fn count_alive<T>(records: Seq<Option<T>>, i: int) -> int
    decreases i,
{
    if i <= 0 {
        0
    } else {
        count_alive(records, i - 1) + if records[i - 1] is Some {
            1int
        } else {
            0int
        }
    }
}

} // verus!
