//! The fan-out dispatcher's mapping from challenge name to lane slot.
//!
//! The dispatcher's own task is the single writer of this directory: it
//! looks a challenge up, creates the slot lazily on first sight, and keeps
//! at most one slot per challenge. The worker behind a slot may retire on
//! idle; the slot then goes stale and the dispatcher re-uses it for the
//! fresh lane it spawns, so the one-slot-per-challenge mapping is kept.

use vstd::prelude::*;

verus! {

/// The challenge-name-to-slot directory; slot `i` stands for the lane keyed
/// by the `i`-th name.
pub struct LaneDirectory {
    /// The challenge names with a slot, in slot order.
    pub names: Vec<String>,
}

impl LaneDirectory {
    /// At most one slot per challenge name.
    pub open spec fn wf(&self) -> bool {
        forall|i: int, j: int|
            0 <= i < j < self.names@.len() ==> self.names@[i]@ != self.names@[j]@
    }

    /// An empty directory.
    pub fn new() -> (r: LaneDirectory)
        ensures
            r.names@.len() == 0,
            r.wf(),
    {
        LaneDirectory { names: Vec::new() }
    }

    /// How many slots exist.
    pub fn len(&self) -> (r: usize)
        ensures
            r == self.names@.len(),
    {
        self.names.len()
    }

    /// The slot mapped to the challenge, if one exists.
    pub fn find(&self, name: &String) -> (r: Option<usize>)
        ensures
            r matches Some(i) ==> i < self.names@.len() && self.names@[i as int]@ == name@,
            r is None ==> forall|j: int| 0 <= j < self.names@.len() ==> self.names@[j]@ != name@,
    {
        let mut i: usize = 0;
        while i < self.names.len()
            invariant
                i <= self.names@.len(),
                forall|j: int| 0 <= j < i ==> self.names@[j]@ != name@,
            decreases self.names@.len() - i,
        {
            if self.names[i] == *name {
                return Some(i);
            }
            i += 1;
        }
        None
    }

    /// The slot for the challenge: the existing one, or a fresh slot
    /// appended for it. Returns the slot and whether it was created, so the
    /// caller can spawn the lane worker behind a fresh slot.
    pub fn slot_for(&mut self, name: &String) -> (r: (usize, bool))
        requires
            old(self).wf(),
        ensures
            final(self).wf(),
            r.0 < final(self).names@.len(),
            final(self).names@[r.0 as int]@ == name@,
            r.1 ==> final(self).names@ == old(self).names@.push(final(self).names@[r.0 as int])
                && r.0 == old(self).names@.len(),
            !r.1 ==> final(self).names@ == old(self).names@,
            r.1 <==> (forall|j: int|
                0 <= j < old(self).names@.len() ==> old(self).names@[j]@ != name@),
    {
        match self.find(name) {
            Some(i) => (i, false),
            None => {
                let slot = self.names.len();
                self.names.push(String::from_str(name.as_str()));
                (slot, true)
            },
        }
    }
}

} // verus!
