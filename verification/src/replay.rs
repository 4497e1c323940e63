//! The receive-side replay window: the highest accepted nonce `H` and a
//! 1024-slot bitmap covering the nonces `(H - 1024, H]`. A nonce at or below
//! `H - 1024` is rejected as too old; a nonce inside the window is rejected
//! when its slot is already marked; a nonce above `H` slides the window.
//!
//! The window carries the ghost set of every nonce it has ever accepted; its
//! well-formedness ties the bitmap to that set, so rejection of duplicates is
//! a property of the whole history, not only of the bitmap's 1024 slots.

use vstd::prelude::*;
use vstd::std_specs::vec::vec_index_mut;

use crate::KScopeError;

verus! {

/// The bitmap slot that tracks a nonce while it is inside the window.
pub open spec fn slot(n: u64) -> int {
    (n % 1024) as int
}

/// Whether a nonce lies inside the window whose highest accepted nonce is `h`:
/// the 1024 values `(h - 1024, h]`.
pub open spec fn in_window(n: u64, h: u64) -> bool {
    n <= h && n + 1024 > h
}

/// Two distinct nonces less than 1024 apart occupy distinct slots.
proof fn lemma_slot_distinct(a: u64, b: u64)
    requires
        a < b,
        b - a < 1024,
    ensures
        slot(a) != slot(b),
{
    assert(a < b && b - a < 1024 ==> a % 1024 != b % 1024) by (bit_vector);
}

/// The sliding replay window of the receive direction.
pub struct ReplayWindow {
    /// Highest accepted nonce; 0 before anything was accepted.
    h: u64,
    /// One slot per nonce residue; `bits[slot(n)]` tracks `n` while `n` is in
    /// the window.
    bits: Vec<bool>,
    /// Every nonce ever accepted.
    accepted: Ghost<Set<u64>>,
}

impl ReplayWindow {
    /// The highest accepted nonce, `H`.
    pub closed spec fn highest(self) -> u64 {
        self.h
    }

    /// The set of every nonce this window has accepted.
    pub closed spec fn accepted_set(self) -> Set<u64> {
        self.accepted@
    }

    /// Well-formedness: the bitmap has 1024 slots; inside the window the
    /// bitmap agrees with the accepted set; nothing above `H` was accepted;
    /// and `H` itself is the latest acceptance (or 0 before the first).
    pub closed spec fn wf(self) -> bool {
        &&& self.bits@.len() == 1024
        &&& forall|n: u64|
            in_window(n, self.h) ==> (self.bits@[#[trigger] slot(n)]
                <==> self.accepted@.contains(n))
        &&& forall|n: u64| #[trigger] self.accepted@.contains(n) ==> n <= self.h
        &&& (self.accepted@ =~= Set::<u64>::empty() ==> self.h == 0)
        &&& (!(self.accepted@ =~= Set::<u64>::empty()) ==> self.accepted@.contains(self.h))
    }

    /// A fresh window: nothing accepted, `H` at 0, so the acceptable nonces
    /// are exactly 0 and everything above.
    pub fn new() -> (r: Self)
        ensures
            r.wf(),
            r.highest() == 0,
            r.accepted_set() =~= Set::<u64>::empty(),
    {
        let bits: Vec<bool> = vec![false; 1024];
        let r = ReplayWindow { h: 0u64, bits, accepted: Ghost(Set::empty()) };
        assert forall|n: u64| in_window(n, r.h) implies (r.bits@[#[trigger] slot(n)]
            <==> r.accepted@.contains(n)) by {
            assert(0 <= slot(n) < 1024);
            assert(!r.bits@[slot(n)]);
        }
        r
    }

    /// Tests a nonce against the window without changing it.
    ///
    /// Replay rejection: every nonce accepted before is refused — as
    /// `ReplayOld` at or below the window's lower edge, as `ReplayDuplicate`
    /// inside the window — and so is every nonce 1024 or more below `H`,
    /// accepted before or not. `Ok` exactly when the nonce is new and in
    /// range.
    pub fn check(&self, nonce: u64) -> (r: Result<(), KScopeError>)
        requires
            self.wf(),
        ensures
            match r {
                Ok(()) => !self.accepted_set().contains(nonce) && nonce + 1024 > self.highest(),
                Err(KScopeError::ReplayOld) => nonce + 1024 <= self.highest(),
                Err(KScopeError::ReplayDuplicate) => self.accepted_set().contains(nonce),
                Err(_) => false,
            },
            self.accepted_set().contains(nonce) ==> r is Err,
            nonce + 1024 <= self.highest() ==> r matches Err(KScopeError::ReplayOld),
    {
        if self.h >= 1024 && nonce <= self.h - 1024 {
            return Err(KScopeError::ReplayOld);
        }
        if nonce <= self.h {
            assert(in_window(nonce, self.h));
            let idx = (nonce % 1024) as usize;
            assert(idx == slot(nonce));
            if self.bits[idx] {
                return Err(KScopeError::ReplayDuplicate);
            }
            return Ok(());
        }
        Ok(())
    }

    /// Marks a fresh, in-range nonce as accepted, sliding the window forward
    /// when the nonce is above `H`. Afterwards the accepted set has grown by
    /// exactly this nonce and `H` is the maximum of its old value and the
    /// nonce.
    pub fn record(&mut self, nonce: u64)
        requires
            old(self).wf(),
            !old(self).accepted_set().contains(nonce),
            nonce + 1024 > old(self).highest(),
        ensures
            final(self).wf(),
            final(self).accepted_set() =~= old(self).accepted_set().insert(nonce),
            final(self).highest() == if nonce > old(self).highest() {
                nonce
            } else {
                old(self).highest()
            },
    {
        let ghost old_h = self.h;
        let ghost old_bits = self.bits@;
        let ghost old_accepted = self.accepted@;
        if nonce > self.h {
            if nonce - self.h >= 1024 {
                // Everything previously tracked falls out of the new window.
                let mut j: usize = 0;
                while j < 1024
                    invariant
                        self.bits@.len() == 1024,
                        j <= 1024,
                        forall|i: int| 0 <= i < j ==> !self.bits@[i],
                        self.h == old_h,
                        self.accepted@ == old_accepted,
                    decreases 1024 - j,
                {
                    *vec_index_mut(&mut self.bits, j) = false;
                    j = j + 1;
                }
            } else {
                // Clear the slots of the nonces that newly enter the window;
                // the slots of nonces that stay in the window are untouched
                // because any two in-window nonces occupy distinct slots.
                let mut k: u64 = self.h + 1;
                while k < nonce
                    invariant
                        self.bits@.len() == 1024,
                        old_h < k <= nonce,
                        nonce - old_h < 1024,
                        self.h == old_h,
                        self.accepted@ == old_accepted,
                        forall|m: u64| old_h < m < k ==> !self.bits@[#[trigger] slot(m)],
                        forall|m: u64|
                            in_window(m, old_h) && m + 1024 > nonce ==> self.bits@[
                                #[trigger] slot(m)
                            ] == old_bits[slot(m)],
                    decreases nonce - k,
                {
                    let idx = (k % 1024) as usize;
                    assert(idx == slot(k));
                    *vec_index_mut(&mut self.bits, idx) = false;
                    proof {
                        assert forall|m: u64| old_h < m < k + 1 implies !self.bits@[
                            #[trigger] slot(m)
                        ] by {
                            if m < k {
                                lemma_slot_distinct(m, k);
                            }
                        }
                        assert forall|m: u64|
                            in_window(m, old_h) && m + 1024 > nonce implies self.bits@[
                            #[trigger] slot(m)
                        ] == old_bits[slot(m)] by {
                            assert(m <= old_h < k);
                            lemma_slot_distinct(m, k);
                        }
                    }
                    k = k + 1;
                }
            }
            let idx = (nonce % 1024) as usize;
            assert(idx == slot(nonce));
            *vec_index_mut(&mut self.bits, idx) = true;
            self.h = nonce;
            proof {
                self.accepted@ = old_accepted.insert(nonce);
                assert forall|n: u64| in_window(n, self.h) implies (self.bits@[#[trigger] slot(n)]
                    <==> self.accepted@.contains(n)) by {
                    if n == nonce {
                    } else {
                        assert(n < nonce);
                        lemma_slot_distinct(n, nonce);
                        if nonce - old_h >= 1024 {
                            // the slot was cleared wholesale and n is too new
                            // to have been accepted before
                            assert(!self.bits@[slot(n)]);
                            assert(n > old_h);
                            assert(!old_accepted.contains(n));
                        } else if n > old_h {
                            // the slot was cleared as n entered the window
                            assert(!self.bits@[slot(n)]);
                            assert(!old_accepted.contains(n));
                        } else {
                            // n stays in the window: its slot carried over
                            assert(in_window(n, old_h) && n + 1024 > nonce);
                            assert(self.bits@[slot(n)] == old_bits[slot(n)]);
                            assert(in_window(n, old_h));
                        }
                    }
                }
            }
        } else {
            assert(in_window(nonce, self.h));
            let idx = (nonce % 1024) as usize;
            assert(idx == slot(nonce));
            *vec_index_mut(&mut self.bits, idx) = true;
            proof {
                self.accepted@ = old_accepted.insert(nonce);
                assert forall|n: u64| in_window(n, self.h) implies (self.bits@[#[trigger] slot(n)]
                    <==> self.accepted@.contains(n)) by {
                    if n != nonce {
                        if n < nonce {
                            lemma_slot_distinct(n, nonce);
                        } else {
                            lemma_slot_distinct(nonce, n);
                        }
                        assert(self.bits@[slot(n)] == old_bits[slot(n)]);
                    }
                }
                if old_accepted =~= Set::<u64>::empty() {
                    assert(old_h == 0);
                    assert(nonce == 0);
                }
            }
        }
    }
}

} // verus!
