use vstd::prelude::*;

verus! {

/// Euclidean remainder of `a` by a positive modulus: always in `[0, m)`.
pub open spec fn wrap(a: int, m: int) -> int
    recommends
        m > 0,
{
    a % m
}

/// `v` clamped into `[0, bound]`.
pub open spec fn clamp(v: int, bound: int) -> int {
    if v < 0 {
        0
    } else if v > bound {
        bound
    } else {
        v
    }
}

/// A `usize` with an inclusive upper bound.
#[derive(Debug, Default, Clone, Copy, PartialEq, Eq, PartialOrd, Ord, Hash)]
pub struct BoundedUsize {
    /// The current value. Always `<= bound`.
    value: usize,
    /// The largest value `value` may take (inclusive).
    bound: usize,
}

impl BoundedUsize {
    /// The current value.
    pub closed spec fn val(self) -> nat {
        self.value as nat
    }

    /// The inclusive upper bound.
    pub closed spec fn upper(self) -> nat {
        self.bound as nat
    }

    /// The value never exceeds the bound.
    pub open spec fn wf(self) -> bool {
        self.val() <= self.upper()
    }

    /// Makes a new value at zero, with `bound` as the maximum.
    pub fn new_with_bound(bound: usize) -> (r: Self)
        ensures
            r.wf(),
            r.val() == 0,
            r.upper() == bound,
    {
        Self { value: 0, bound }
    }

    /// Sets the value, saturating at the bound.
    pub fn saturating_set(&mut self, value: usize)
        ensures
            final(self).wf(),
            final(self).upper() == old(self).upper(),
            final(self).val() == clamp(value as int, old(self).upper() as int),
    {
        self.value = if value < self.bound {
            value
        } else {
            self.bound
        };
    }

    /// Adds a signed delta, clamping the result into `[0, bound]`.
    pub fn saturating_add_signed(&mut self, delta: isize)
        requires
            old(self).wf(),
        ensures
            final(self).wf(),
            final(self).upper() == old(self).upper(),
            final(self).val() == clamp(old(self).val() + delta, old(self).upper() as int),
    {
        let v: usize = if delta < 0 {
            let d: usize = (0isize - (delta + 1)) as usize + 1;
            if d > self.value {
                0
            } else {
                self.value - d
            }
        } else {
            let d: usize = delta as usize;
            if d > self.bound - self.value {
                self.bound
            } else {
                self.value + d
            }
        };
        self.value = v;
    }

    /// Adds a signed delta, wrapping modulo `bound + 1`.
    pub fn wrapping_add_signed(&mut self, delta: isize)
        requires
            old(self).wf(),
        ensures
            final(self).wf(),
            final(self).upper() == old(self).upper(),
            final(self).val() == wrap(old(self).val() + delta, old(self).upper() + 1int),
    {
        // in i128 neither the sum nor the modulus can overflow
        let value = self.value as i128;
        let bound = self.bound as i128;
        let delta = delta as i128;
        match (value + delta).checked_rem_euclid(bound + 1) {
            Some(r) => {
                self.value = r as usize;
            },
            None => {},
        }
    }

    /// The current value.
    pub fn value(&self) -> (r: usize)
        ensures
            r == self.val(),
    {
        self.value
    }

    /// Whether the value is 0.
    pub fn is_min(&self) -> (r: bool)
        ensures
            r == (self.val() == 0),
    {
        self.value == 0
    }

    /// Whether the value equals the bound.
    pub fn is_max(&self) -> (r: bool)
        ensures
            r == (self.val() == self.upper()),
    {
        self.value == self.bound
    }

    /// Whether the value is at either end of its range (0 or the bound).
    pub fn is_at_bounds(&self) -> (r: bool)
        ensures
            r == (self.val() == 0 || self.val() == self.upper()),
    {
        self.is_min() || self.is_max()
    }
}

/// At the ends of the range a wrapping step crosses over: one step back
/// from 0 gives the bound and one step on from the bound gives 0. From
/// inside the range a saturating move of any size stays in `[0, bound]`.
pub proof fn lemma_bounded_moves(b: BoundedUsize, delta: int)
    requires
        b.wf(),
    ensures
        b.val() == 0 ==> wrap(b.val() - 1int, b.upper() + 1int) == b.upper(),
        b.val() == b.upper() ==> wrap(b.val() + 1int, b.upper() + 1int) == 0,
        0 < b.val() < b.upper() ==> 0 <= clamp(b.val() + delta, b.upper() as int) <= b.upper(),
{
    let m = b.upper() + 1int;
    if b.val() == 0 {
        assert((0int - 1) % m == m - 1) by (nonlinear_arith)
            requires
                m > 0,
        {
        }
    }
    if b.val() == b.upper() {
        assert(m % m == 0) by (nonlinear_arith)
            requires
                m > 0,
        {
        }
    }
}

} // verus!
