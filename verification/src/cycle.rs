//! Cyclic navigation over variant ordinals: the operations the cycle
//! synthesizer emits, and the algebraic laws they obey.

use vstd::arithmetic::div_mod::lemma_add_mod_noop;
use vstd::arithmetic::div_mod::lemma_add_mod_noop_right;
use vstd::arithmetic::div_mod::lemma_mod_division_less_than_divisor;
use vstd::arithmetic::div_mod::lemma_small_mod;
use vstd::prelude::*;

use crate::CycleError;

verus! {

/// The ordinal reached from ordinal `o` by a relative step of `step` places
/// around an enum of `n` variants: `(o + step) mod n` with the Euclidean
/// remainder, so the result lies in `[0, n)` whatever the sign of the step.
pub open spec fn cycle_index(o: int, step: int, n: int) -> int {
    (o + step) % n
}

/// The cyclic-navigation capability synthesized for one enum: the variant
/// count, and the binary width selected for reinterpreting an ordinal as the
/// enum's underlying representation.
///
/// A variant is identified by its **ordinal**, its zero-based position in the
/// declared order; the ordinal-to-variant mapping is the identity on `[0, n)`
/// and therefore a bijection. The absolute operations ([`Self::try_cycle_to`]
/// and [`Self::cycle_to`]) take no starting ordinal at all: they construct
/// the variant at an absolute position. Only [`Self::cycle_by`] and its
/// wrappers are relative to a starting variant.
#[derive(Clone, Copy, Debug, PartialEq, Eq, Structural)]
pub struct CycleCapability {
    /// The number of variants of the enum.
    pub count: usize,
    /// The binary width selected by the ordinal width selector for the
    /// enum's variant count.
    pub width: usize,
}

impl CycleCapability {
    /// A capability is well-formed only for a populated enum.
    pub open spec fn wf(&self) -> bool {
        self.count > 0
    }

    /// The ordinal-to-variant conversion: succeeds exactly on ordinals in
    /// `[0, count)` and returns the ordinal of the variant declared at that
    /// position, which is the ordinal itself.
    pub fn try_from_ordinal(&self, idx: usize) -> (r: Result<usize, CycleError>)
        ensures
            idx < self.count ==> r == Ok::<usize, CycleError>(idx),
            idx >= self.count ==> r == Err::<usize, CycleError>(CycleError::OutOfBounds),
    {
        if idx < self.count {
            Ok(idx)
        } else {
            Err(CycleError::OutOfBounds)
        }
    }

    /// Returns the variant at the absolute position `idx`, or
    /// [`CycleError::OutOfBounds`] if `idx` is not a valid ordinal. The
    /// starting variant plays no part: despite the name, this operation is
    /// absolute, not relative.
    pub fn try_cycle_to(&self, idx: usize) -> (r: Result<usize, CycleError>)
        ensures
            idx < self.count ==> r == Ok::<usize, CycleError>(idx),
            idx >= self.count ==> r == Err::<usize, CycleError>(CycleError::OutOfBounds),
    {
        self.try_from_ordinal(idx)
    }

    /// Returns the variant at the absolute position `idx`, which must be a
    /// valid ordinal.
    pub fn cycle_to(&self, idx: usize) -> (r: usize)
        requires
            idx < self.count,
        ensures
            r == idx,
    {
        self.try_cycle_to(idx).unwrap()
    }

    /// Returns the variant `step` places ahead of the variant at `ordinal`
    /// when `step` is positive, or `step` places behind when it is negative,
    /// wrapping around at both boundaries.
    pub fn cycle_by(&self, ordinal: usize, step: isize) -> (r: usize)
        requires
            self.wf(),
            ordinal < self.count,
        ensures
            r == cycle_index(ordinal as int, step as int, self.count as int),
            r < self.count,
    {
        let t: i128 = ordinal as i128 + step as i128;
        let n: i128 = self.count as i128;
        proof {
            lemma_mod_division_less_than_divisor(t as int, n as int);
        }
        let r: i128 = t.checked_rem_euclid(n).unwrap();
        r as usize
    }

    /// Returns the variant one place ahead of the variant at `ordinal`,
    /// wrapping at the last variant.
    pub fn next(&self, ordinal: usize) -> (r: usize)
        requires
            self.wf(),
            ordinal < self.count,
        ensures
            r == cycle_index(ordinal as int, 1, self.count as int),
            r < self.count,
    {
        self.cycle_by(ordinal, 1)
    }

    /// Returns the variant one place behind the variant at `ordinal`,
    /// wrapping at the first variant.
    pub fn prev(&self, ordinal: usize) -> (r: usize)
        requires
            self.wf(),
            ordinal < self.count,
        ensures
            r == cycle_index(ordinal as int, -1, self.count as int),
            r < self.count,
    {
        self.cycle_by(ordinal, -1)
    }
}

/// Cyclic navigation always lands on a valid ordinal: for a populated enum,
/// the reached position lies in `[0, n)`.
pub proof fn lemma_cycle_index_in_range(o: int, step: int, n: int)
    requires
        n > 0,
    ensures
        0 <= cycle_index(o, step, n) < n,
{
    lemma_mod_division_less_than_divisor(o + step, n);
}

/// A step of zero is the identity: navigating by zero places from a valid
/// ordinal stays at that ordinal.
pub proof fn lemma_cycle_by_zero(o: int, n: int)
    requires
        n > 0,
        0 <= o < n,
    ensures
        cycle_index(o, 0, n) == o,
{
    lemma_small_mod(o as nat, n as nat);
}

/// The group law of cyclic navigation: stepping by `a` and then by `b` lands
/// on the same ordinal as stepping by `a + b` at once. Together with
/// [`lemma_cycle_by_zero`] this makes `cycle_by` the action of the additive
/// group of integers modulo `n` on the ordinals.
pub proof fn lemma_cycle_by_compose(o: int, a: int, b: int, n: int)
    requires
        n > 0,
    ensures
        cycle_index(cycle_index(o, a, n), b, n) == cycle_index(o, a + b, n),
{
    lemma_add_mod_noop_right((o + a) % n, b, n);
    lemma_add_mod_noop(o + a, b, n);
}

/// Steps that agree modulo the variant count navigate alike: stepping by
/// `step` is the same as stepping by `step mod n`.
pub proof fn lemma_cycle_by_step_mod(o: int, step: int, n: int)
    requires
        n > 0,
    ensures
        cycle_index(o, step, n) == cycle_index(o, step % n, n),
{
    lemma_add_mod_noop_right(o, step, n);
}

/// The inverse law: one step forward then one step back returns to the
/// starting variant, and so does one step back then one step forward.
pub proof fn lemma_next_prev_inverse(o: int, n: int)
    requires
        n > 0,
        0 <= o < n,
    ensures
        cycle_index(cycle_index(o, 1, n), -1, n) == o,
        cycle_index(cycle_index(o, -1, n), 1, n) == o,
{
    lemma_cycle_by_compose(o, 1, -1, n);
    lemma_cycle_by_compose(o, -1, 1, n);
    lemma_cycle_by_zero(o, n);
}

} // verus!
