//! The four-valued confidence lattice.

use core::cmp::Ordering;
use core::ops::{BitAnd, BitOr};
use vstd::prelude::*;
use vstd::std_specs::cmp::PartialOrdSpecImpl;
use vstd::std_specs::ops::{BitAndSpecImpl, BitOrSpecImpl};

verus! {

/// Is that value possible to reach?
///
/// The levels are totally ordered by permissiveness:
/// `No < ShouldNot < Should < Yes`.
#[derive(Debug, Clone, Copy, PartialEq, Eq, Structural, Ord, Hash)]
pub enum Possible {
    /// Never reachable, by any mechanism.
    No,
    /// Mathematically unreachable, but rounding error may make it happen.
    ShouldNot,
    /// Mathematically reachable, but rounding error may prevent it.
    Should,
    /// Reachable.
    Yes,
}

impl Possible {
    /// Position of a level in the order `No < ShouldNot < Should < Yes`.
    pub open spec fn rank(self) -> nat {
        match self {
            Possible::No => 0,
            Possible::ShouldNot => 1,
            Possible::Should => 2,
            Possible::Yes => 3,
        }
    }

    /// The more permissive of two levels.
    pub open spec fn join(self, other: Self) -> Self {
        if self.rank() >= other.rank() {
            self
        } else {
            other
        }
    }

    /// The less permissive of two levels.
    pub open spec fn meet(self, other: Self) -> Self {
        if self.rank() <= other.rank() {
            self
        } else {
            other
        }
    }

    /// The position of a level in the order, as a machine integer.
    fn level(self) -> (n: u8)
        ensures
            n == self.rank(),
    {
        match self {
            Possible::No => 0,
            Possible::ShouldNot => 1,
            Possible::Should => 2,
            Possible::Yes => 3,
        }
    }

    /// If something is possible for two reasons, the strongest one wins.
    pub fn any(a: Self, b: Self) -> (r: Self)
        ensures
            r == a.join(b),
    {
        if a >= b {
            a
        } else {
            b
        }
    }
}

impl Default for Possible {
    /// The most permissive level.
    fn default() -> (r: Self)
        ensures
            r == Possible::Yes,
    {
        Possible::Yes
    }
}

impl PartialOrd for Possible {
    fn partial_cmp(&self, other: &Self) -> (r: Option<Ordering>) {
        let a: u8 = self.level();
        let b: u8 = other.level();
        if a < b {
            Some(Ordering::Less)
        } else if a == b {
            Some(Ordering::Equal)
        } else {
            Some(Ordering::Greater)
        }
    }
}

impl PartialOrdSpecImpl for Possible {
    open spec fn obeys_partial_cmp_spec() -> bool {
        true
    }

    open spec fn partial_cmp_spec(&self, other: &Self) -> Option<Ordering> {
        if self.rank() < other.rank() {
            Some(Ordering::Less)
        } else if self.rank() == other.rank() {
            Some(Ordering::Equal)
        } else {
            Some(Ordering::Greater)
        }
    }
}

impl BitOr for Possible {
    type Output = Self;

    /// `a | b` is the more permissive of `a` and `b`.
    fn bitor(self, rhs: Self) -> (r: Self) {
        if self >= rhs {
            self
        } else {
            rhs
        }
    }
}

impl BitOrSpecImpl for Possible {
    open spec fn obeys_bitor_spec() -> bool {
        true
    }

    open spec fn bitor_req(self, rhs: Self) -> bool {
        true
    }

    open spec fn bitor_spec(self, rhs: Self) -> Self {
        self.join(rhs)
    }
}

impl BitAnd for Possible {
    type Output = Self;

    /// `a & b` is the less permissive of `a` and `b`.
    fn bitand(self, rhs: Self) -> (r: Self) {
        if self <= rhs {
            self
        } else {
            rhs
        }
    }
}

impl BitAndSpecImpl for Possible {
    open spec fn obeys_bitand_spec() -> bool {
        true
    }

    open spec fn bitand_req(self, rhs: Self) -> bool {
        true
    }

    open spec fn bitand_spec(self, rhs: Self) -> Self {
        self.meet(rhs)
    }
}

/// `any` does not depend on the order of its arguments.
pub proof fn lemma_join_commutative(a: Possible, b: Possible)
    ensures
        a.join(b) == b.join(a),
{
}

/// Three levels can be combined by `any` in either grouping.
pub proof fn lemma_join_associative(a: Possible, b: Possible, c: Possible)
    ensures
        a.join(b).join(c) == a.join(b.join(c)),
{
}

/// `any` of a level with itself is that level.
pub proof fn lemma_join_idempotent(a: Possible)
    ensures
        a.join(a) == a,
{
}

/// The meet does not depend on the order of its arguments.
pub proof fn lemma_meet_commutative(a: Possible, b: Possible)
    ensures
        a.meet(b) == b.meet(a),
{
}

/// Three levels can be combined by the meet in either grouping.
pub proof fn lemma_meet_associative(a: Possible, b: Possible, c: Possible)
    ensures
        a.meet(b).meet(c) == a.meet(b.meet(c)),
{
}

/// The meet of a level with itself is that level.
pub proof fn lemma_meet_idempotent(a: Possible)
    ensures
        a.meet(a) == a,
{
}

/// `No` is the least level and `Yes` the greatest: `any` of `No` with `No`
/// is `No`, `No` changes nothing under `any`, and `any` with `Yes` on either
/// side is `Yes`. For the meet the two trade places.
pub proof fn lemma_bounds(a: Possible)
    ensures
        Possible::No.join(Possible::No) == Possible::No,
        Possible::No.join(a) == a,
        a.join(Possible::No) == a,
        Possible::Yes.join(a) == Possible::Yes,
        a.join(Possible::Yes) == Possible::Yes,
        Possible::Yes.meet(a) == a,
        a.meet(Possible::Yes) == a,
        Possible::No.meet(a) == Possible::No,
        a.meet(Possible::No) == Possible::No,
{
}

/// Each of `any` and the meet undoes the other.
pub proof fn lemma_absorption(a: Possible, b: Possible)
    ensures
        a.join(a.meet(b)) == a,
        a.meet(a.join(b)) == a,
{
}

/// `any` is `No` only where both levels are, and the meet is `No` as soon
/// as one of them is.
pub proof fn lemma_no(a: Possible, b: Possible)
    ensures
        a.join(b) == Possible::No <==> a == Possible::No && b == Possible::No,
        a.meet(b) == Possible::No <==> a == Possible::No || b == Possible::No,
{
}

} // verus!
