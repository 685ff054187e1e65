//! How deep downstream processing may go, and the order of the depths.

use std::cmp::Ordering;
use vstd::prelude::*;
use vstd::std_specs::cmp::PartialOrdSpecImpl;

verus! {

/// Processing depth authorised for one spectral object, shallowest first.
#[derive(Clone, Copy, Debug, PartialEq, Eq, Ord, Hash, Structural)]
pub enum ExcavationDepth {
    Sniff,
    DigLight,
    DigFull,
}

impl ExcavationDepth {
    /// Position of the depth in the order: 0 for `Sniff`, 1 for `DigLight`,
    /// 2 for `DigFull`.
    pub open spec fn rank(&self) -> int {
        match self {
            ExcavationDepth::Sniff => 0,
            ExcavationDepth::DigLight => 1,
            ExcavationDepth::DigFull => 2,
        }
    }

    /// `self` is at most as deep as `other`.
    pub open spec fn at_most(&self, other: &ExcavationDepth) -> bool {
        self.rank() <= other.rank()
    }

    /// `self` is strictly shallower than `other`.
    pub open spec fn shallower(&self, other: &ExcavationDepth) -> bool {
        self.rank() < other.rank()
    }

    /// How `self` compares with `other` by rank.
    pub open spec fn order(&self, other: &ExcavationDepth) -> Ordering {
        if self.rank() < other.rank() {
            Ordering::Less
        } else if self.rank() == other.rank() {
            Ordering::Equal
        } else {
            Ordering::Greater
        }
    }

    /// The rank as a machine integer.
    pub fn rank_value(&self) -> (r: u8)
        ensures
            r == self.rank(),
    {
        match self {
            ExcavationDepth::Sniff => 0,
            ExcavationDepth::DigLight => 1,
            ExcavationDepth::DigFull => 2,
        }
    }

    /// Compares two depths by rank.
    pub fn compare(&self, other: &ExcavationDepth) -> (r: Ordering)
        ensures
            r == self.order(other),
            (r == Ordering::Equal) <==> (*self == *other),
    {
        let a: u8 = self.rank_value();
        let b: u8 = other.rank_value();
        if a < b {
            Ordering::Less
        } else if a == b {
            Ordering::Equal
        } else {
            Ordering::Greater
        }
    }
}

impl PartialOrd for ExcavationDepth {
    fn partial_cmp(&self, other: &ExcavationDepth) -> (r: Option<Ordering>) {
        Some(self.compare(other))
    }
}

impl PartialOrdSpecImpl for ExcavationDepth {
    open spec fn obeys_partial_cmp_spec() -> bool {
        true
    }

    open spec fn partial_cmp_spec(&self, other: &ExcavationDepth) -> Option<Ordering> {
        Some(self.order(other))
    }
}

/// The three depths stand in the order `Sniff < DigLight < DigFull`.
pub proof fn lemma_depth_chain()
    ensures
        ExcavationDepth::Sniff.shallower(&ExcavationDepth::DigLight),
        ExcavationDepth::DigLight.shallower(&ExcavationDepth::DigFull),
        ExcavationDepth::Sniff.shallower(&ExcavationDepth::DigFull),
{
}

/// Every depth is at most as deep as itself.
pub proof fn lemma_depth_reflexive(a: ExcavationDepth)
    ensures
        a.at_most(&a),
        a.order(&a) == Ordering::Equal,
{
}

/// Two depths that are each at most as deep as the other are the same depth.
pub proof fn lemma_depth_antisymmetric(a: ExcavationDepth, b: ExcavationDepth)
    requires
        a.at_most(&b),
        b.at_most(&a),
    ensures
        a == b,
{
}

/// The order passes along chains of depths.
pub proof fn lemma_depth_transitive(a: ExcavationDepth, b: ExcavationDepth, c: ExcavationDepth)
    requires
        a.at_most(&b),
        b.at_most(&c),
    ensures
        a.at_most(&c),
{
}

/// Any two depths are comparable, and exactly one of less, equal and greater
/// holds between them.
pub proof fn lemma_depth_total(a: ExcavationDepth, b: ExcavationDepth)
    ensures
        a.at_most(&b) || b.at_most(&a),
        a.shallower(&b) || a == b || b.shallower(&a),
        !(a.shallower(&b) && b.shallower(&a)),
        a.shallower(&b) ==> a != b,
        a.shallower(&b) <==> a.order(&b) == Ordering::Less,
        a == b <==> a.order(&b) == Ordering::Equal,
        b.shallower(&a) <==> a.order(&b) == Ordering::Greater,
{
}

} // verus!
