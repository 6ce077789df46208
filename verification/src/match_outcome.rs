//! Outcome of matching one input event against the mapping tables.

use vstd::prelude::*;

verus! {

/// What happened to an input event during one matching pass.
///
/// `Consumed` means the primitive message was absorbed into a composite
/// decode (14-bit controller pair or (N)RPN sequence) and must not be treated
/// as an independent plain match. Outcomes of concurrent passes are combined
/// by [`MatchOutcome::merge_with`], which takes the maximum under the upgrade
/// order `Unmatched < Consumed < Matched`.
#[derive(Copy, Clone, Debug, PartialEq, Eq, Structural)]
pub enum MatchOutcome {
    Unmatched,
    Consumed,
    Matched,
}

impl MatchOutcome {
    /// Position of this outcome in the upgrade order.
    pub open spec fn rank(self) -> int {
        match self {
            MatchOutcome::Unmatched => 0,
            MatchOutcome::Consumed => 1,
            MatchOutcome::Matched => 2,
        }
    }

    /// The merge of two outcomes: the larger one under the upgrade order.
    pub open spec fn spec_merge(self, other: MatchOutcome) -> MatchOutcome {
        if self.rank() >= other.rank() {
            self
        } else {
            other
        }
    }

    /// Merges this outcome with another one, upgrading to the larger of the
    /// two under the order `Unmatched < Consumed < Matched`.
    pub fn merge_with(self, other: MatchOutcome) -> (r: MatchOutcome)
        ensures
            r == self.spec_merge(other),
    {
        let self_rank: u8 = match self {
            MatchOutcome::Unmatched => 0,
            MatchOutcome::Consumed => 1,
            MatchOutcome::Matched => 2,
        };
        let other_rank: u8 = match other {
            MatchOutcome::Unmatched => 0,
            MatchOutcome::Consumed => 1,
            MatchOutcome::Matched => 2,
        };
        if self_rank >= other_rank {
            self
        } else {
            other
        }
    }

    /// Upgrades this outcome in place by merging another one into it.
    pub fn upgrade_from(&mut self, other: MatchOutcome)
        ensures
            *final(self) == old(self).spec_merge(other),
    {
        *self = self.merge_with(other);
    }

    /// Whether the event was matched or consumed (as opposed to unmatched).
    pub fn matched_or_consumed(self) -> (r: bool)
        ensures
            r == (self != MatchOutcome::Unmatched),
    {
        !matches!(self, MatchOutcome::Unmatched)
    }

    /// Whether the event was matched.
    pub fn matched(self) -> (r: bool)
        ensures
            r == (self == MatchOutcome::Matched),
    {
        matches!(self, MatchOutcome::Matched)
    }
}

/// Merging match outcomes is commutative.
pub proof fn lemma_merge_commutative(a: MatchOutcome, b: MatchOutcome)
    ensures
        a.spec_merge(b) == b.spec_merge(a),
{
}

/// Merging match outcomes is associative.
pub proof fn lemma_merge_associative(a: MatchOutcome, b: MatchOutcome, c: MatchOutcome)
    ensures
        a.spec_merge(b).spec_merge(c) == a.spec_merge(b.spec_merge(c)),
{
}

/// `Unmatched` is the identity of the merge.
pub proof fn lemma_merge_identity(a: MatchOutcome)
    ensures
        MatchOutcome::Unmatched.spec_merge(a) == a,
        a.spec_merge(MatchOutcome::Unmatched) == a,
{
}

/// `Matched` absorbs every other outcome under the merge.
pub proof fn lemma_merge_absorbing(a: MatchOutcome)
    ensures
        MatchOutcome::Matched.spec_merge(a) == MatchOutcome::Matched,
        a.spec_merge(MatchOutcome::Matched) == MatchOutcome::Matched,
{
}

} // verus!
