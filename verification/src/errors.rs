use vstd::prelude::*;

verus! {

/// The reason an operation was refused. Every failing operation returns
/// exactly one of these codes and leaves all state unchanged: an
/// operation either fully commits or has no effect at all.
#[derive(Clone, Copy, Debug, PartialEq, Eq, Structural)]
pub enum ErrorCode {
    /// A caller-supplied amount was zero.
    InvalidAmount,
    /// The vault (or the donor, for a donation) cannot cover the
    /// requested movement of value.
    InsufficientFunds,
    /// A campaign was given no milestones, more than five, or
    /// description and percentage lists of different lengths.
    InvalidMilestoneCount,
    /// The milestone percentages of a campaign do not sum to exactly 100.
    InvalidPercentages,
    /// The milestone is not in the pending state, so it cannot be
    /// approved.
    MilestoneNotPending,
    /// The milestone is not in the approved state, so its funds cannot
    /// be released.
    MilestoneNotApproved,
    /// The campaign deadline has not passed yet, so no refund is due.
    DeadlineNotReached,
    /// Every milestone of the campaign is complete, so nothing is
    /// refundable.
    AllMilestonesComplete,
    /// A piece of display text exceeds its documented length bound.
    DescriptionTooLong,
}

} // verus!
