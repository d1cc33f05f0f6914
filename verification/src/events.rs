use vstd::prelude::*;

verus! {

/// Fact emitted once per successful donation.
#[derive(Clone, Copy, Debug, PartialEq, Eq, Structural)]
pub struct DonationMade {
    pub donor: u64,
    pub pool: u64,
    pub amount: u64,
    pub donation_type: u8,
}

/// Fact emitted once per successful withdrawal from a pool vault.
#[derive(Clone, Copy, Debug, PartialEq, Eq, Structural)]
pub struct PoolWithdrawal {
    pub pool: u64,
    pub recipient: u64,
    pub amount: u64,
}

/// Fact emitted once per successful campaign creation.
#[derive(Clone, Copy, Debug, PartialEq, Eq, Structural)]
pub struct CampaignCreated {
    pub campaign: u64,
    pub pool: u64,
    pub target_amount: u64,
    pub milestone_count: u8,
}

/// Fact emitted once per successful milestone approval.
#[derive(Clone, Copy, Debug, PartialEq, Eq, Structural)]
pub struct MilestoneApproved {
    pub campaign: u64,
    pub milestone_index: u8,
}

/// Fact emitted once per successful release of a milestone's share.
#[derive(Clone, Copy, Debug, PartialEq, Eq, Structural)]
pub struct MilestoneReleased {
    pub campaign: u64,
    pub milestone_index: u8,
    pub amount: u64,
    pub recipient: u64,
}

/// Fact emitted once per successful refund claim.
#[derive(Clone, Copy, Debug, PartialEq, Eq, Structural)]
pub struct RefundClaimed {
    pub campaign: u64,
    pub donor: u64,
    pub amount: u64,
}

} // verus!
