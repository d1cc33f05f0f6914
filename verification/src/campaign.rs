use vstd::prelude::*;
use vstd::arithmetic::div_mod::lemma_multiply_divide_lt;

use crate::errors::ErrorCode;
use crate::events::CampaignCreated;
use crate::events::MilestoneApproved;
use crate::events::MilestoneReleased;
use crate::events::RefundClaimed;
use crate::pool::DonationRecord;
use crate::pool::Pool;

verus! {

/// Smallest number of milestones a campaign may have.
pub const MIN_MILESTONE_COUNT: usize = 1;

/// Largest number of milestones a campaign may have.
pub const MAX_MILESTONE_COUNT: usize = 5;

/// Character bound on a milestone's description.
pub const MAX_MILESTONE_DESCRIPTION_LEN: usize = 100;

/// Milestone status: created and awaiting approval.
pub const MILESTONE_PENDING: u8 = 0;

/// Milestone status: approved, its share may be released.
pub const MILESTONE_APPROVED: u8 = 1;

/// Milestone status: its share has been paid out; terminal.
pub const MILESTONE_RELEASED: u8 = 2;

/// Milestone status: terminal state reserved for future use; no
/// operation transitions into it.
pub const MILESTONE_REJECTED: u8 = 3;

/// An escrow overlay bound to one pool, gating disbursement of raised
/// funds behind a sequence of milestones with a fixed recipient.
#[derive(Clone, Copy, Debug, PartialEq, Eq, Structural)]
pub struct Campaign {
    /// Key of the pool this campaign overlays.
    pub pool: u64,
    /// Identity that approves and releases milestones.
    pub authority: u64,
    /// Fixed identity every released share is paid to.
    pub recipient: u64,
    /// Informational goal; not enforced as a cap.
    pub target_amount: u64,
    /// Amount raised under this campaign; the base of every
    /// percentage-proportional release.
    pub total_raised: u64,
    pub donor_count: u64,
    /// How many milestones the campaign was created with (1 to 5).
    pub milestone_count: u8,
    /// How many milestones have had their share released.
    pub milestones_completed: u8,
    /// Timestamp after which unreleased shares become refundable.
    pub deadline: i64,
    pub is_active: bool,
}

/// A named fractional claim on a campaign's raised funds, identified by
/// its (campaign, index) pair and released only after approval.
#[derive(Clone, Debug, PartialEq)]
pub struct Milestone {
    /// Key of the owning campaign.
    pub campaign: u64,
    /// Position within the campaign, in `[0, milestone_count)`.
    pub index: u8,
    pub description: String,
    /// Share of the campaign's `total_raised` this milestone carries.
    pub percentage: u8,
    /// One of the four milestone status codes; moves strictly forward.
    pub status: u8,
    pub approved_at: i64,
    pub released_at: i64,
    pub amount_released: u64,
}

/// Sum of a list of percentage values, as an unbounded integer.
pub open spec fn sum_percentages(s: Seq<u8>) -> int
    decreases s.len(),
{
    if s.len() == 0 {
        0
    } else {
        sum_percentages(s.drop_last()) + s.last()
    }
}

/// Creates a campaign over `pool`, validating the milestone plan: one
/// to five milestones, one percentage per description, and percentages
/// that sum to exactly 100. All progress counters start at zero.
///
/// Only the pool's authority may create the overlay; the hosting
/// runtime authenticates the caller, so the match is a precondition.
pub fn create_campaign(
    pool: &Pool,
    pool_key: u64,
    campaign_key: u64,
    authority: u64,
    recipient: u64,
    target_amount: u64,
    deadline: i64,
    milestone_descriptions: Vec<String>,
    milestone_percentages: Vec<u8>,
) -> (r: Result<(Campaign, CampaignCreated), ErrorCode>)
    requires
        authority == pool.authority,
    ensures
        milestone_descriptions@.len() < MIN_MILESTONE_COUNT || milestone_descriptions@.len()
            > MAX_MILESTONE_COUNT || milestone_descriptions@.len()
            != milestone_percentages@.len() ==> r == Err::<(Campaign, CampaignCreated), ErrorCode>(
            ErrorCode::InvalidMilestoneCount,
        ),
        MIN_MILESTONE_COUNT <= milestone_descriptions@.len() <= MAX_MILESTONE_COUNT
            && milestone_descriptions@.len() == milestone_percentages@.len()
            && sum_percentages(milestone_percentages@) != 100 ==> r == Err::<
            (Campaign, CampaignCreated),
            ErrorCode,
        >(ErrorCode::InvalidPercentages),
        MIN_MILESTONE_COUNT <= milestone_descriptions@.len() <= MAX_MILESTONE_COUNT
            && milestone_descriptions@.len() == milestone_percentages@.len()
            && sum_percentages(milestone_percentages@) == 100 ==> r == Ok::<
            (Campaign, CampaignCreated),
            ErrorCode,
        >(
            (
                (Campaign {
                    pool: pool_key,
                    authority,
                    recipient,
                    target_amount,
                    total_raised: 0,
                    donor_count: 0,
                    milestone_count: milestone_descriptions@.len() as u8,
                    milestones_completed: 0,
                    deadline,
                    is_active: true,
                }),
                (CampaignCreated {
                    campaign: campaign_key,
                    pool: pool_key,
                    target_amount,
                    milestone_count: milestone_descriptions@.len() as u8,
                }),
            ),
        ),
{
    let count = milestone_descriptions.len();
    if count < MIN_MILESTONE_COUNT || count > MAX_MILESTONE_COUNT {
        return Err(ErrorCode::InvalidMilestoneCount);
    }
    if count != milestone_percentages.len() {
        return Err(ErrorCode::InvalidMilestoneCount);
    }
    let mut total_pct: u16 = 0;
    let mut i: usize = 0;
    while i < count
        invariant
            i <= count,
            count == milestone_percentages@.len(),
            count <= MAX_MILESTONE_COUNT,
            total_pct == sum_percentages(milestone_percentages@.take(i as int)),
            total_pct <= i * 255,
        decreases count - i,
    {
        proof {
            assert(milestone_percentages@.take(i + 1).drop_last() =~= milestone_percentages@.take(
                i as int,
            ));
            assert(milestone_percentages@.take(i + 1).last() == milestone_percentages@[i as int]);
        }
        total_pct = total_pct + milestone_percentages[i] as u16;
        i = i + 1;
    }
    proof {
        assert(milestone_percentages@.take(count as int) =~= milestone_percentages@);
    }
    if total_pct != 100 {
        return Err(ErrorCode::InvalidPercentages);
    }
    let milestone_count: u8 = count as u8;
    let campaign = Campaign {
        pool: pool_key,
        authority,
        recipient,
        target_amount,
        total_raised: 0,
        donor_count: 0,
        milestone_count,
        milestones_completed: 0,
        deadline,
        is_active: true,
    };
    let event = CampaignCreated {
        campaign: campaign_key,
        pool: pool_key,
        target_amount,
        milestone_count,
    };
    Ok((campaign, event))
}

/// Share of a campaign's raised funds owed to one milestone: the
/// percentage applied to the amount raised, rounded down.
pub open spec fn release_amount_of(percentage: u8, total_raised: u64) -> int {
    (percentage * total_raised) / 100
}

/// Percentage of a campaign considered released: completed milestones
/// over the milestone count, in whole percent, rounded down.
pub open spec fn released_pct_of(completed: u8, count: u8) -> int
    recommends
        count > 0,
{
    (completed * 100) / (count as int)
}

/// Percentage of a campaign still unreleased.
pub open spec fn unreleased_pct_of(completed: u8, count: u8) -> int
    recommends
        count > 0,
{
    100 - released_pct_of(completed, count)
}

/// Refund owed on one donation record: the unreleased percentage of the
/// recorded amount, rounded down.
pub open spec fn refund_amount_of(donated: u64, completed: u8, count: u8) -> int
    recommends
        count > 0,
{
    (donated * unreleased_pct_of(completed, count)) / 100
}

/// The milestone as approval leaves it: approved at `now`, everything
/// else untouched.
pub open spec fn approved_milestone(m: Milestone, now: i64) -> Milestone {
    Milestone {
        campaign: m.campaign,
        index: m.index,
        description: m.description,
        percentage: m.percentage,
        status: MILESTONE_APPROVED,
        approved_at: now,
        released_at: m.released_at,
        amount_released: m.amount_released,
    }
}

/// The milestone as release leaves it: released at `now` with the paid
/// amount stored, everything else untouched.
pub open spec fn released_milestone(m: Milestone, now: i64, amount: u64) -> Milestone {
    Milestone {
        campaign: m.campaign,
        index: m.index,
        description: m.description,
        percentage: m.percentage,
        status: MILESTONE_RELEASED,
        approved_at: m.approved_at,
        released_at: now,
        amount_released: amount,
    }
}

/// The campaign as a successful release leaves it: one more milestone
/// completed, everything else untouched.
pub open spec fn campaign_after_release(c: Campaign) -> Campaign
    recommends
        c.milestones_completed < u8::MAX,
{
    Campaign {
        pool: c.pool,
        authority: c.authority,
        recipient: c.recipient,
        target_amount: c.target_amount,
        total_raised: c.total_raised,
        donor_count: c.donor_count,
        milestone_count: c.milestone_count,
        milestones_completed: (c.milestones_completed + 1) as u8,
        deadline: c.deadline,
        is_active: c.is_active,
    }
}

/// Creates one milestone record for a campaign: status pending, no
/// approval or release stamped yet.
///
/// Only the campaign's authority may do this; the hosting runtime
/// authenticates the caller, so the match is a precondition. The
/// percentage is taken as given: consistency with the list validated at
/// campaign creation is the caller's obligation between the two steps.
pub fn init_milestone(
    campaign: &Campaign,
    campaign_key: u64,
    authority: u64,
    index: u8,
    description: String,
    percentage: u8,
) -> (r: Result<Milestone, ErrorCode>)
    requires
        authority == campaign.authority,
    ensures
        description@.len() > MAX_MILESTONE_DESCRIPTION_LEN ==> r == Err::<Milestone, ErrorCode>(
            ErrorCode::DescriptionTooLong,
        ),
        description@.len() <= MAX_MILESTONE_DESCRIPTION_LEN ==> r == Ok::<Milestone, ErrorCode>(
            (Milestone {
                campaign: campaign_key,
                index,
                description,
                percentage,
                status: MILESTONE_PENDING,
                approved_at: 0,
                released_at: 0,
                amount_released: 0,
            }),
        ),
{
    if description.as_str().unicode_len() > MAX_MILESTONE_DESCRIPTION_LEN {
        return Err(ErrorCode::DescriptionTooLong);
    }
    Ok(
        Milestone {
            campaign: campaign_key,
            index,
            description,
            percentage,
            status: MILESTONE_PENDING,
            approved_at: 0,
            released_at: 0,
            amount_released: 0,
        },
    )
}

/// Approves a pending milestone, stamping the approval time. Any other
/// status is refused and nothing changes: the status machine only moves
/// forward.
///
/// Only the campaign's authority may approve, and the milestone must
/// belong to the campaign; the hosting runtime establishes both before
/// the operation runs, so they are preconditions.
pub fn approve_milestone(
    milestone: &mut Milestone,
    campaign: &Campaign,
    campaign_key: u64,
    authority: u64,
    now: i64,
) -> (r: Result<MilestoneApproved, ErrorCode>)
    requires
        authority == campaign.authority,
        old(milestone).campaign == campaign_key,
    ensures
        old(milestone).status != MILESTONE_PENDING ==> r == Err::<MilestoneApproved, ErrorCode>(
            ErrorCode::MilestoneNotPending,
        ) && *final(milestone) == *old(milestone),
        old(milestone).status == MILESTONE_PENDING ==> *final(milestone) == approved_milestone(
            *old(milestone),
            now,
        ) && r == Ok::<MilestoneApproved, ErrorCode>(
            (MilestoneApproved { campaign: campaign_key, milestone_index: old(milestone).index }),
        ),
{
    if milestone.status != MILESTONE_PENDING {
        return Err(ErrorCode::MilestoneNotPending);
    }
    milestone.status = MILESTONE_APPROVED;
    milestone.approved_at = now;
    Ok(MilestoneApproved { campaign: campaign_key, milestone_index: milestone.index })
}

/// Releases an approved milestone's share to the campaign's fixed
/// recipient.
///
/// The share is `percentage * total_raised / 100`, multiplied before
/// dividing so no precision is lost; the vault must cover it in full.
/// The status flips to released before any later call could observe the
/// milestone again, so a second release of the same milestone always
/// fails at the status guard — the sole and sufficient defense against
/// paying a milestone twice.
///
/// Only the campaign's authority may release, the milestone must belong
/// to the campaign, and the recipient account must be the campaign's
/// stored recipient; the hosting runtime establishes all three, so they
/// are preconditions. Overflow of the widened product or of the
/// completed-milestone counter would be fatal, so those inputs are
/// excluded up front.
pub fn release_milestone_funds(
    milestone: &mut Milestone,
    campaign: &mut Campaign,
    campaign_key: u64,
    vault_balance: &mut u64,
    authority: u64,
    recipient: u64,
    now: i64,
) -> (r: Result<MilestoneReleased, ErrorCode>)
    requires
        authority == old(campaign).authority,
        old(milestone).campaign == campaign_key,
        recipient == old(campaign).recipient,
        old(milestone).status == MILESTONE_APPROVED ==> old(milestone).percentage * old(
            campaign,
        ).total_raised <= u64::MAX,
        old(milestone).status == MILESTONE_APPROVED && *old(vault_balance) >= release_amount_of(
            old(milestone).percentage,
            old(campaign).total_raised,
        ) ==> old(campaign).milestones_completed < u8::MAX,
    ensures
        old(milestone).status != MILESTONE_APPROVED ==> r == Err::<MilestoneReleased, ErrorCode>(
            ErrorCode::MilestoneNotApproved,
        ) && *final(milestone) == *old(milestone) && *final(campaign) == *old(campaign)
            && *final(vault_balance) == *old(vault_balance),
        old(milestone).status == MILESTONE_APPROVED && *old(vault_balance) < release_amount_of(
            old(milestone).percentage,
            old(campaign).total_raised,
        ) ==> r == Err::<MilestoneReleased, ErrorCode>(ErrorCode::InsufficientFunds)
            && *final(milestone) == *old(milestone) && *final(campaign) == *old(campaign)
            && *final(vault_balance) == *old(vault_balance),
        old(milestone).status == MILESTONE_APPROVED && *old(vault_balance) >= release_amount_of(
            old(milestone).percentage,
            old(campaign).total_raised,
        ) ==> {
            let amount = release_amount_of(old(milestone).percentage, old(campaign).total_raised);
            *final(vault_balance) == *old(vault_balance) - amount && *final(milestone)
                == released_milestone(*old(milestone), now, amount as u64) && *final(campaign)
                == campaign_after_release(*old(campaign)) && r == Ok::<MilestoneReleased, ErrorCode>(
                (MilestoneReleased {
                    campaign: campaign_key,
                    milestone_index: old(milestone).index,
                    amount: amount as u64,
                    recipient,
                }),
            )
        },
{
    if milestone.status != MILESTONE_APPROVED {
        return Err(ErrorCode::MilestoneNotApproved);
    }
    let release_amount: u64 = (milestone.percentage as u64) * campaign.total_raised / 100;
    if *vault_balance < release_amount {
        return Err(ErrorCode::InsufficientFunds);
    }
    *vault_balance = *vault_balance - release_amount;
    milestone.status = MILESTONE_RELEASED;
    milestone.released_at = now;
    milestone.amount_released = release_amount;
    campaign.milestones_completed = campaign.milestones_completed + 1;
    Ok(
        MilestoneReleased {
            campaign: campaign_key,
            milestone_index: milestone.index,
            amount: release_amount,
            recipient,
        },
    )
}

/// Pays a donor the unreleased share of one donation back out of the
/// vault, once the campaign's deadline has passed with milestones still
/// incomplete.
///
/// The refund is the recorded amount times the unreleased percentage,
/// rounded down. The record must belong to the claiming donor and to
/// the campaign's pool; the hosting runtime establishes both, so they
/// are preconditions. The record itself is never marked as claimed:
/// nothing in the stored state rules out a repeated claim against the
/// same record — a deliberate, documented gap in the engine.
pub fn claim_refund(
    campaign: &Campaign,
    campaign_key: u64,
    donation_record: &DonationRecord,
    donor: u64,
    vault_balance: &mut u64,
    now: i64,
) -> (r: Result<RefundClaimed, ErrorCode>)
    requires
        donation_record.donor == donor,
        donation_record.pool == campaign.pool,
        now > campaign.deadline && campaign.milestones_completed < campaign.milestone_count
            ==> donation_record.amount * unreleased_pct_of(
            campaign.milestones_completed,
            campaign.milestone_count,
        ) <= u64::MAX,
    ensures
        now <= campaign.deadline ==> r == Err::<RefundClaimed, ErrorCode>(
            ErrorCode::DeadlineNotReached,
        ) && *final(vault_balance) == *old(vault_balance),
        now > campaign.deadline && campaign.milestones_completed >= campaign.milestone_count ==> r
            == Err::<RefundClaimed, ErrorCode>(ErrorCode::AllMilestonesComplete)
            && *final(vault_balance) == *old(vault_balance),
        now > campaign.deadline && campaign.milestones_completed < campaign.milestone_count
            && *old(vault_balance) < refund_amount_of(
            donation_record.amount,
            campaign.milestones_completed,
            campaign.milestone_count,
        ) ==> r == Err::<RefundClaimed, ErrorCode>(ErrorCode::InsufficientFunds)
            && *final(vault_balance) == *old(vault_balance),
        now > campaign.deadline && campaign.milestones_completed < campaign.milestone_count
            && *old(vault_balance) >= refund_amount_of(
            donation_record.amount,
            campaign.milestones_completed,
            campaign.milestone_count,
        ) ==> {
            let amount = refund_amount_of(
                donation_record.amount,
                campaign.milestones_completed,
                campaign.milestone_count,
            );
            *final(vault_balance) == *old(vault_balance) - amount && r
                == Ok::<RefundClaimed, ErrorCode>(
                (RefundClaimed { campaign: campaign_key, donor, amount: amount as u64 }),
            )
        },
{
    if now <= campaign.deadline {
        return Err(ErrorCode::DeadlineNotReached);
    }
    if campaign.milestones_completed >= campaign.milestone_count {
        return Err(ErrorCode::AllMilestonesComplete);
    }
    proof {
        lemma_multiply_divide_lt(
            campaign.milestones_completed * 100,
            campaign.milestone_count as int,
            100,
        );
    }
    let released_pct: u64 = (campaign.milestones_completed as u64) * 100
        / (campaign.milestone_count as u64);
    let unreleased_pct: u64 = 100 - released_pct;
    let refund_amount: u64 = donation_record.amount * unreleased_pct / 100;
    if *vault_balance < refund_amount {
        return Err(ErrorCode::InsufficientFunds);
    }
    *vault_balance = *vault_balance - refund_amount;
    Ok(RefundClaimed { campaign: campaign_key, donor, amount: refund_amount })
}

/// Sum of the percentage shares carried by a sequence of milestone
/// records.
pub open spec fn milestones_percentage_sum(ms: Seq<Milestone>) -> int
    decreases ms.len(),
{
    if ms.len() == 0 {
        0
    } else {
        milestones_percentage_sum(ms.drop_last()) + ms.last().percentage
    }
}

/// Milestone records built from a percentage list carry its sum.
pub proof fn lemma_milestone_percentages_match_list(ms: Seq<Milestone>, pcts: Seq<u8>)
    requires
        ms.len() == pcts.len(),
        forall|i: int| 0 <= i < ms.len() ==> ms[i].percentage == pcts[i],
    ensures
        milestones_percentage_sum(ms) == sum_percentages(pcts),
    decreases ms.len(),
{
    if ms.len() != 0 {
        lemma_milestone_percentages_match_list(ms.drop_last(), pcts.drop_last());
    }
}

/// Once every milestone record of a campaign has been created with its
/// percentage taken from the list that campaign creation validated, the
/// records' percentages sum to exactly 100.
pub proof fn lemma_campaign_percentages_total(ms: Seq<Milestone>, pcts: Seq<u8>)
    requires
        ms.len() == pcts.len(),
        forall|i: int| 0 <= i < ms.len() ==> ms[i].percentage == pcts[i],
        sum_percentages(pcts) == 100,
    ensures
        milestones_percentage_sum(ms) == 100,
{
    lemma_milestone_percentages_match_list(ms, pcts);
}

/// Number of records in `ms` that have reached the released state.
pub open spec fn count_released(ms: Seq<Milestone>) -> int
    decreases ms.len(),
{
    if ms.len() == 0 {
        0
    } else {
        count_released(ms.drop_last()) + (if ms.last().status == MILESTONE_RELEASED {
            1int
        } else {
            0int
        })
    }
}

/// No more records are released than exist.
pub proof fn lemma_count_released_bounded(ms: Seq<Milestone>)
    ensures
        0 <= count_released(ms) <= ms.len(),
    decreases ms.len(),
{
    if ms.len() != 0 {
        lemma_count_released_bounded(ms.drop_last());
    }
}

/// A campaign never completes more milestones than it has: the
/// completed counter grows only when a release flips one record to the
/// released state — a transition each record can take at most once —
/// so while the counter equals the number of released records among the
/// campaign's `milestone_count` records, it cannot exceed the count.
pub proof fn lemma_milestones_completed_bounded(c: Campaign, ms: Seq<Milestone>)
    requires
        ms.len() == c.milestone_count,
        c.milestones_completed == count_released(ms),
    ensures
        c.milestones_completed <= c.milestone_count,
{
    lemma_count_released_bounded(ms);
}

/// A milestone is paid at most once, by construction: a successful
/// release leaves the record in the released state, and a released
/// record can never satisfy the approved-status guard (nor the pending
/// one) again, so a second release of the same milestone is refused
/// with `MilestoneNotApproved` and changes nothing.
pub proof fn lemma_release_pays_at_most_once(m: Milestone, now: i64, amount: u64)
    ensures
        released_milestone(m, now, amount).status != MILESTONE_APPROVED,
        released_milestone(m, now, amount).status != MILESTONE_PENDING,
{
}

} // verus!
