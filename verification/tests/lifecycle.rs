use risen_donations::campaign::Campaign;
use risen_donations::campaign::approve_milestone;
use risen_donations::campaign::claim_refund;
use risen_donations::campaign::create_campaign;
use risen_donations::campaign::init_milestone;
use risen_donations::campaign::release_milestone_funds;
use risen_donations::pool::donate_to_pool;
use risen_donations::pool::initialize_pool;
use risen_donations::pool::withdraw_from_pool;

#[test]
fn whole_lifecycle_conserves_the_vault() {
    let authority: u64 = 1;
    let pool_key: u64 = 10;
    let campaign_key: u64 = 20;
    let recipient: u64 = 9;

    let mut pool =
        initialize_pool(authority, String::from("shelter"), String::new(), String::new(), 1)
            .unwrap();
    let mut vault: u64 = 0;
    let mut outflows: u64 = 0;

    let mut donor_a: u64 = 3_000_000;
    let mut donor_b: u64 = 2_000_000;
    let record_a =
        donate_to_pool(&mut pool, pool_key, &mut vault, 55, &mut donor_a, 2_000_000, 5).unwrap().0;
    donate_to_pool(&mut pool, pool_key, &mut vault, 56, &mut donor_b, 1_000_000, 6).unwrap();
    assert_eq!(pool.total_donated, 3_000_000);
    assert_eq!(vault, 3_000_000);

    let withdrawal =
        withdraw_from_pool(&pool, pool_key, &mut vault, authority, 77, 200_000).unwrap();
    outflows += withdrawal.amount;

    let (mut campaign, _) = create_campaign(
        &pool,
        pool_key,
        campaign_key,
        authority,
        recipient,
        2_000_000,
        1_000,
        vec![String::from("phase one"), String::from("phase two")],
        vec![60u8, 40u8],
    )
    .unwrap();
    // the campaign escrows what was raised under it
    campaign.total_raised = 2_000_000;

    let mut m0 =
        init_milestone(&campaign, campaign_key, authority, 0, String::from("phase one"), 60)
            .unwrap();
    approve_milestone(&mut m0, &campaign, campaign_key, authority, 500).unwrap();
    let released = release_milestone_funds(
        &mut m0,
        &mut campaign,
        campaign_key,
        &mut vault,
        authority,
        recipient,
        600,
    )
    .unwrap();
    outflows += released.amount;
    assert_eq!(released.amount, 1_200_000);
    assert_eq!(campaign.milestones_completed, 1);

    // deadline passes with one milestone still open: donor A reclaims the
    // unreleased half of the recorded donation
    let refunded =
        claim_refund(&campaign, campaign_key, &record_a, 55, &mut vault, 1_001).unwrap();
    outflows += refunded.amount;
    assert_eq!(refunded.amount, 1_000_000);

    // the conservation law, observed on this run: the vault holds the
    // lifetime total minus every withdrawal, release and refund
    assert_eq!(vault, pool.total_donated - outflows);
    assert_eq!(vault, 600_000);
}

#[test]
fn milestones_built_from_validated_list_sum_to_100() {
    let authority: u64 = 1;
    let pool =
        initialize_pool(authority, String::from("school"), String::new(), String::new(), 1)
            .unwrap();
    let percentages = vec![25u8, 25, 30, 20];
    let descriptions = vec![
        String::from("plan"),
        String::from("foundation"),
        String::from("walls"),
        String::from("roof"),
    ];
    let (campaign, _) = create_campaign(
        &pool,
        10,
        20,
        authority,
        9,
        0,
        1_000,
        descriptions.clone(),
        percentages.clone(),
    )
    .unwrap();
    let mut sum: u16 = 0;
    for (i, pct) in percentages.iter().enumerate() {
        let m = init_milestone(
            &campaign,
            20,
            authority,
            i as u8,
            descriptions[i].clone(),
            *pct,
        )
        .unwrap();
        sum += m.percentage as u16;
    }
    assert_eq!(sum, 100);
    assert_eq!(campaign.milestone_count, 4);
}

#[test]
fn completed_counter_stays_within_milestone_count() {
    let authority: u64 = 1;
    let recipient: u64 = 9;
    let mut campaign = Campaign {
        pool: 10,
        authority,
        recipient,
        target_amount: 0,
        total_raised: 100,
        donor_count: 0,
        milestone_count: 2,
        milestones_completed: 0,
        deadline: 1_000,
        is_active: true,
    };
    let mut vault: u64 = 1_000;
    let mut milestones = Vec::new();
    for i in 0..2u8 {
        let mut m =
            init_milestone(&campaign, 20, authority, i, format!("m{}", i), 50).unwrap();
        approve_milestone(&mut m, &campaign, 20, authority, 1).unwrap();
        milestones.push(m);
    }
    for m in milestones.iter_mut() {
        release_milestone_funds(&mut *m, &mut campaign, 20, &mut vault, authority, recipient, 2)
            .unwrap();
        assert!(campaign.milestones_completed <= campaign.milestone_count);
        // a second attempt on the same milestone is refused, so the
        // counter cannot be pushed past the count this way
        assert!(release_milestone_funds(
            &mut *m,
            &mut campaign,
            20,
            &mut vault,
            authority,
            recipient,
            3
        )
        .is_err());
    }
    assert_eq!(campaign.milestones_completed, 2);
}
