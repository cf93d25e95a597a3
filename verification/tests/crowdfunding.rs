use ledger_governance::{CrowdfundingContract, GovError};

#[test]
fn test_campaign_creation() {
    let mut ledger = CrowdfundingContract::initialize();

    // Create a test campaign with a deadline 1000 seconds ahead
    let creator: u64 = 5;
    let now: u64 = 0;
    ledger
        .create_campaign(
            creator,
            "Test Campaign".to_string(),
            "Description".to_string(),
            1000,
            now + 1000,
            now,
        )
        .unwrap();

    // Verify the campaign exists
    let campaign = ledger.get_campaign(0).unwrap();
    assert_eq!(campaign.creator, creator);
    assert_eq!(campaign.title, "Test Campaign");
}

#[test]
fn test_contribution() {
    let mut ledger = CrowdfundingContract::initialize();
    let creator: u64 = 5;
    let now: u64 = 0;
    ledger
        .create_campaign(
            creator,
            "Test Campaign".to_string(),
            "Description".to_string(),
            1000,
            now + 1000,
            now,
        )
        .unwrap();

    // Make a contribution
    let contributor: u64 = 8;
    ledger.contribute(contributor, 0, 100, now).unwrap();

    // Verify the contribution was recorded
    let contributions = ledger.get_user_contributions(contributor, 0);
    assert_eq!(contributions, 100);

    let campaign = ledger.get_campaign(0).unwrap();
    assert_eq!(campaign.amount_raised, 100);
}

#[test]
fn past_deadline_is_rejected_at_creation() {
    let mut ledger = CrowdfundingContract::initialize();
    let err = ledger
        .create_campaign(5, "t".to_string(), "d".to_string(), 1000, 50, 50)
        .unwrap_err();
    assert_eq!(err, GovError::InvalidArgument);
    assert_eq!(ledger.get_campaign(0).unwrap_err(), GovError::NotFound);
}

#[test]
fn contribution_guards() {
    let mut ledger = CrowdfundingContract::initialize();
    ledger
        .create_campaign(5, "t".to_string(), "d".to_string(), 1000, 200, 100)
        .unwrap();
    assert_eq!(ledger.contribute(8, 0, 0, 100).unwrap_err(), GovError::InvalidArgument);
    assert_eq!(ledger.contribute(8, 0, -5, 100).unwrap_err(), GovError::InvalidArgument);
    assert_eq!(ledger.contribute(8, 3, 10, 100).unwrap_err(), GovError::NotFound);
    // the deadline itself is already closed
    assert_eq!(ledger.contribute(8, 0, 10, 200).unwrap_err(), GovError::WindowClosed);
    // nothing was recorded by the refused calls
    assert_eq!(ledger.get_user_contributions(8, 0), 0);
    assert_eq!(ledger.get_campaign(0).unwrap().amount_raised, 0);
}

#[test]
fn totals_accumulate_per_contributor_and_campaign() {
    let mut ledger = CrowdfundingContract::initialize();
    ledger
        .create_campaign(5, "a".to_string(), "d".to_string(), 1000, 500, 0)
        .unwrap();
    ledger
        .create_campaign(6, "b".to_string(), "d".to_string(), 2000, 500, 0)
        .unwrap();
    ledger.contribute(8, 0, 100, 1).unwrap();
    ledger.contribute(8, 0, 40, 2).unwrap();
    ledger.contribute(8, 1, 7, 3).unwrap();
    ledger.contribute(9, 0, 25, 4).unwrap();
    assert_eq!(ledger.get_user_contributions(8, 0), 140);
    assert_eq!(ledger.get_user_contributions(8, 1), 7);
    assert_eq!(ledger.get_user_contributions(9, 0), 25);
    assert_eq!(ledger.get_user_contributions(9, 1), 0);
    assert_eq!(ledger.get_campaign(0).unwrap().amount_raised, 165);
    assert_eq!(ledger.get_campaign(1).unwrap().amount_raised, 7);
}
