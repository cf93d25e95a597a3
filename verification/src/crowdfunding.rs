//! A contribution ledger: campaigns are appended with a funding deadline, and
//! contributions made strictly before that deadline raise the campaign's
//! counter and the contributor's per-campaign total. A simpler instance of
//! the governance pattern — append a record, gate by timestamp, mutate a
//! counter — with no membership gate: anyone may create or contribute.

use vstd::prelude::*;

use crate::errors::GovError;
use crate::keyed::{map_of, unique_keys, lemma_map_of_contains, lemma_map_of_index,
    lemma_map_of_push, lemma_map_of_update};

verus! {

/// A crowdfunding campaign record. Indices are assigned at creation in
/// strictly increasing order and never change.
#[derive(Debug)]
pub struct Campaign {
    /// Identity of the campaign's creator.
    pub creator: u64,
    /// Opaque text blob.
    pub title: String,
    /// Opaque text blob.
    pub description: String,
    /// The funding goal; informational, never enforced by the ledger.
    pub target_amount: i64,
    /// Contributions are accepted at clock readings strictly before this.
    pub deadline: u64,
    /// Total contributed so far.
    pub amount_raised: i64,
}

/// The mathematical model of a campaign record.
#[verifier::ext_equal]
pub ghost struct CampaignModel {
    pub creator: u64,
    pub title: Seq<char>,
    pub description: Seq<char>,
    pub target_amount: i64,
    pub deadline: u64,
    pub amount_raised: i64,
}

impl View for Campaign {
    type V = CampaignModel;

    closed spec fn view(&self) -> CampaignModel {
        CampaignModel {
            creator: self.creator,
            title: self.title@,
            description: self.description@,
            target_amount: self.target_amount,
            deadline: self.deadline,
            amount_raised: self.amount_raised,
        }
    }
}

/// The mathematical model of the whole ledger: the ordered campaign store and
/// the per-contributor, per-campaign totals.
#[verifier::ext_equal]
pub ghost struct CrowdfundingModel {
    pub campaigns: Seq<CampaignModel>,
    pub contributions: Map<(u64, u32), i64>,
}

/// A contributor's total for one campaign; zero where nothing was recorded.
pub open spec fn contribution_of(
    m: Map<(u64, u32), i64>,
    user: u64,
    campaign_index: u32,
) -> i64 {
    if m.contains_key((user, campaign_index)) {
        m[(user, campaign_index)]
    } else {
        0
    }
}

/// Outcome of creating a campaign at clock reading `now`: the deadline must
/// lie strictly in the future, and the new record starts with nothing raised.
pub open spec fn create_campaign_outcome(
    c: CrowdfundingModel,
    creator: u64,
    title: Seq<char>,
    description: Seq<char>,
    target_amount: i64,
    deadline: u64,
    now: u64,
) -> Result<CrowdfundingModel, GovError> {
    if deadline <= now {
        Err(GovError::InvalidArgument)
    } else {
        Ok(
            CrowdfundingModel {
                campaigns: c.campaigns.push(
                    CampaignModel {
                        creator,
                        title,
                        description,
                        target_amount,
                        deadline,
                        amount_raised: 0,
                    },
                ),
                ..c
            },
        )
    }
}

/// Outcome of contributing at clock reading `now`: the amount must be
/// positive, the campaign must exist and its deadline must not have passed;
/// both the campaign's counter and the contributor's total grow by `amount`.
pub open spec fn contribute_outcome(
    c: CrowdfundingModel,
    contributor: u64,
    campaign_index: u32,
    amount: i64,
    now: u64,
) -> Result<CrowdfundingModel, GovError> {
    if amount <= 0 {
        Err(GovError::InvalidArgument)
    } else if campaign_index >= c.campaigns.len() {
        Err(GovError::NotFound)
    } else if now >= c.campaigns[campaign_index as int].deadline {
        Err(GovError::WindowClosed)
    } else {
        let cam = c.campaigns[campaign_index as int];
        let raised = CampaignModel { amount_raised: (cam.amount_raised + amount) as i64, ..cam };
        let total = (contribution_of(c.contributions, contributor, campaign_index) + amount) as i64;
        Ok(
            CrowdfundingModel {
                campaigns: c.campaigns.update(campaign_index as int, raised),
                contributions: c.contributions.insert((contributor, campaign_index), total),
            },
        )
    }
}

/// The two counters a successful contribution raises stay within the machine
/// word. This is a machine limit, not a rule of the design.
pub open spec fn contribute_fits(
    c: CrowdfundingModel,
    contributor: u64,
    campaign_index: u32,
    amount: i64,
    now: u64,
) -> bool {
    contribute_outcome(c, contributor, campaign_index, amount, now) is Ok ==> {
        &&& c.campaigns[campaign_index as int].amount_raised + amount <= i64::MAX
        &&& contribution_of(c.contributions, contributor, campaign_index) + amount <= i64::MAX
    }
}

/// The ledger state: the campaign store and every contributor's per-campaign
/// total. The host environment persists a value of this type between calls
/// and passes the clock reading in as a plain argument.
pub struct CrowdfundingContract {
    campaigns: Vec<Campaign>,
    contributions: Vec<((u64, u32), i64)>,
}

impl View for CrowdfundingContract {
    type V = CrowdfundingModel;

    closed spec fn view(&self) -> CrowdfundingModel {
        CrowdfundingModel {
            campaigns: Seq::new(self.campaigns@.len(), |i: int| self.campaigns@[i]@),
            contributions: map_of(self.contributions@),
        }
    }
}

/// The index of the entry holding `(user, campaign_index)`, if any.
fn find_entry(entries: &Vec<((u64, u32), i64)>, user: u64, campaign_index: u32) -> (found: Option<
    usize,
>)
    ensures
        match found {
            Some(i) => i < entries@.len() && entries@[i as int].0 == (user, campaign_index),
            None => forall|j: int|
                0 <= j < entries@.len() ==> (#[trigger] entries@[j]).0 != (user, campaign_index),
        },
{
    let mut i: usize = 0;
    while i < entries.len()
        invariant
            0 <= i <= entries@.len(),
            forall|j: int| 0 <= j < i ==> (#[trigger] entries@[j]).0 != (user, campaign_index),
        decreases entries@.len() - i,
    {
        let e = &entries[i];
        if e.0.0 == user && e.0.1 == campaign_index {
            return Some(i);
        }
        i += 1;
    }
    None
}

impl CrowdfundingContract {
    /// Internal representation invariant: at most one total per contributor
    /// and campaign.
    pub closed spec fn inv(&self) -> bool {
        unique_keys(self.contributions@)
    }

    /// Sets up a fresh ledger with no campaigns and no contributions. Setup
    /// never fails.
    pub fn initialize() -> (ledger: Self)
        ensures
            ledger.inv(),
            ledger@ == (CrowdfundingModel {
                campaigns: Seq::<CampaignModel>::empty(),
                contributions: Map::<(u64, u32), i64>::empty(),
            }),
    {
        let ledger = CrowdfundingContract { campaigns: Vec::new(), contributions: Vec::new() };
        proof {
            assert(ledger@.campaigns =~= Seq::<CampaignModel>::empty());
            assert(ledger@.contributions =~= Map::<(u64, u32), i64>::empty());
        }
        ledger
    }

    /// Appends a campaign created at clock reading `now`. Fails with
    /// `InvalidArgument` — appending nothing — when the deadline is not
    /// strictly in the future.
    pub fn create_campaign(
        &mut self,
        creator: u64,
        title: String,
        description: String,
        target_amount: i64,
        deadline: u64,
        now: u64,
    ) -> (result: Result<(), GovError>)
        requires
            old(self).inv(),
        ensures
            final(self).inv(),
            match result {
                Ok(()) => create_campaign_outcome(
                    old(self)@,
                    creator,
                    title@,
                    description@,
                    target_amount,
                    deadline,
                    now,
                ) == Ok::<CrowdfundingModel, GovError>(final(self)@),
                Err(e) => final(self)@ == old(self)@ && create_campaign_outcome(
                    old(self)@,
                    creator,
                    title@,
                    description@,
                    target_amount,
                    deadline,
                    now,
                ) == Err::<CrowdfundingModel, GovError>(e),
            },
    {
        if deadline <= now {
            return Err(GovError::InvalidArgument);
        }
        let campaign = Campaign {
            creator,
            title,
            description,
            target_amount,
            deadline,
            amount_raised: 0,
        };
        self.campaigns.push(campaign);
        proof {
            assert(self@.campaigns =~~= old(self)@.campaigns.push(
                CampaignModel {
                    creator,
                    title: title@,
                    description: description@,
                    target_amount,
                    deadline,
                    amount_raised: 0,
                },
            ));
            assert(self@ =~~= CrowdfundingModel {
                campaigns: self@.campaigns,
                ..old(self)@
            });
        }
        Ok(())
    }

    /// Records a contribution made at clock reading `now`: raises the
    /// campaign's counter and the contributor's total by `amount`. Fails with
    /// `InvalidArgument` when the amount is not positive, `NotFound` when the
    /// index is out of bounds, and `WindowClosed` when the deadline has
    /// passed — each with no state change.
    pub fn contribute(
        &mut self,
        contributor: u64,
        campaign_index: u32,
        amount: i64,
        now: u64,
    ) -> (result: Result<(), GovError>)
        requires
            old(self).inv(),
            contribute_fits(old(self)@, contributor, campaign_index, amount, now),
        ensures
            final(self).inv(),
            match result {
                Ok(()) => contribute_outcome(old(self)@, contributor, campaign_index, amount, now)
                    == Ok::<CrowdfundingModel, GovError>(final(self)@),
                Err(e) => final(self)@ == old(self)@ && contribute_outcome(
                    old(self)@,
                    contributor,
                    campaign_index,
                    amount,
                    now,
                ) == Err::<CrowdfundingModel, GovError>(e),
            },
    {
        if amount <= 0 {
            return Err(GovError::InvalidArgument);
        }
        let ci = campaign_index as usize;
        if ci >= self.campaigns.len() {
            return Err(GovError::NotFound);
        }
        if now >= self.campaigns[ci].deadline {
            return Err(GovError::WindowClosed);
        }
        let cam = &mut self.campaigns[ci];
        cam.amount_raised = cam.amount_raised + amount;
        proof {
            let raised = CampaignModel {
                amount_raised: (old(self)@.campaigns[campaign_index as int].amount_raised
                    + amount) as i64,
                ..old(self)@.campaigns[campaign_index as int]
            };
            assert(self@.campaigns =~~= old(self)@.campaigns.update(campaign_index as int, raised));
        }
        match find_entry(&self.contributions, contributor, campaign_index) {
            Some(i) => {
                proof {
                    lemma_map_of_index(self.contributions@, i as int);
                }
                let total = self.contributions[i].1 + amount;
                let e = &mut self.contributions[i];
                *e = ((contributor, campaign_index), total);
                proof {
                    lemma_map_of_update(old(self).contributions@, i as int, total);
                }
            },
            None => {
                proof {
                    lemma_map_of_contains(self.contributions@, (contributor, campaign_index));
                    lemma_map_of_push(
                        self.contributions@,
                        (contributor, campaign_index),
                        amount,
                    );
                }
                self.contributions.push(((contributor, campaign_index), amount));
            },
        }
        proof {
            let expected = contribute_outcome(old(self)@, contributor, campaign_index, amount, now);
            assert(self@.contributions =~= expected->Ok_0.contributions);
            assert(self@ =~~= expected->Ok_0);
        }
        Ok(())
    }

    /// Reads the full record at `campaign_index`; fails with `NotFound` when
    /// the index is out of the store's current bounds.
    pub fn get_campaign(&self, campaign_index: u32) -> (result: Result<&Campaign, GovError>)
        ensures
            match result {
                Ok(c) => campaign_index < self@.campaigns.len() && c@ == self@.campaigns[
                    campaign_index as int
                ],
                Err(e) => campaign_index >= self@.campaigns.len() && e == GovError::NotFound,
            },
    {
        let ci = campaign_index as usize;
        if ci >= self.campaigns.len() {
            return Err(GovError::NotFound);
        }
        Ok(&self.campaigns[ci])
    }

    /// A contributor's recorded total for one campaign; zero for identities
    /// or campaigns with no recorded contribution.
    pub fn get_user_contributions(&self, user: u64, campaign_index: u32) -> (total: i64)
        requires
            self.inv(),
        ensures
            total == contribution_of(self@.contributions, user, campaign_index),
    {
        match find_entry(&self.contributions, user, campaign_index) {
            Some(i) => {
                proof {
                    lemma_map_of_index(self.contributions@, i as int);
                }
                self.contributions[i].1
            },
            None => {
                proof {
                    lemma_map_of_contains(self.contributions@, (user, campaign_index));
                }
                0
            },
        }
    }
}

} // verus!
