//! Token-weighted proposal governance.
//!
//! A [`DaoVotingSystem`] holds an admin-curated member list and an ordered,
//! append-only store of proposals. Each proposal advances through
//! Pending -> Active -> {Executed, Failed}; votes are weighted by the
//! voting-power oracle's answer at the moment each vote is cast.
//!
//! The behaviour of every operation is captured by a spec-level transition
//! function over [`DaoModel`] (`register_outcome`, `create_outcome`,
//! `start_outcome`, `vote_outcome`, `resolve_outcome`), and each executable
//! method ensures that its result and new state equal that transition's
//! outcome exactly.

use vstd::prelude::*;

use crate::errors::GovError;

verus! {

/// Where a proposal stands in its lifecycle. A proposal's status only ever
/// advances through Pending < Active < {Passed, Failed} < Executed. `Passed`
/// is transient: resolution sets the durable end state `Executed` within the
/// same call, so only `Executed` or `Failed` is ever observable afterwards.
#[derive(Clone, Copy, Debug, PartialEq, Eq, Structural)]
pub enum ProposalStatus {
    Pending,
    Active,
    Passed,
    Failed,
    Executed,
}

/// A governance proposal record. Indices into the proposal store are assigned
/// at creation in strictly increasing order and never change; records are
/// reclassified in place, never removed.
#[derive(Debug)]
pub struct Proposal {
    /// Identity of the member that submitted the proposal.
    pub creator: u64,
    /// Opaque text blob.
    pub title: String,
    /// Opaque text blob.
    pub description: String,
    /// Opaque payload handed to the audit sink when the proposal executes.
    pub action: [u8; 32],
    /// Current lifecycle state.
    pub status: ProposalStatus,
    /// Accumulated voting power cast in favour.
    pub yes_weight: u64,
    /// Accumulated voting power cast against.
    pub no_weight: u64,
    /// Clock reading at creation.
    pub created_at: u64,
    /// Zero until voting starts; set exactly once, together with the end.
    pub voting_starts_at: u64,
    /// Zero until voting starts; votes are accepted strictly before this.
    pub voting_ends_at: u64,
}

/// The mathematical model of a proposal record.
#[verifier::ext_equal]
pub ghost struct ProposalModel {
    pub creator: u64,
    pub title: Seq<char>,
    pub description: Seq<char>,
    pub action: Seq<u8>,
    pub status: ProposalStatus,
    pub yes_weight: nat,
    pub no_weight: nat,
    pub created_at: nat,
    pub voting_starts_at: nat,
    pub voting_ends_at: nat,
}

impl View for Proposal {
    type V = ProposalModel;

    closed spec fn view(&self) -> ProposalModel {
        ProposalModel {
            creator: self.creator,
            title: self.title@,
            description: self.description@,
            action: self.action@,
            status: self.status,
            yes_weight: self.yes_weight as nat,
            no_weight: self.no_weight as nat,
            created_at: self.created_at as nat,
            voting_starts_at: self.voting_starts_at as nat,
            voting_ends_at: self.voting_ends_at as nat,
        }
    }
}

/// The mathematical model of the whole governance state.
#[verifier::ext_equal]
pub ghost struct DaoModel {
    /// Address of the governance token whose balances the oracle reports.
    pub gov_token: u64,
    /// The single identity allowed to register members and start voting.
    pub admin: u64,
    /// Length of every voting window, in seconds.
    pub voting_period: nat,
    /// Registered member identities, in registration order, without repeats.
    pub members: Seq<u64>,
    /// The ordered proposal store.
    pub proposals: Seq<ProposalModel>,
}

/// True exactly when `id` has been registered. Unknown identities are not
/// members: the lookup is total, defaulting to false.
pub open spec fn is_member(d: DaoModel, id: u64) -> bool {
    d.members.contains(id)
}

/// Outcome of registering `member`: only the admin may register, and
/// re-registering an existing member is a no-op, not an error.
pub open spec fn register_outcome(d: DaoModel, admin: u64, member: u64) -> Result<
    DaoModel,
    GovError,
> {
    if admin != d.admin {
        Err(GovError::Unauthorized)
    } else if d.members.contains(member) {
        Ok(d)
    } else {
        Ok(DaoModel { members: d.members.push(member), ..d })
    }
}

/// The record appended for a proposal created at time `now`: Pending, with
/// zero tallies and the voting window still unset.
pub open spec fn pending_proposal(
    creator: u64,
    title: Seq<char>,
    description: Seq<char>,
    action: Seq<u8>,
    now: nat,
) -> ProposalModel {
    ProposalModel {
        creator,
        title,
        description,
        action,
        status: ProposalStatus::Pending,
        yes_weight: 0,
        no_weight: 0,
        created_at: now,
        voting_starts_at: 0,
        voting_ends_at: 0,
    }
}

/// Outcome of creating a proposal: only members may create; the new record is
/// appended at the next sequential index.
pub open spec fn create_outcome(
    d: DaoModel,
    creator: u64,
    title: Seq<char>,
    description: Seq<char>,
    action: Seq<u8>,
    now: nat,
) -> Result<DaoModel, GovError> {
    if !is_member(d, creator) {
        Err(GovError::Unauthorized)
    } else {
        Ok(
            DaoModel {
                proposals: d.proposals.push(
                    pending_proposal(creator, title, description, action, now),
                ),
                ..d
            },
        )
    }
}

/// Outcome of starting the voting window at time `now`: only the admin may
/// start, only a Pending proposal can be started, and the window
/// `[now, now + voting_period)` is set atomically, exactly once.
pub open spec fn start_outcome(d: DaoModel, admin: u64, proposal_id: u32, now: nat) -> Result<
    DaoModel,
    GovError,
> {
    if admin != d.admin {
        Err(GovError::Unauthorized)
    } else if proposal_id >= d.proposals.len() {
        Err(GovError::NotFound)
    } else if !(d.proposals[proposal_id as int].status is Pending) {
        Err(GovError::InvalidState)
    } else {
        let p = d.proposals[proposal_id as int];
        let started = ProposalModel {
            status: ProposalStatus::Active,
            voting_starts_at: now,
            voting_ends_at: now + d.voting_period,
            ..p
        };
        Ok(DaoModel { proposals: d.proposals.update(proposal_id as int, started), ..d })
    }
}

/// A proposal with one more vote of the given weight tallied on the chosen
/// side.
pub open spec fn with_vote(p: ProposalModel, support: bool, weight: u64) -> ProposalModel {
    if support {
        ProposalModel { yes_weight: (p.yes_weight + weight) as nat, ..p }
    } else {
        ProposalModel { no_weight: (p.no_weight + weight) as nat, ..p }
    }
}

/// Outcome of casting a vote at time `now` with the oracle-sampled `weight`:
/// the voter must be a member with positive weight, the proposal must exist
/// and be Active, and the clock must read strictly before the window's end.
pub open spec fn vote_outcome(
    d: DaoModel,
    voter: u64,
    proposal_id: u32,
    support: bool,
    weight: u64,
    now: nat,
) -> Result<DaoModel, GovError> {
    if !is_member(d, voter) {
        Err(GovError::Unauthorized)
    } else if weight == 0 {
        Err(GovError::Unauthorized)
    } else if proposal_id >= d.proposals.len() {
        Err(GovError::NotFound)
    } else if !(d.proposals[proposal_id as int].status is Active) {
        Err(GovError::InvalidState)
    } else if now >= d.proposals[proposal_id as int].voting_ends_at {
        Err(GovError::WindowClosed)
    } else {
        let voted = with_vote(d.proposals[proposal_id as int], support, weight);
        Ok(DaoModel { proposals: d.proposals.update(proposal_id as int, voted), ..d })
    }
}

/// Outcome of resolving a proposal at time `now`: any member may resolve once
/// the window has ended; a strict majority of yes weight executes the
/// proposal and hands back its action payload, anything else — a tie
/// included — fails it.
pub open spec fn resolve_outcome(d: DaoModel, executor: u64, proposal_id: u32, now: nat) -> Result<
    (DaoModel, Option<Seq<u8>>),
    GovError,
> {
    if !is_member(d, executor) {
        Err(GovError::Unauthorized)
    } else if proposal_id >= d.proposals.len() {
        Err(GovError::NotFound)
    } else if !(d.proposals[proposal_id as int].status is Active
        || d.proposals[proposal_id as int].status is Passed) {
        Err(GovError::InvalidState)
    } else if now < d.proposals[proposal_id as int].voting_ends_at {
        Err(GovError::WindowOpen)
    } else {
        let p = d.proposals[proposal_id as int];
        if p.yes_weight > p.no_weight {
            let executed = ProposalModel { status: ProposalStatus::Executed, ..p };
            Ok(
                (
                    DaoModel { proposals: d.proposals.update(proposal_id as int, executed), ..d },
                    Some(p.action),
                ),
            )
        } else {
            let failed = ProposalModel { status: ProposalStatus::Failed, ..p };
            Ok(
                (
                    DaoModel { proposals: d.proposals.update(proposal_id as int, failed), ..d },
                    None,
                ),
            )
        }
    }
}

/// The tally increment performed by a successful vote stays within the
/// machine word. This is a machine limit, not a rule of the design: the
/// model's tallies are unbounded.
pub open spec fn vote_fits(
    d: DaoModel,
    voter: u64,
    proposal_id: u32,
    support: bool,
    weight: u64,
    now: nat,
) -> bool {
    vote_outcome(d, voter, proposal_id, support, weight, now) is Ok ==> {
        let p = d.proposals[proposal_id as int];
        (if support {
            p.yes_weight
        } else {
            p.no_weight
        }) + weight <= u64::MAX
    }
}

/// The voting window set by a successful start stays within the machine word.
pub open spec fn start_fits(d: DaoModel, admin: u64, proposal_id: u32, now: nat) -> bool {
    start_outcome(d, admin, proposal_id, now) is Ok ==> now + d.voting_period <= u64::MAX
}

/// The governance state: member registry, proposal store and the
/// configuration fixed at initialization. The host environment persists a
/// value of this type between calls, reads the clock and the voting-power
/// oracle, and passes both in as plain arguments.
pub struct DaoVotingSystem {
    gov_token: u64,
    admin: u64,
    voting_period: u64,
    members: Vec<u64>,
    proposals: Vec<Proposal>,
}

impl View for DaoVotingSystem {
    type V = DaoModel;

    closed spec fn view(&self) -> DaoModel {
        DaoModel {
            gov_token: self.gov_token,
            admin: self.admin,
            voting_period: self.voting_period as nat,
            members: self.members@,
            proposals: Seq::new(self.proposals@.len(), |i: int| self.proposals@[i]@),
        }
    }
}

/// True exactly when `id` occurs in `members`.
fn contains_id(members: &Vec<u64>, id: u64) -> (found: bool)
    ensures
        found == members@.contains(id),
{
    let mut i: usize = 0;
    while i < members.len()
        invariant
            0 <= i <= members@.len(),
            forall|j: int| 0 <= j < i ==> members@[j] != id,
        decreases members@.len() - i,
    {
        if members[i] == id {
            assert(members@.contains(id)) by {
                assert(members@[i as int] == id);
            }
            return true;
        }
        i += 1;
    }
    false
}

impl DaoVotingSystem {
    /// Sets up a fresh governance state: the oracle's token address, the
    /// single admin identity and the voting-period duration in seconds, with
    /// no members and no proposals. Setup never fails.
    pub fn initialize(gov_token: u64, admin: u64, voting_period: u64) -> (dao: Self)
        ensures
            dao@ == (DaoModel {
                gov_token,
                admin,
                voting_period: voting_period as nat,
                members: Seq::<u64>::empty(),
                proposals: Seq::<ProposalModel>::empty(),
            }),
    {
        let dao = DaoVotingSystem {
            gov_token,
            admin,
            voting_period,
            members: Vec::new(),
            proposals: Vec::new(),
        };
        proof {
            assert(dao@.members =~= Seq::<u64>::empty());
            assert(dao@.proposals =~= Seq::<ProposalModel>::empty());
        }
        dao
    }

    /// Pure membership lookup: false for unknown identities.
    pub fn is_member(&self, id: u64) -> (member: bool)
        ensures
            member == self@.members.contains(id),
    {
        contains_id(&self.members, id)
    }

    /// Registers `member`. Fails with `Unauthorized` unless `admin` is the
    /// configured admin; re-registering is a no-op. Membership is monotonic:
    /// no removal operation exists.
    pub fn add_member(&mut self, admin: u64, member: u64) -> (result: Result<(), GovError>)
        ensures
            match result {
                Ok(()) => register_outcome(old(self)@, admin, member) == Ok::<DaoModel, GovError>(
                    final(self)@,
                ),
                Err(e) => final(self)@ == old(self)@ && register_outcome(old(self)@, admin, member)
                    == Err::<DaoModel, GovError>(e),
            },
    {
        if admin != self.admin {
            return Err(GovError::Unauthorized);
        }
        if !contains_id(&self.members, member) {
            self.members.push(member);
        }
        proof {
            assert(self@.proposals =~= old(self)@.proposals);
            if !old(self)@.members.contains(member) {
                assert(self@ =~= DaoModel { members: old(self)@.members.push(member), ..old(self)@ });
            } else {
                assert(self@ =~= old(self)@);
            }
        }
        Ok(())
    }

    /// Appends a new Pending proposal created by `creator` at clock reading
    /// `now` and returns its index. Fails with `Unauthorized` — appending
    /// nothing — unless `creator` is a registered member.
    pub fn create_proposal(
        &mut self,
        creator: u64,
        title: String,
        description: String,
        action: [u8; 32],
        now: u64,
    ) -> (result: Result<u32, GovError>)
        requires
            old(self)@.proposals.len() < u32::MAX,
        ensures
            match result {
                Ok(id) => create_outcome(
                    old(self)@,
                    creator,
                    title@,
                    description@,
                    action@,
                    now as nat,
                ) == Ok::<DaoModel, GovError>(final(self)@) && id == old(self)@.proposals.len(),
                Err(e) => final(self)@ == old(self)@ && create_outcome(
                    old(self)@,
                    creator,
                    title@,
                    description@,
                    action@,
                    now as nat,
                ) == Err::<DaoModel, GovError>(e),
            },
    {
        if !contains_id(&self.members, creator) {
            return Err(GovError::Unauthorized);
        }
        let id = self.proposals.len() as u32;
        let proposal = Proposal {
            creator,
            title,
            description,
            action,
            status: ProposalStatus::Pending,
            yes_weight: 0,
            no_weight: 0,
            created_at: now,
            voting_starts_at: 0,
            voting_ends_at: 0,
        };
        self.proposals.push(proposal);
        proof {
            assert(self@.proposals =~~= old(self)@.proposals.push(
                pending_proposal(creator, title@, description@, action@, now as nat),
            ));
            assert(self@ =~~= DaoModel {
                proposals: old(self)@.proposals.push(
                    pending_proposal(creator, title@, description@, action@, now as nat),
                ),
                ..old(self)@
            });
        }
        Ok(id)
    }

    /// Opens the voting window of a Pending proposal at clock reading `now`:
    /// the window becomes exactly `[now, now + voting_period)`. Fails with
    /// `Unauthorized` unless `admin` is the configured admin, `NotFound` when
    /// the index is out of bounds, and `InvalidState` when the proposal is
    /// not Pending.
    pub fn start_voting(&mut self, admin: u64, proposal_id: u32, now: u64) -> (result: Result<
        (),
        GovError,
    >)
        requires
            start_fits(old(self)@, admin, proposal_id, now as nat),
        ensures
            match result {
                Ok(()) => start_outcome(old(self)@, admin, proposal_id, now as nat) == Ok::<
                    DaoModel,
                    GovError,
                >(final(self)@),
                Err(e) => final(self)@ == old(self)@ && start_outcome(
                    old(self)@,
                    admin,
                    proposal_id,
                    now as nat,
                ) == Err::<DaoModel, GovError>(e),
            },
    {
        if admin != self.admin {
            return Err(GovError::Unauthorized);
        }
        let idx = proposal_id as usize;
        if idx >= self.proposals.len() {
            return Err(GovError::NotFound);
        }
        if !(self.proposals[idx].status == ProposalStatus::Pending) {
            return Err(GovError::InvalidState);
        }
        let period = self.voting_period;
        let p = &mut self.proposals[idx];
        p.status = ProposalStatus::Active;
        p.voting_starts_at = now;
        p.voting_ends_at = now + period;
        proof {
            let started = ProposalModel {
                status: ProposalStatus::Active,
                voting_starts_at: now as nat,
                voting_ends_at: now as nat + old(self)@.voting_period,
                ..old(self)@.proposals[proposal_id as int]
            };
            assert(self@.proposals =~~= old(self)@.proposals.update(proposal_id as int, started));
            assert(self@ =~~= DaoModel {
                proposals: old(self)@.proposals.update(proposal_id as int, started),
                ..old(self)@
            });
        }
        Ok(())
    }

    /// Casts a vote: adds `weight` — the voting-power oracle's answer for
    /// `voter`, sampled by the host at this very call — to the chosen tally.
    /// Fails with `Unauthorized` when `voter` is not a member or `weight` is
    /// zero, `NotFound` when the index is out of bounds, `InvalidState` when
    /// the proposal is not Active, and `WindowClosed` when `now` is at or
    /// past the window's end. A member may vote more than once; each vote
    /// counts the weight sampled at its own call.
    pub fn vote(
        &mut self,
        voter: u64,
        proposal_id: u32,
        support: bool,
        weight: u64,
        now: u64,
    ) -> (result: Result<(), GovError>)
        requires
            vote_fits(old(self)@, voter, proposal_id, support, weight, now as nat),
        ensures
            match result {
                Ok(()) => vote_outcome(old(self)@, voter, proposal_id, support, weight, now as nat)
                    == Ok::<DaoModel, GovError>(final(self)@),
                Err(e) => final(self)@ == old(self)@ && vote_outcome(
                    old(self)@,
                    voter,
                    proposal_id,
                    support,
                    weight,
                    now as nat,
                ) == Err::<DaoModel, GovError>(e),
            },
    {
        if !contains_id(&self.members, voter) {
            return Err(GovError::Unauthorized);
        }
        if weight == 0 {
            return Err(GovError::Unauthorized);
        }
        let idx = proposal_id as usize;
        if idx >= self.proposals.len() {
            return Err(GovError::NotFound);
        }
        if !(self.proposals[idx].status == ProposalStatus::Active) {
            return Err(GovError::InvalidState);
        }
        if now >= self.proposals[idx].voting_ends_at {
            return Err(GovError::WindowClosed);
        }
        let p = &mut self.proposals[idx];
        if support {
            p.yes_weight = p.yes_weight + weight;
        } else {
            p.no_weight = p.no_weight + weight;
        }
        proof {
            let voted = with_vote(old(self)@.proposals[proposal_id as int], support, weight);
            assert(self@.proposals =~~= old(self)@.proposals.update(proposal_id as int, voted));
            assert(self@ =~~= DaoModel {
                proposals: old(self)@.proposals.update(proposal_id as int, voted),
                ..old(self)@
            });
        }
        Ok(())
    }

    /// Resolves a proposal whose window has ended: a strict yes majority
    /// makes it Executed and returns `Some(action)` — the execution
    /// notification for the host's audit sink — anything else, a tie
    /// included, makes it Failed and returns `None`. Resolution is
    /// permissionless among members: it fails with `Unauthorized` only when
    /// `executor` is not a member, with `NotFound` when the index is out of
    /// bounds, with `InvalidState` when the proposal is not Active (or
    /// transiently Passed), and with `WindowOpen` while `now` is strictly
    /// before the window's end.
    pub fn execute_proposal(&mut self, executor: u64, proposal_id: u32, now: u64) -> (result:
        Result<Option<[u8; 32]>, GovError>)
        ensures
            match result {
                Ok(notice) => resolve_outcome(old(self)@, executor, proposal_id, now as nat)
                    == Ok::<(DaoModel, Option<Seq<u8>>), GovError>(
                    (
                        final(self)@,
                        match notice {
                            Some(action) => Some(action@),
                            None => None,
                        },
                    ),
                ),
                Err(e) => final(self)@ == old(self)@ && resolve_outcome(
                    old(self)@,
                    executor,
                    proposal_id,
                    now as nat,
                ) == Err::<(DaoModel, Option<Seq<u8>>), GovError>(e),
            },
    {
        if !contains_id(&self.members, executor) {
            return Err(GovError::Unauthorized);
        }
        let idx = proposal_id as usize;
        if idx >= self.proposals.len() {
            return Err(GovError::NotFound);
        }
        let status = self.proposals[idx].status;
        if !(status == ProposalStatus::Active || status == ProposalStatus::Passed) {
            return Err(GovError::InvalidState);
        }
        if now < self.proposals[idx].voting_ends_at {
            return Err(GovError::WindowOpen);
        }
        let passed = self.proposals[idx].yes_weight > self.proposals[idx].no_weight;
        let p = &mut self.proposals[idx];
        let notice: Option<[u8; 32]> = if passed {
            p.status = ProposalStatus::Executed;
            Some(p.action)
        } else {
            p.status = ProposalStatus::Failed;
            None
        };
        proof {
            let outcome = ProposalModel {
                status: if passed {
                    ProposalStatus::Executed
                } else {
                    ProposalStatus::Failed
                },
                ..old(self)@.proposals[proposal_id as int]
            };
            assert(self@.proposals =~~= old(self)@.proposals.update(proposal_id as int, outcome));
            assert(self@ =~~= DaoModel {
                proposals: old(self)@.proposals.update(proposal_id as int, outcome),
                ..old(self)@
            });
        }
        Ok(notice)
    }

    /// Reads the full record at `proposal_id`; fails with `NotFound` when the
    /// index is out of the store's current bounds.
    pub fn get_proposal(&self, proposal_id: u32) -> (result: Result<&Proposal, GovError>)
        ensures
            match result {
                Ok(p) => proposal_id < self@.proposals.len() && p@ == self@.proposals[proposal_id as int],
                Err(e) => proposal_id >= self@.proposals.len() && e == GovError::NotFound,
            },
    {
        let idx = proposal_id as usize;
        if idx >= self.proposals.len() {
            return Err(GovError::NotFound);
        }
        Ok(&self.proposals[idx])
    }
}

} // verus!
