//! General laws of the governance transitions, each proved for every state
//! and every input its statement allows: how tallies accumulate over whole
//! vote sequences, that resolution finalizes an index exactly once, the exact
//! extent of the voting window, and the deterministic tie-break.

use vstd::prelude::*;

use crate::errors::GovError;
use crate::dao_voting::{DaoModel, ProposalModel, ProposalStatus, is_member, register_outcome,
    create_outcome, vote_outcome, start_outcome, resolve_outcome};

verus! {

/// Any one governance operation, as the argument of the single step relation
/// the invariant laws are stated over.
pub ghost enum DaoOp {
    Register { admin: u64, member: u64 },
    Create { creator: u64, title: Seq<char>, description: Seq<char>, action: Seq<u8>, now: nat },
    Start { admin: u64, proposal_id: u32, now: nat },
    Vote { voter: u64, proposal_id: u32, support: bool, weight: u64, now: nat },
    Resolve { executor: u64, proposal_id: u32, now: nat },
}

/// The state an operation leads to, dropping any notification payload.
pub open spec fn step(d: DaoModel, op: DaoOp) -> Result<DaoModel, GovError> {
    match op {
        DaoOp::Register { admin, member } => register_outcome(d, admin, member),
        DaoOp::Create { creator, title, description, action, now } => create_outcome(
            d,
            creator,
            title,
            description,
            action,
            now,
        ),
        DaoOp::Start { admin, proposal_id, now } => start_outcome(d, admin, proposal_id, now),
        DaoOp::Vote { voter, proposal_id, support, weight, now } => vote_outcome(
            d,
            voter,
            proposal_id,
            support,
            weight,
            now,
        ),
        DaoOp::Resolve { executor, proposal_id, now } => match resolve_outcome(
            d,
            executor,
            proposal_id,
            now,
        ) {
            Ok((d2, _)) => Ok(d2),
            Err(e) => Err(e),
        },
    }
}

/// A proposal's position in the lifecycle ordering
/// Pending < Active < {Passed, Failed} < Executed.
pub open spec fn status_rank(s: ProposalStatus) -> nat {
    match s {
        ProposalStatus::Pending => 0,
        ProposalStatus::Active => 1,
        ProposalStatus::Passed => 2,
        ProposalStatus::Failed => 2,
        ProposalStatus::Executed => 3,
    }
}

/// No operation removes or reorders records, regresses a status, or lowers a
/// tally. Records are only reclassified in place: the fields fixed at
/// creation never change, the voting window moves only at the
/// Pending-to-Active transition, and tallies move only on an Active proposal,
/// only by a vote cast strictly before its window's end.
pub proof fn lemma_step_advances(d: DaoModel, op: DaoOp, d2: DaoModel)
    requires
        step(d, op) == Ok::<DaoModel, GovError>(d2),
    ensures
        d2.proposals.len() >= d.proposals.len(),
        forall|i: int|
            0 <= i < d.proposals.len() ==> (#[trigger] d2.proposals[i]).creator == d.proposals[
                i
            ].creator && d2.proposals[i].title == d.proposals[i].title && d2.proposals[
                i
            ].description == d.proposals[i].description && d2.proposals[i].action == d.proposals[
                i
            ].action && d2.proposals[i].created_at == d.proposals[i].created_at,
        forall|i: int|
            0 <= i < d.proposals.len() && ((#[trigger] d2.proposals[i]).voting_starts_at
                != d.proposals[i].voting_starts_at || d2.proposals[i].voting_ends_at != d.proposals[
                i
            ].voting_ends_at) ==> d.proposals[i].status is Pending && d2.proposals[
                i
            ].status is Active,
        forall|i: int|
            0 <= i < d.proposals.len() ==> status_rank((#[trigger] d2.proposals[i]).status)
                >= status_rank(d.proposals[i].status),
        forall|i: int|
            0 <= i < d.proposals.len() ==> (#[trigger] d2.proposals[i]).yes_weight
                >= d.proposals[i].yes_weight && d2.proposals[i].no_weight >= d.proposals[
                i
            ].no_weight,
        forall|i: int|
            0 <= i < d.proposals.len() && (#[trigger] d2.proposals[i]).yes_weight + d2.proposals[
                i
            ].no_weight != d.proposals[i].yes_weight + d.proposals[i].no_weight ==> {
                &&& d.proposals[i].status is Active
                &&& op matches DaoOp::Vote { proposal_id, now, .. } && proposal_id == i && now
                    < d.proposals[i].voting_ends_at
            },
{
}

/// Well-formedness of one record: until voting starts the tallies are zero
/// and the window unset; once started, the window is exactly
/// `[voting_starts_at, voting_starts_at + voting_period)`.
pub open spec fn proposal_wf(p: ProposalModel, voting_period: nat) -> bool {
    &&& (p.status is Pending ==> p.yes_weight == 0 && p.no_weight == 0 && p.voting_starts_at == 0
        && p.voting_ends_at == 0)
    &&& (!(p.status is Pending) ==> p.voting_ends_at == p.voting_starts_at + voting_period)
}

/// Well-formedness of the whole state.
pub open spec fn dao_wf(d: DaoModel) -> bool {
    forall|i: int|
        0 <= i < d.proposals.len() ==> proposal_wf(#[trigger] d.proposals[i], d.voting_period)
}

/// Every operation preserves well-formedness, so the window of every started
/// proposal in every reachable state is set exactly once, atomically, with
/// its end exactly one voting period past its start.
pub proof fn lemma_step_preserves_wf(d: DaoModel, op: DaoOp, d2: DaoModel)
    requires
        dao_wf(d),
        step(d, op) == Ok::<DaoModel, GovError>(d2),
    ensures
        dao_wf(d2),
{
}

/// One cast-vote call: the voter, the chosen side, the weight the oracle
/// reported at that call, and the clock reading at that call.
pub ghost struct VoteCall {
    pub voter: u64,
    pub support: bool,
    pub weight: u64,
    pub now: nat,
}

/// The state after a sequence of cast-vote calls on one proposal, applied in
/// order; the first refused call makes the whole sequence refuse.
pub open spec fn apply_votes(d: DaoModel, proposal_id: u32, calls: Seq<VoteCall>) -> Result<
    DaoModel,
    GovError,
>
    decreases calls.len(),
{
    if calls.len() == 0 {
        Ok(d)
    } else {
        match vote_outcome(
            d,
            calls[0].voter,
            proposal_id,
            calls[0].support,
            calls[0].weight,
            calls[0].now,
        ) {
            Ok(d1) => apply_votes(d1, proposal_id, calls.drop_first()),
            Err(e) => Err(e),
        }
    }
}

/// The sum of the sampled weights of the calls cast on the given side.
pub open spec fn sum_weights(calls: Seq<VoteCall>, support: bool) -> nat
    decreases calls.len(),
{
    if calls.len() == 0 {
        0
    } else {
        (if calls[0].support == support {
            calls[0].weight as nat
        } else {
            0
        }) + sum_weights(calls.drop_first(), support)
    }
}

/// For every sequence of accepted cast-vote calls on a proposal, the final
/// tallies are the initial tallies plus each call's sampled weight,
/// partitioned by the chosen side — so `yes_weight + no_weight` grows by
/// exactly the sum of all sampled weights.
pub proof fn lemma_vote_tally_partition(
    d: DaoModel,
    proposal_id: u32,
    calls: Seq<VoteCall>,
    d_after: DaoModel,
)
    requires
        proposal_id < d.proposals.len(),
        apply_votes(d, proposal_id, calls) == Ok::<DaoModel, GovError>(d_after),
    ensures
        d_after.proposals.len() == d.proposals.len(),
        d_after.proposals[proposal_id as int].yes_weight == d.proposals[
            proposal_id as int
        ].yes_weight + sum_weights(calls, true),
        d_after.proposals[proposal_id as int].no_weight == d.proposals[
            proposal_id as int
        ].no_weight + sum_weights(calls, false),
    decreases calls.len(),
{
    if calls.len() == 0 {
    } else {
        let c = calls[0];
        let r1 = vote_outcome(d, c.voter, proposal_id, c.support, c.weight, c.now);
        let d1 = r1->Ok_0;
        lemma_vote_tally_partition(d1, proposal_id, calls.drop_first(), d_after);
    }
}

/// Resolution finalizes an index exactly once: one successful resolution
/// takes the proposal from Active (or transiently Passed) to a durable
/// Executed or Failed, and every later resolution attempt on that index by
/// any member fails with `InvalidState`, whatever the clock then reads.
pub proof fn lemma_resolve_only_once(
    d: DaoModel,
    executor: u64,
    proposal_id: u32,
    now: nat,
    d_after: DaoModel,
    notice: Option<Seq<u8>>,
    executor2: u64,
    now2: nat,
)
    requires
        resolve_outcome(d, executor, proposal_id, now) == Ok::<
            (DaoModel, Option<Seq<u8>>),
            GovError,
        >((d_after, notice)),
        is_member(d_after, executor2),
    ensures
        d.proposals[proposal_id as int].status is Active || d.proposals[
            proposal_id as int
        ].status is Passed,
        d_after.proposals[proposal_id as int].status is Executed || d_after.proposals[
            proposal_id as int
        ].status is Failed,
        resolve_outcome(d_after, executor2, proposal_id, now2) == Err::<
            (DaoModel, Option<Seq<u8>>),
            GovError,
        >(GovError::InvalidState),
{
}

/// The voting window is exact: a proposal created at time `t` and started at
/// time `s >= t` has `voting_ends_at == s + voting_period`, and a vote cast
/// at any time at or past that end fails with `WindowClosed`, whoever casts
/// it and with whatever weight.
pub proof fn lemma_voting_window_exact(
    d: DaoModel,
    admin: u64,
    proposal_id: u32,
    s: nat,
    d_after: DaoModel,
    voter: u64,
    support: bool,
    weight: u64,
    now: nat,
)
    requires
        start_outcome(d, admin, proposal_id, s) == Ok::<DaoModel, GovError>(d_after),
        d.proposals[proposal_id as int].created_at <= s,
        now >= s + d.voting_period,
    ensures
        d_after.proposals[proposal_id as int].voting_ends_at == s + d.voting_period,
        is_member(d_after, voter) && weight > 0 ==> vote_outcome(
            d_after,
            voter,
            proposal_id,
            support,
            weight,
            now,
        ) == Err::<DaoModel, GovError>(GovError::WindowClosed),
{
    assert(d_after.proposals[proposal_id as int].status is Active);
    if is_member(d_after, voter) && weight > 0 {
        assert(vote_outcome(d_after, voter, proposal_id, support, weight, now) == Err::<
            DaoModel,
            GovError,
        >(GovError::WindowClosed));
    }
}

/// Resolution strictly before the window's end fails with `WindowOpen`,
/// regardless of the tallies at that moment.
pub proof fn lemma_resolve_window_open(d: DaoModel, executor: u64, proposal_id: u32, now: nat)
    requires
        is_member(d, executor),
        proposal_id < d.proposals.len(),
        d.proposals[proposal_id as int].status is Active || d.proposals[
            proposal_id as int
        ].status is Passed,
        now < d.proposals[proposal_id as int].voting_ends_at,
    ensures
        resolve_outcome(d, executor, proposal_id, now) == Err::<
            (DaoModel, Option<Seq<u8>>),
            GovError,
        >(GovError::WindowOpen),
{
}

/// Tie-break: equal yes and no weight at resolution time deterministically
/// fails the proposal — passing demands a strict majority — and hands no
/// execution notification back.
pub proof fn lemma_tie_resolves_failed(
    d: DaoModel,
    executor: u64,
    proposal_id: u32,
    now: nat,
    d_after: DaoModel,
    notice: Option<Seq<u8>>,
)
    requires
        d.proposals[proposal_id as int].yes_weight == d.proposals[proposal_id as int].no_weight,
        resolve_outcome(d, executor, proposal_id, now) == Ok::<
            (DaoModel, Option<Seq<u8>>),
            GovError,
        >((d_after, notice)),
    ensures
        d_after.proposals[proposal_id as int].status is Failed,
        notice is None,
{
}

} // verus!
