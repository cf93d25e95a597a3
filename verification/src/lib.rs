//! On-ledger governance: members register, submit proposals, cast
//! token-weighted votes during a bounded window, and resolve proposals into a
//! final executed or failed outcome. Two companion contracts follow the same
//! "append record, gate by timestamp, mutate a counter" pattern: a
//! crowdfunding ledger and a time-locked vault.
//!
//! Every operation is a pure state transition: the surrounding host supplies
//! the clock reading and the voting-power oracle's answer as plain arguments,
//! persists the state between calls, and delivers the returned notification
//! payloads to its audit sink.

mod errors;
mod keyed;
mod dao_voting;
mod dao_laws;
mod crowdfunding;
mod time_locked_vault;

pub use errors::GovError;
pub use dao_voting::{DaoVotingSystem, DaoModel, Proposal, ProposalModel, ProposalStatus};
pub use dao_voting::{
    is_member, pending_proposal, with_vote, register_outcome, create_outcome, start_outcome,
    vote_outcome, resolve_outcome, vote_fits, start_fits,
};
pub use dao_laws::{
    VoteCall, apply_votes, sum_weights, lemma_vote_tally_partition, lemma_resolve_only_once,
    lemma_voting_window_exact, lemma_resolve_window_open, lemma_tie_resolves_failed, DaoOp, step,
    status_rank, lemma_step_advances, proposal_wf, dao_wf, lemma_step_preserves_wf,
};
pub use keyed::{map_of, unique_keys};
pub use crowdfunding::{
    CrowdfundingContract, CrowdfundingModel, Campaign, CampaignModel, contribution_of,
    create_campaign_outcome, contribute_outcome, contribute_fits,
};
pub use time_locked_vault::{
    TimeLockedVault, VaultModel, DepositRecord, deposit_outcome, add_beneficiary_outcome,
    withdraw_outcome,
};
