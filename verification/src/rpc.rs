//! Plain data carriers for staking queries answered over RPC.

use vstd::prelude::*;

verus! {

/// Where a nominator's staking rewards are sent.
#[derive(Clone, Debug)]
pub enum RawRewardDestination {
    Staked,
    Stash,
    Controller,
    Account(String),
    Unspecified,
}

/// A nominator's staking state.
#[derive(Clone, Debug)]
pub struct RawNominatorInfo {
    pub stash_account: String,
    pub target_validators: Vec<String>,
    pub total_staking: String,
    pub active_staking: String,
    pub rewrds_destination: RawRewardDestination,
}

/// A validator's staking state.
#[derive(Clone, Debug)]
pub struct RawValidatorInfo {
    pub stash_account: String,
    pub state: bool,
    pub total_staking: String,
    pub owner_staking: String,
    pub nominators: String,
    pub commission: String,
    pub can_nominated: bool,
}

/// A storage provider's pledge and reward state.
#[derive(Clone, Debug)]
pub struct RawProvider {
    pub pid: String,
    pub owner: String,
    pub cap_pledge: String,
    pub total_pledge: String,
    pub devices_num: String,
    pub total_punishment: String,
    pub total_rewards: String,
    pub unpaid_rewards: String,
}

} // verus!
