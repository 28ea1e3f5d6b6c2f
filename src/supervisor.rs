use vstd::prelude::*;

use crate::ids::ChainId;
use crate::light_client::LightClientError;

verus! {

/// Where a light-client instance keeps the blocks it trusts.
#[derive(Clone, Debug)]
pub enum StoreConfig {
    Disk { path: String },
    Memory,
}

/// How to reach one peer and where to start trusting it.
#[derive(Clone, Debug)]
pub struct LightClientConfig {
    pub peer_id: String,
    pub address: String,
    pub timeout_secs: u64,
    pub trusted_height: u64,
    pub trusted_header_hash: Vec<u8>,
    pub store: StoreConfig,
}

/// The share of voting power that must sign: `numerator / denominator`.
#[derive(Clone, Copy, Debug, PartialEq, Eq, Structural)]
pub struct TrustThreshold {
    pub numerator: u64,
    pub denominator: u64,
}

/// Light-client settings of one chain.
#[derive(Clone, Debug)]
pub struct ChainConfig {
    pub id: ChainId,
    pub trust_threshold: TrustThreshold,
    pub trusting_period_secs: u64,
    pub clock_drift_secs: u64,
    pub primary: Option<LightClientConfig>,
    pub witnesses: Option<Vec<LightClientConfig>>,
}

/// Settings shared by every instance of a supervisor.
#[derive(Clone, Copy, Debug, PartialEq, Eq, Structural)]
pub struct TrustOptions {
    pub trust_threshold: TrustThreshold,
    pub trusting_period_secs: u64,
    pub clock_drift_secs: u64,
}

/// How an instance establishes its first trusted block.
#[derive(Clone, Copy, Debug, PartialEq, Eq, Structural)]
pub enum TrustStart {
    /// Trust the peer's block at the configured height and hash.
    AtConfiguredHeight,
    /// Resume from the blocks already in the instance's store.
    FromStore,
}

/// What the supervisor of a chain is to be built from: the options given to
/// the primary and to every witness, and how each starts trusting.
#[derive(Clone, Copy, Debug, PartialEq, Eq, Structural)]
pub struct SupervisorPlan {
    pub options: TrustOptions,
    pub start: TrustStart,
    pub witness_count: usize,
}

pub open spec fn trust_options_of(config: ChainConfig) -> TrustOptions {
    TrustOptions {
        trust_threshold: config.trust_threshold,
        trusting_period_secs: config.trusting_period_secs,
        clock_drift_secs: config.clock_drift_secs,
    }
}

pub open spec fn start_of(reset: bool) -> TrustStart {
    if reset {
        TrustStart::AtConfiguredHeight
    } else {
        TrustStart::FromStore
    }
}

/// The options that every instance of the chain's supervisor shares.
pub fn trust_options(config: &ChainConfig) -> (r: TrustOptions)
    ensures
        r == trust_options_of(*config),
{
    TrustOptions {
        trust_threshold: config.trust_threshold,
        trusting_period_secs: config.trusting_period_secs,
        clock_drift_secs: config.clock_drift_secs,
    }
}

/// With `reset` trust starts again from the configured height and hash,
/// otherwise it resumes from the store.
pub fn trust_start(reset: bool) -> (r: TrustStart)
    ensures
        r == start_of(reset),
{
    if reset {
        TrustStart::AtConfiguredHeight
    } else {
        TrustStart::FromStore
    }
}

/// Checks that the chain names a primary peer and a list of witnesses, and
/// plans the supervisor built from them.
pub fn supervisor_plan(config: &ChainConfig, reset: bool) -> (r: Result<
    SupervisorPlan,
    LightClientError,
>)
    ensures
        config.primary is None ==> r == Err::<SupervisorPlan, LightClientError>(
            LightClientError::MissingPrimaryConfig(config.id),
        ),
        config.primary is Some && config.witnesses is None ==> r == Err::<
            SupervisorPlan,
            LightClientError,
        >(LightClientError::MissingWitnessesConfig(config.id)),
        config.primary is Some && config.witnesses is Some ==> (r matches Ok(plan) && plan.options
            == trust_options_of(*config) && plan.start == start_of(reset) && plan.witness_count
            == config.witnesses->0@.len()),
{
    if config.primary.is_none() {
        return Err(LightClientError::MissingPrimaryConfig(config.id.duplicate()));
    }
    let witness_count = match &config.witnesses {
        None => {
            return Err(LightClientError::MissingWitnessesConfig(config.id.duplicate()));
        },
        Some(w) => w.len(),
    };
    Ok(SupervisorPlan { options: trust_options(config), start: trust_start(reset), witness_count })
}

} // verus!
