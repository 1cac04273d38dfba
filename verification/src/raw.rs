use crate::rate::Rate;
use vstd::prelude::*;

verus! {

/// The source's record of the criteria. Any field may be missing.
#[derive(Clone, Copy, Debug)]
pub struct FlareEntityMinConditions {
    pub ftso_scaling: Option<bool>,
    pub ftso_fast_updates: Option<bool>,
    pub fdc: Option<bool>,
    pub staking: Option<bool>,
    pub passes_held: Option<u8>,
    pub eligible_for_reward: Option<bool>,
}

/// The source's record of the reward rates. Any field may be missing.
#[derive(Clone, Copy, Debug)]
pub struct FlareRewards {
    pub reward_rate_wnat: Option<Rate>,
    pub reward_rate_mirror: Option<Rate>,
    pub reward_rate_pure: Option<Rate>,
}

/// The source's record of a provider's success rate. `availability` is a
/// percentage.
#[derive(Clone, Copy, Debug)]
pub struct FlareProviderSuccessRate {
    pub primary: Option<u32>,
    pub secondary: Option<u32>,
    pub availability: Option<u32>,
    pub active: Option<bool>,
}

/// The part of the source's denormalized entity that the library reads.
#[derive(Debug)]
pub struct FlareDenormalizedEntity {
    pub node_ids: Vec<String>,
}

/// The part of the source's signing policy that the library reads.
#[derive(Debug)]
pub struct FlareSigningPolicy {
    pub delegation_address: Option<String>,
}

/// One entity as the source reports it. Only the identifier is always
/// there.
#[derive(Debug)]
pub struct FlareEntity {
    pub id: u32,
    pub display_name: Option<String>,
    pub denormalizedentity: Option<FlareDenormalizedEntity>,
    pub entityminimalconditions: Option<FlareEntityMinConditions>,
    pub rewards: Option<FlareRewards>,
    pub providersuccessrate: Option<FlareProviderSuccessRate>,
    pub denormalizedsigningpolicy: Option<FlareSigningPolicy>,
}

} // verus!
