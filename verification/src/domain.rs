use crate::rate::{Rate, Ratio};
use vstd::prelude::*;

verus! {

/// The number of passes that a validator must hold to be rewarded: exactly
/// this many, neither fewer nor more.
pub const REQUIRED_PASSES: u8 = 3;

/// The six criteria by which a validator is judged.
#[derive(Clone, Copy, Debug, PartialEq, Eq, Structural)]
pub struct Conditions {
    pub ftso_anchor_feeds: bool,
    pub ftso_block_latency_feeds: bool,
    pub fdc: bool,
    pub staking: bool,
    pub passes: u8,
    pub eligible_for_reward: bool,
}

impl Conditions {
    /// All six criteria hold.
    pub open spec fn all_met(self) -> bool {
        &&& self.eligible_for_reward
        &&& self.ftso_anchor_feeds
        &&& self.ftso_block_latency_feeds
        &&& self.fdc
        &&& self.staking
        &&& self.passes == REQUIRED_PASSES
    }

    /// Computes [`Conditions::all_met`].
    pub fn meets_all(&self) -> (b: bool)
        ensures
            b == self.all_met(),
    {
        self.eligible_for_reward && self.ftso_anchor_feeds && self.ftso_block_latency_feeds
            && self.fdc && self.staking && self.passes == REQUIRED_PASSES
    }
}

/// What the source reports of a validator as a data provider. It bears on
/// neither eligibility nor rank.
#[derive(Clone, Copy, Debug, PartialEq, Eq, Structural)]
pub struct ProviderStats {
    pub primary: Option<u32>,
    pub secondary: Option<u32>,
    pub availability: Option<Ratio>,
    pub active: Option<bool>,
}

/// The three components of a validator's reward rate, and their sum.
#[derive(Clone, Copy, Debug, PartialEq, Eq, Structural)]
pub struct RewardRates {
    pub wnat: Rate,
    pub mirror: Rate,
    pub pure: Rate,
    pub combined: Rate,
}

/// A validator as the library publishes it.
#[derive(Debug)]
pub struct Validator {
    pub id: u32,
    pub name: String,
    pub node_id: Option<String>,
    pub delegation_address: Option<String>,
    pub conditions: Option<Conditions>,
    pub provider_stats: Option<ProviderStats>,
    pub reward_rates: Option<RewardRates>,
}

/// The mathematical value of a [`Validator`].
pub struct ValidatorView {
    pub id: u32,
    pub name: Seq<char>,
    pub node_id: Option<Seq<char>>,
    pub delegation_address: Option<Seq<char>>,
    pub conditions: Option<Conditions>,
    pub provider_stats: Option<ProviderStats>,
    pub reward_rates: Option<RewardRates>,
}

/// The text of an optional string.
pub open spec fn text_of(s: Option<String>) -> Option<Seq<char>> {
    match s {
        Some(t) => Some(t@),
        None => None,
    }
}

impl View for Validator {
    type V = ValidatorView;

    open spec fn view(&self) -> ValidatorView {
        ValidatorView {
            id: self.id,
            name: self.name@,
            node_id: text_of(self.node_id),
            delegation_address: text_of(self.delegation_address),
            conditions: self.conditions,
            provider_stats: self.provider_stats,
            reward_rates: self.reward_rates,
        }
    }
}

impl ValidatorView {
    /// The validator meets every criterion. One without conditions meets
    /// none.
    pub open spec fn eligible(self) -> bool {
        match self.conditions {
            Some(c) => c.all_met(),
            None => false,
        }
    }

    /// The rate by which the validator is ranked: its combined rate, or
    /// zero where it has no reward rates.
    pub open spec fn effective_rate(self) -> Rate {
        match self.reward_rates {
            Some(r) => r.combined,
            None => Rate::spec_zero(),
        }
    }

    /// The key of [`ValidatorView::effective_rate`].
    pub open spec fn rank_key(self) -> int {
        self.effective_rate().order_key()
    }
}

/// The values of a list of validators, one by one.
pub open spec fn views(s: Seq<Validator>) -> Seq<ValidatorView> {
    Seq::new(s.len(), |i: int| s[i]@)
}

/// A copy of an optional string.
pub fn clone_text(s: &Option<String>) -> (r: Option<String>)
    ensures
        r == *s,
{
    match s {
        Some(t) => Some(t.clone()),
        None => None,
    }
}

impl Clone for Validator {
    fn clone(&self) -> (r: Validator)
        ensures
            r == *self,
    {
        Validator {
            id: self.id,
            name: self.name.clone(),
            node_id: clone_text(&self.node_id),
            delegation_address: clone_text(&self.delegation_address),
            conditions: self.conditions,
            provider_stats: self.provider_stats,
            reward_rates: self.reward_rates,
        }
    }
}

impl Validator {
    /// Computes [`ValidatorView::eligible`].
    pub fn is_eligible(&self) -> (b: bool)
        ensures
            b == self@.eligible(),
    {
        match &self.conditions {
            Some(c) => c.meets_all(),
            None => false,
        }
    }

    /// Computes [`ValidatorView::effective_rate`].
    pub fn effective_rate(&self) -> (r: Rate)
        ensures
            r == self@.effective_rate(),
    {
        match &self.reward_rates {
            Some(r) => r.combined,
            None => Rate::zero(),
        }
    }

    /// Computes [`ValidatorView::rank_key`].
    pub fn rank_key(&self) -> (k: i64)
        ensures
            k == self@.rank_key(),
    {
        self.effective_rate().key()
    }
}

/// A copy of a list of validators.
pub fn clone_validators(list: &Vec<Validator>) -> (copy: Vec<Validator>)
    ensures
        copy@ == list@,
{
    let mut copy: Vec<Validator> = Vec::new();
    let mut i: usize = 0;
    while i < list.len()
        invariant
            i <= list.len(),
            copy@ == list@.take(i as int),
        decreases list.len() - i,
    {
        copy.push(list[i].clone());
        assert(copy@ =~= list@.take(i + 1));
        i += 1;
    }
    assert(list@.take(list.len() as int) =~= list@);
    copy
}

/// Eligibility is the conjunction of the six criteria, on a validator that
/// has conditions at all.
pub proof fn lemma_eligible_iff_all_criteria(v: ValidatorView)
    ensures
        v.eligible() <==> (v.conditions is Some && {
            let c = v.conditions->0;
            c.eligible_for_reward && c.ftso_anchor_feeds && c.ftso_block_latency_feeds && c.fdc
                && c.staking && c.passes == 3
        }),
{
}

/// Failing a single criterion makes an eligible validator ineligible: each
/// flag when cleared, and the pass count when set to anything but three.
pub proof fn lemma_one_failure_disqualifies(v: ValidatorView, passes: u8)
    requires
        v.eligible(),
        passes != 3,
    ensures
        ({
            let c = v.conditions->0;
            &&& !(ValidatorView { conditions: Some(Conditions { eligible_for_reward: false, ..c }), ..v }).eligible()
            &&& !(ValidatorView { conditions: Some(Conditions { ftso_anchor_feeds: false, ..c }), ..v }).eligible()
            &&& !(ValidatorView { conditions: Some(Conditions { ftso_block_latency_feeds: false, ..c }), ..v }).eligible()
            &&& !(ValidatorView { conditions: Some(Conditions { fdc: false, ..c }), ..v }).eligible()
            &&& !(ValidatorView { conditions: Some(Conditions { staking: false, ..c }), ..v }).eligible()
            &&& !(ValidatorView { conditions: Some(Conditions { passes: passes, ..c }), ..v }).eligible()
            &&& !(ValidatorView { conditions: None, ..v }).eligible()
        }),
{
}

} // verus!
