use crate::domain::{clone_text, Conditions, ProviderStats, RewardRates, Validator, ValidatorView};
use crate::rate::{Rate, Ratio};
use crate::raw::{
    FlareDenormalizedEntity, FlareEntity, FlareEntityMinConditions, FlareProviderSuccessRate,
    FlareRewards, FlareSigningPolicy,
};
use vstd::prelude::*;

verus! {

/// A flag that the source left out counts as not set.
pub open spec fn flag_or_false(flag: Option<bool>) -> bool {
    match flag {
        Some(b) => b,
        None => false,
    }
}

/// A rate that the source left out counts as zero.
pub open spec fn rate_or_zero(rate: Option<Rate>) -> Rate {
    match rate {
        Some(r) => r,
        None => Rate::spec_zero(),
    }
}

/// The criteria of a source record, each missing field at its default.
pub open spec fn normalized_conditions(c: FlareEntityMinConditions) -> Conditions {
    Conditions {
        ftso_anchor_feeds: flag_or_false(c.ftso_scaling),
        ftso_block_latency_feeds: flag_or_false(c.ftso_fast_updates),
        fdc: flag_or_false(c.fdc),
        staking: flag_or_false(c.staking),
        passes: match c.passes_held {
            Some(n) => n,
            None => 0,
        },
        eligible_for_reward: flag_or_false(c.eligible_for_reward),
    }
}

/// The provider statistics of a source record: the counters and the flag as
/// they are, the availability percentage as a ratio.
pub open spec fn normalized_stats(p: FlareProviderSuccessRate) -> ProviderStats {
    ProviderStats {
        primary: p.primary,
        secondary: p.secondary,
        availability: match p.availability {
            Some(percent) => Some(Ratio { hundredths: percent }),
            None => None,
        },
        active: p.active,
    }
}

/// The reward rates of a source record with the given sum: each missing
/// component at zero.
pub open spec fn normalized_rates(r: FlareRewards, combined: Rate) -> RewardRates {
    RewardRates {
        wnat: rate_or_zero(r.reward_rate_wnat),
        mirror: rate_or_zero(r.reward_rate_mirror),
        pure: rate_or_zero(r.reward_rate_pure),
        combined,
    }
}

/// The first node identifier of a source record, if it has one.
pub open spec fn first_node_id(d: Option<FlareDenormalizedEntity>) -> Option<Seq<char>> {
    match d {
        Some(e) => if e.node_ids@.len() > 0 {
            Some(e.node_ids@[0]@)
        } else {
            None
        },
        None => None,
    }
}

/// The delegation address of a source record, if it has one.
pub open spec fn policy_address(p: Option<FlareSigningPolicy>) -> Option<Seq<char>> {
    match p {
        Some(s) => match s.delegation_address {
            Some(a) => Some(a@),
            None => None,
        },
        None => None,
    }
}

/// The name of a source record: its display name, or `Unknown`.
pub open spec fn name_or_unknown(name: Option<String>) -> Seq<char> {
    match name {
        Some(n) => n@,
        None => "Unknown"@,
    }
}

/// The validator that a source record stands for, given the sum of its
/// reward rates. The sum is read only where the record has rewards.
pub open spec fn normalized(e: FlareEntity, combined: Rate) -> ValidatorView {
    ValidatorView {
        id: e.id,
        name: name_or_unknown(e.display_name),
        node_id: first_node_id(e.denormalizedentity),
        delegation_address: policy_address(e.denormalizedsigningpolicy),
        conditions: match e.entityminimalconditions {
            Some(c) => Some(normalized_conditions(c)),
            None => None,
        },
        provider_stats: match e.providersuccessrate {
            Some(p) => Some(normalized_stats(p)),
            None => None,
        },
        reward_rates: match e.rewards {
            Some(r) => Some(normalized_rates(r, combined)),
            None => None,
        },
    }
}

/// `combined` is what `plus` gives for `(wnat + mirror) + pure`.
pub open spec fn sums_to<F: Fn(Rate, Rate) -> Rate>(
    plus: F,
    wnat: Rate,
    mirror: Rate,
    pure: Rate,
    combined: Rate,
) -> bool {
    exists|partial: Rate|
        call_ensures(plus, (wnat, mirror), partial) && #[trigger] call_ensures(
            plus,
            (partial, pure),
            combined,
        )
}

/// Where the addition is a function `f`, the combined rate is
/// `f(f(wnat, mirror), pure)`.
pub proof fn lemma_combined_is_the_sum<F: Fn(Rate, Rate) -> Rate>(
    plus: F,
    f: spec_fn(Rate, Rate) -> Rate,
    wnat: Rate,
    mirror: Rate,
    pure: Rate,
    combined: Rate,
)
    requires
        forall|a: Rate, b: Rate, r: Rate| call_ensures(plus, (a, b), r) ==> r == f(a, b),
        sums_to(plus, wnat, mirror, pure, combined),
    ensures
        combined == f(f(wnat, mirror), pure),
{
}

/// `v` is what the source record `e` stands for under the addition `plus`.
pub open spec fn normalizes_to<F: Fn(Rate, Rate) -> Rate>(
    e: FlareEntity,
    plus: F,
    v: ValidatorView,
) -> bool {
    &&& v == normalized(e, v.effective_rate())
    &&& e.rewards matches Some(r) ==> sums_to(
        plus,
        rate_or_zero(r.reward_rate_wnat),
        rate_or_zero(r.reward_rate_mirror),
        rate_or_zero(r.reward_rate_pure),
        v.effective_rate(),
    )
}

/// Each part of a validator is there exactly when the source record has the
/// part that it is made from; a missing part is never an error.
pub proof fn lemma_parts_follow_the_source(e: FlareEntity, combined: Rate)
    ensures
        normalized(e, combined).id == e.id,
        normalized(e, combined).conditions is Some <==> e.entityminimalconditions is Some,
        normalized(e, combined).reward_rates is Some <==> e.rewards is Some,
        normalized(e, combined).provider_stats is Some <==> e.providersuccessrate is Some,
        e.entityminimalconditions is None ==> !normalized(e, combined).eligible(),
{
}

/// The availability of a validator is the source's percentage over one
/// hundred. It is there exactly when the source record has a success rate
/// with a percentage in it.
pub proof fn lemma_availability_is_percent_over_hundred(e: FlareEntity, combined: Rate)
    ensures
        match normalized(e, combined).provider_stats {
            Some(stats) => e.providersuccessrate is Some && match stats.availability {
                Some(ratio) => e.providersuccessrate->0.availability == Some(ratio.hundredths)
                    && ratio.numerator() == e.providersuccessrate->0.availability->0
                    && Ratio::denominator() == 100,
                None => e.providersuccessrate->0.availability is None,
            },
            None => e.providersuccessrate is None,
        },
{
}

/// The components of the reward rates are the source's, zero where the
/// source has none, and the combined rate is the sum that was given.
pub proof fn lemma_rates_default_to_zero(r: FlareRewards, combined: Rate)
    ensures
        normalized_rates(r, combined).combined == combined,
        r.reward_rate_wnat is None ==> normalized_rates(r, combined).wnat.bits == 0,
        r.reward_rate_mirror is None ==> normalized_rates(r, combined).mirror.bits == 0,
        r.reward_rate_pure is None ==> normalized_rates(r, combined).pure.bits == 0,
        r.reward_rate_wnat matches Some(x) ==> normalized_rates(r, combined).wnat == x,
        r.reward_rate_mirror matches Some(x) ==> normalized_rates(r, combined).mirror == x,
        r.reward_rate_pure matches Some(x) ==> normalized_rates(r, combined).pure == x,
{
}

fn or_false(flag: Option<bool>) -> (b: bool)
    ensures
        b == flag_or_false(flag),
{
    match flag {
        Some(b) => b,
        None => false,
    }
}

fn or_zero(rate: Option<Rate>) -> (r: Rate)
    ensures
        r == rate_or_zero(rate),
{
    match rate {
        Some(r) => r,
        None => Rate::zero(),
    }
}

/// The criteria of a source record.
pub fn process_conditions(c: &FlareEntityMinConditions) -> (r: Conditions)
    ensures
        r == normalized_conditions(*c),
{
    Conditions {
        ftso_anchor_feeds: or_false(c.ftso_scaling),
        ftso_block_latency_feeds: or_false(c.ftso_fast_updates),
        fdc: or_false(c.fdc),
        staking: or_false(c.staking),
        passes: match c.passes_held {
            Some(n) => n,
            None => 0,
        },
        eligible_for_reward: or_false(c.eligible_for_reward),
    }
}

/// The provider statistics of a source record.
pub fn process_stats(p: &FlareProviderSuccessRate) -> (r: ProviderStats)
    ensures
        r == normalized_stats(*p),
{
    ProviderStats {
        primary: p.primary,
        secondary: p.secondary,
        availability: match p.availability {
            Some(percent) => Some(Ratio::from_percent(percent)),
            None => None,
        },
        active: p.active,
    }
}

/// The reward rates of a source record. The sum is `(wnat + mirror) + pure`
/// by the addition `plus`, taken after each missing component is set to
/// zero.
pub fn process_rewards<F: Fn(Rate, Rate) -> Rate>(r: &FlareRewards, plus: &F) -> (rates: RewardRates)
    requires
        forall|a: Rate, b: Rate| call_requires(*plus, (a, b)),
    ensures
        rates == normalized_rates(*r, rates.combined),
        sums_to(*plus, rates.wnat, rates.mirror, rates.pure, rates.combined),
{
    let wnat = or_zero(r.reward_rate_wnat);
    let mirror = or_zero(r.reward_rate_mirror);
    let pure = or_zero(r.reward_rate_pure);
    let partial = plus(wnat, mirror);
    let combined = plus(partial, pure);
    RewardRates { wnat, mirror, pure, combined }
}

/// Turns one source record into a validator. No record is refused: what is
/// missing takes its default.
pub fn process_entity<F: Fn(Rate, Rate) -> Rate>(entity: &FlareEntity, plus: &F) -> (v: Validator)
    requires
        forall|a: Rate, b: Rate| call_requires(*plus, (a, b)),
    ensures
        normalizes_to(*entity, *plus, v@),
{
    let conditions = match &entity.entityminimalconditions {
        Some(c) => Some(process_conditions(c)),
        None => None,
    };
    let reward_rates = match &entity.rewards {
        Some(r) => Some(process_rewards(r, plus)),
        None => None,
    };
    let provider_stats = match &entity.providersuccessrate {
        Some(p) => Some(process_stats(p)),
        None => None,
    };
    let name = match &entity.display_name {
        Some(n) => n.clone(),
        None => "Unknown".to_owned(),
    };
    let node_id = match &entity.denormalizedentity {
        Some(d) => if d.node_ids.len() > 0 {
            Some(d.node_ids[0].clone())
        } else {
            None
        },
        None => None,
    };
    let delegation_address = match &entity.denormalizedsigningpolicy {
        Some(p) => clone_text(&p.delegation_address),
        None => None,
    };
    Validator {
        id: entity.id,
        name,
        node_id,
        delegation_address,
        conditions,
        provider_stats,
        reward_rates,
    }
}

} // verus!
