use crate::domain::{views, Validator, ValidatorView};
use vstd::prelude::*;

verus! {

/// The validators that meet every criterion.
pub open spec fn is_eligible() -> spec_fn(ValidatorView) -> bool {
    |v: ValidatorView| v.eligible()
}

/// The validators that fail a criterion, or have none.
pub open spec fn is_ineligible() -> spec_fn(ValidatorView) -> bool {
    |v: ValidatorView| !v.eligible()
}

/// The eligible validators of `s`, in the order of `s`.
pub open spec fn eligible_of(s: Seq<ValidatorView>) -> Seq<ValidatorView> {
    s.filter(is_eligible())
}

/// The ineligible validators of `s`, in the order of `s`.
pub open spec fn ineligible_of(s: Seq<ValidatorView>) -> Seq<ValidatorView> {
    s.filter(is_ineligible())
}

/// Every validator falls in exactly one part: the two parts together hold
/// each validator as often as the list does, the first part only eligible
/// ones and the second only ineligible ones.
pub proof fn lemma_partition_is_exact(s: Seq<ValidatorView>)
    ensures
        eligible_of(s).len() + ineligible_of(s).len() == s.len(),
        s.to_multiset() == eligible_of(s).to_multiset().add(ineligible_of(s).to_multiset()),
        forall|i: int| 0 <= i < eligible_of(s).len() ==> (#[trigger] eligible_of(s)[i]).eligible(),
        forall|i: int|
            0 <= i < ineligible_of(s).len() ==> !(#[trigger] ineligible_of(s)[i]).eligible(),
    decreases s.len(),
{
    broadcast use Seq::lemma_filter_push;
    broadcast use vstd::seq_lib::to_multiset_build;

    if s.len() == 0 {
        broadcast use vstd::multiset::group_multiset_axioms;

        s.lemma_filter_len(is_eligible());
        s.lemma_filter_len(is_ineligible());
        s.to_multiset_ensures();
        eligible_of(s).to_multiset_ensures();
        ineligible_of(s).to_multiset_ensures();
        assert(s.to_multiset() =~= eligible_of(s).to_multiset().add(
            ineligible_of(s).to_multiset(),
        ));
    } else {
        let rest = s.drop_last();
        let last = s.last();
        lemma_partition_is_exact(rest);
        assert(rest.push(last) =~= s);
        if last.eligible() {
            assert(eligible_of(s) == eligible_of(rest).push(last));
            assert(ineligible_of(s) == ineligible_of(rest));
        } else {
            assert(eligible_of(s) == eligible_of(rest));
            assert(ineligible_of(s) == ineligible_of(rest).push(last));
        }
        assert(s.to_multiset() =~= eligible_of(s).to_multiset().add(
            ineligible_of(s).to_multiset(),
        ));
    }
}

/// Splits a list into its eligible and its ineligible validators. Each part
/// keeps the order of the list.
pub fn partition(validators: Vec<Validator>) -> (parts: (Vec<Validator>, Vec<Validator>))
    ensures
        views(parts.0@) == eligible_of(views(validators@)),
        views(parts.1@) == ineligible_of(views(validators@)),
        parts.0@.len() + parts.1@.len() == validators@.len(),
{
    let mut eligible: Vec<Validator> = Vec::new();
    let mut ineligible: Vec<Validator> = Vec::new();
    let ghost all = validators@;
    for v in it: validators.into_iter()
        invariant
            it.seq() == all,
            views(eligible@) == eligible_of(views(all.take(it.index() as int))),
            views(ineligible@) == ineligible_of(views(all.take(it.index() as int))),
            eligible@.len() + ineligible@.len() == it.index(),
    {
        proof {
            broadcast use Seq::lemma_filter_push;

            let before = all.take(it.index() as int);
            let after = all.take(it.index() + 1);
            assert(views(after) =~= views(before).push(v@));
        }
        if v.is_eligible() {
            let ghost old_list = eligible@;
            eligible.push(v);
            assert(views(eligible@) =~= views(old_list).push(v@));
        } else {
            let ghost old_list = ineligible@;
            ineligible.push(v);
            assert(views(ineligible@) =~= views(old_list).push(v@));
        }
    }
    proof {
        assert(all.take(all.len() as int) =~= all);
    }
    (eligible, ineligible)
}

} // verus!
