use crate::domain::{views, Validator, ValidatorView};
use crate::error::CoreError;
use crate::normalize::{normalizes_to, process_entity};
use crate::rate::Rate;
use crate::raw::FlareEntity;
use crate::snapshot::{assembled, lemma_assembled_is_exact, Snapshot, SnapshotView};
use crate::timestamp::{format_rfc3339, rfc3339_text};
use vstd::prelude::*;

verus! {

/// The number of records that one request asks the source for.
pub const PAGE_LIMIT: u32 = 200;

/// The place in the source's collection at which the requested page starts.
pub const PAGE_OFFSET: u32 = 0;

/// `validators` are what the source records stand for under the addition
/// `plus`, one for one and in the same order.
pub open spec fn normalizes_all<F: Fn(Rate, Rate) -> Rate>(
    records: Seq<FlareEntity>,
    plus: F,
    validators: Seq<ValidatorView>,
) -> bool {
    &&& validators.len() == records.len()
    &&& forall|i: int|
        0 <= i < records.len() ==> normalizes_to(records[i], plus, #[trigger] validators[i])
}

/// `s` is the snapshot of the source records under the addition `plus`,
/// taken at `now` nanoseconds after the Unix epoch.
pub open spec fn aggregates_to<F: Fn(Rate, Rate) -> Rate>(
    records: Seq<FlareEntity>,
    plus: F,
    now: i64,
    s: SnapshotView,
) -> bool {
    exists|validators: Seq<ValidatorView>| #[trigger]
        normalizes_all(records, plus, validators) && s == assembled(
            validators,
            rfc3339_text(now),
        )
}

/// A snapshot of source records is well formed and counts every record:
/// its total is the number of records, and the validators that the records
/// stand for are each in exactly one of its two lists.
pub proof fn lemma_aggregate_is_exact<F: Fn(Rate, Rate) -> Rate>(
    records: Seq<FlareEntity>,
    plus: F,
    now: i64,
    s: SnapshotView,
)
    requires
        aggregates_to(records, plus, now, s),
    ensures
        s.wf(),
        s.total_validators == records.len(),
        s.eligible_count + s.ineligible_count == records.len(),
        s.timestamp == rfc3339_text(now),
        exists|validators: Seq<ValidatorView>| #[trigger]
            normalizes_all(records, plus, validators) && validators.to_multiset()
                == s.eligible_nodes.to_multiset().add(s.ineligible_nodes.to_multiset()),
{
    let validators = choose|validators: Seq<ValidatorView>| #[trigger]
        normalizes_all(records, plus, validators) && s == assembled(
            validators,
            rfc3339_text(now),
        );
    lemma_assembled_is_exact(validators, rfc3339_text(now));
}

/// Turns every source record into a validator, in the order of the records.
pub fn normalize_all<F: Fn(Rate, Rate) -> Rate>(records: &Vec<FlareEntity>, plus: &F) -> (out: Vec<
    Validator,
>)
    requires
        forall|a: Rate, b: Rate| call_requires(*plus, (a, b)),
    ensures
        normalizes_all(records@, *plus, views(out@)),
{
    let mut out: Vec<Validator> = Vec::new();
    let mut i: usize = 0;
    while i < records.len()
        invariant
            i <= records.len(),
            out@.len() == i,
            forall|a: Rate, b: Rate| call_requires(*plus, (a, b)),
            forall|j: int| 0 <= j < i ==> normalizes_to(records@[j], *plus, #[trigger] views(out@)[j]),
        decreases records.len() - i,
    {
        let v = process_entity(&records[i], plus);
        let ghost before = out@;
        out.push(v);
        assert forall|j: int| 0 <= j < i + 1 implies normalizes_to(
            records@[j],
            *plus,
            #[trigger] views(out@)[j],
        ) by {
            if j < i {
                assert(views(out@)[j] == views(before)[j]);
            }
        }
        i += 1;
    }
    out
}

/// One refresh from records that were fetched: normalizes every record,
/// classifies and ranks the validators, and stamps the snapshot with the
/// time `now`, in nanoseconds after the Unix epoch.
pub fn aggregate<F: Fn(Rate, Rate) -> Rate>(records: &Vec<FlareEntity>, plus: &F, now: i64) -> (s:
    Snapshot)
    requires
        forall|a: Rate, b: Rate| call_requires(*plus, (a, b)),
    ensures
        aggregates_to(records@, *plus, now, s@),
        s@.wf(),
        s@.total_validators == records@.len(),
        s@.timestamp == rfc3339_text(now),
{
    let validators = normalize_all(records, plus);
    let timestamp = format_rfc3339(now);
    assert(normalizes_all(records@, *plus, views(validators@)));
    Snapshot::assemble(validators, timestamp)
}

/// One refresh from what a fetch gave: the snapshot of the records where
/// there are records, and the fetch's own error, unchanged, where it failed.
pub fn refresh<F: Fn(Rate, Rate) -> Rate>(
    fetched: Result<Vec<FlareEntity>, CoreError>,
    plus: &F,
    now: i64,
) -> (outcome: Result<Snapshot, CoreError>)
    requires
        forall|a: Rate, b: Rate| call_requires(*plus, (a, b)),
    ensures
        match fetched {
            Ok(records) => outcome matches Ok(s) && aggregates_to(records@, *plus, now, s@)
                && s@.wf(),
            Err(e) => outcome == Err::<Snapshot, CoreError>(e),
        },
{
    match fetched {
        Ok(records) => Ok(aggregate(&records, plus, now)),
        Err(e) => Err(e),
    }
}

} // verus!
