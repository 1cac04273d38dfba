use crate::domain::{clone_validators, views, Validator, ValidatorView};
use crate::error::CoreError;
use crate::partition::{eligible_of, ineligible_of, lemma_partition_is_exact, partition};
use crate::ranking::{
    lemma_ranked_members, lemma_ranked_permutes, lemma_ranked_sorted, rank, ranked,
    sorted_descending,
};
use vstd::prelude::*;

verus! {

/// The number of validators that a top list holds when none is asked for.
pub const DEFAULT_TOP_LIMIT: usize = 50;

/// One classified and ranked view of all validators, as of one refresh.
pub struct Snapshot {
    timestamp: String,
    total_validators: usize,
    eligible_count: usize,
    ineligible_count: usize,
    eligible_nodes: Vec<Validator>,
    ineligible_nodes: Vec<Validator>,
}

/// The mathematical value of a [`Snapshot`].
pub struct SnapshotView {
    pub timestamp: Seq<char>,
    pub total_validators: nat,
    pub eligible_count: nat,
    pub ineligible_count: nat,
    pub eligible_nodes: Seq<ValidatorView>,
    pub ineligible_nodes: Seq<ValidatorView>,
}

impl SnapshotView {
    /// What holds of every snapshot: the counts are the lengths of the two
    /// lists and add up to the total, the first list holds only eligible
    /// validators and is sorted by falling rank key, the second holds only
    /// ineligible ones.
    pub open spec fn wf(self) -> bool {
        &&& self.eligible_count == self.eligible_nodes.len()
        &&& self.ineligible_count == self.ineligible_nodes.len()
        &&& self.total_validators == self.eligible_count + self.ineligible_count
        &&& forall|i: int|
            0 <= i < self.eligible_nodes.len() ==> (#[trigger] self.eligible_nodes[i]).eligible()
        &&& forall|i: int|
            0 <= i < self.ineligible_nodes.len() ==> !(#[trigger] self.ineligible_nodes[i]).eligible()
        &&& sorted_descending(self.eligible_nodes)
    }

    /// Both lists, the eligible one first.
    pub open spec fn all_nodes(self) -> Seq<ValidatorView> {
        self.eligible_nodes + self.ineligible_nodes
    }
}

/// The snapshot of a list of validators, taken at a time with the given
/// text: the eligible ones ranked, the others in the order of the list.
pub open spec fn assembled(validators: Seq<ValidatorView>, timestamp: Seq<char>) -> SnapshotView {
    SnapshotView {
        timestamp,
        total_validators: validators.len(),
        eligible_count: eligible_of(validators).len(),
        ineligible_count: ineligible_of(validators).len(),
        eligible_nodes: ranked(eligible_of(validators)),
        ineligible_nodes: ineligible_of(validators),
    }
}

/// A snapshot that is assembled from a list is well formed, and holds each
/// validator of the list in exactly one of its two lists.
pub proof fn lemma_assembled_is_exact(validators: Seq<ValidatorView>, timestamp: Seq<char>)
    ensures
        assembled(validators, timestamp).wf(),
        assembled(validators, timestamp).eligible_nodes.len() == eligible_of(validators).len(),
        validators.to_multiset() == assembled(validators, timestamp).eligible_nodes.to_multiset().add(
            assembled(validators, timestamp).ineligible_nodes.to_multiset(),
        ),
{
    let e = eligible_of(validators);
    lemma_partition_is_exact(validators);
    lemma_ranked_permutes(e);
    lemma_ranked_sorted(e);
    assert forall|i: int| 0 <= i < ranked(e).len() implies (#[trigger] ranked(e)[i]).eligible() by {
        lemma_ranked_members(e, i);
    }
}

impl View for Snapshot {
    type V = SnapshotView;

    closed spec fn view(&self) -> SnapshotView {
        SnapshotView {
            timestamp: self.timestamp@,
            total_validators: self.total_validators as nat,
            eligible_count: self.eligible_count as nat,
            ineligible_count: self.ineligible_count as nat,
            eligible_nodes: views(self.eligible_nodes@),
            ineligible_nodes: views(self.ineligible_nodes@),
        }
    }
}

impl Snapshot {
    #[verifier::type_invariant]
    spec fn well_formed(self) -> bool {
        self@.wf()
    }

    /// Classifies and ranks a list of validators, and wraps the result with
    /// the given time text and fresh counts.
    pub fn assemble(validators: Vec<Validator>, timestamp: String) -> (s: Snapshot)
        ensures
            s@ == assembled(views(validators@), timestamp@),
            s@.wf(),
    {
        let total_validators = validators.len();
        let (eligible, ineligible) = partition(validators);
        let eligible_nodes = rank(eligible);
        proof {
            lemma_assembled_is_exact(views(validators@), timestamp@);
        }
        Snapshot {
            timestamp,
            total_validators,
            eligible_count: eligible_nodes.len(),
            ineligible_count: ineligible.len(),
            eligible_nodes,
            ineligible_nodes: ineligible,
        }
    }

    /// The time of the refresh that made this snapshot, as RFC 3339 text.
    pub fn timestamp(&self) -> (t: &String)
        ensures
            t@ == self@.timestamp,
    {
        &self.timestamp
    }

    /// The number of validators in both lists together.
    pub fn total_validators(&self) -> (n: usize)
        ensures
            n == self@.total_validators,
            n == self@.eligible_nodes.len() + self@.ineligible_nodes.len(),
            self@.wf(),
    {
        proof {
            use_type_invariant(self);
        }
        self.total_validators
    }

    /// The number of eligible validators.
    pub fn eligible_count(&self) -> (n: usize)
        ensures
            n == self@.eligible_count,
            n == self@.eligible_nodes.len(),
            self@.wf(),
    {
        proof {
            use_type_invariant(self);
        }
        self.eligible_count
    }

    /// The number of ineligible validators.
    pub fn ineligible_count(&self) -> (n: usize)
        ensures
            n == self@.ineligible_count,
            n == self@.ineligible_nodes.len(),
            self@.wf(),
    {
        proof {
            use_type_invariant(self);
        }
        self.ineligible_count
    }

    /// The eligible validators, highest rank first.
    pub fn eligible_nodes(&self) -> (list: &Vec<Validator>)
        ensures
            views(list@) == self@.eligible_nodes,
            self@.wf(),
    {
        proof {
            use_type_invariant(self);
        }
        &self.eligible_nodes
    }

    /// The ineligible validators, in the order in which the source gave them.
    pub fn ineligible_nodes(&self) -> (list: &Vec<Validator>)
        ensures
            views(list@) == self@.ineligible_nodes,
            self@.wf(),
    {
        proof {
            use_type_invariant(self);
        }
        &self.ineligible_nodes
    }
}

/// One list of validators as it is handed out, with its length and the
/// time of the snapshot that it was taken from.
#[derive(Debug)]
pub struct ValidatorsList {
    pub timestamp: String,
    pub count: usize,
    pub validators: Vec<Validator>,
}

/// The length of a top list: the number asked for, or
/// [`DEFAULT_TOP_LIMIT`] where none is, but no more than there are.
pub open spec fn top_count(limit: Option<usize>, available: nat) -> nat {
    let wanted = match limit {
        Some(n) => n as nat,
        None => DEFAULT_TOP_LIMIT as nat,
    };
    if wanted < available {
        wanted
    } else {
        available
    }
}

/// The place of the first validator of `s` with the identifier `id`, if
/// `place` is one.
pub open spec fn is_first_with_id(s: Seq<ValidatorView>, id: u32, place: int) -> bool {
    &&& 0 <= place < s.len()
    &&& s[place].id == id
    &&& forall|j: int| 0 <= j < place ==> (#[trigger] s[j]).id != id
}

/// No validator of `s` has the identifier `id`.
pub open spec fn has_no_id(s: Seq<ValidatorView>, id: u32) -> bool {
    forall|j: int| 0 <= j < s.len() ==> (#[trigger] s[j]).id != id
}

fn find_in(list: &Vec<Validator>, id: u32) -> (found: Option<usize>)
    ensures
        match found {
            Some(i) => is_first_with_id(views(list@), id, i as int),
            None => has_no_id(views(list@), id),
        },
{
    let mut i: usize = 0;
    while i < list.len()
        invariant
            i <= list.len(),
            forall|j: int| 0 <= j < i ==> (#[trigger] views(list@)[j]).id != id,
        decreases list.len() - i,
    {
        if list[i].id == id {
            return Some(i);
        }
        i += 1;
    }
    None
}

impl Snapshot {
    /// The eligible validators with their count, highest rank first.
    pub fn eligible_list(&self) -> (list: ValidatorsList)
        ensures
            list.timestamp@ == self@.timestamp,
            list.count == self@.eligible_count,
            list.count == list.validators@.len(),
            views(list.validators@) == self@.eligible_nodes,
    {
        proof {
            use_type_invariant(self);
        }
        ValidatorsList {
            timestamp: self.timestamp.clone(),
            count: self.eligible_count,
            validators: clone_validators(&self.eligible_nodes),
        }
    }

    /// The ineligible validators with their count, in the order in which
    /// the source gave them.
    pub fn ineligible_list(&self) -> (list: ValidatorsList)
        ensures
            list.timestamp@ == self@.timestamp,
            list.count == self@.ineligible_count,
            list.count == list.validators@.len(),
            views(list.validators@) == self@.ineligible_nodes,
    {
        proof {
            use_type_invariant(self);
        }
        ValidatorsList {
            timestamp: self.timestamp.clone(),
            count: self.ineligible_count,
            validators: clone_validators(&self.ineligible_nodes),
        }
    }

    /// The highest ranked eligible validators: as many as `limit` asks for,
    /// [`DEFAULT_TOP_LIMIT`] where it asks for none, and all of them where
    /// there are fewer.
    pub fn top(&self, limit: Option<usize>) -> (list: ValidatorsList)
        ensures
            list.timestamp@ == self@.timestamp,
            list.count == top_count(limit, self@.eligible_nodes.len()),
            list.count == list.validators@.len(),
            views(list.validators@) == self@.eligible_nodes.take(list.count as int),
            sorted_descending(views(list.validators@)),
            forall|i: int, j: int|
                0 <= i < list.count <= j < self@.eligible_nodes.len() ==> views(
                    list.validators@,
                )[i].rank_key() >= self@.eligible_nodes[j].rank_key(),
    {
        proof {
            use_type_invariant(self);
        }
        let wanted = match limit {
            Some(n) => n,
            None => DEFAULT_TOP_LIMIT,
        };
        let count = if wanted < self.eligible_nodes.len() {
            wanted
        } else {
            self.eligible_nodes.len()
        };
        let mut validators: Vec<Validator> = Vec::new();
        let mut i: usize = 0;
        while i < count
            invariant
                i <= count <= self.eligible_nodes.len(),
                validators@ == self.eligible_nodes@.take(i as int),
            decreases count - i,
        {
            validators.push(self.eligible_nodes[i].clone());
            assert(validators@ =~= self.eligible_nodes@.take(i + 1));
            i += 1;
        }
        assert(views(validators@) =~= views(self.eligible_nodes@).take(count as int));
        ValidatorsList { timestamp: self.timestamp.clone(), count, validators }
    }

    /// Looks a validator up by its identifier: the eligible list first, then
    /// the ineligible one, each from its start. Where several validators
    /// share the identifier, the first one found is returned.
    pub fn find_by_id(&self, id: u32) -> (found: Result<&Validator, CoreError>)
        ensures
            match found {
                Ok(v) => exists|place: int|
                    #[trigger] is_first_with_id(self@.all_nodes(), id, place)
                        && self@.all_nodes()[place] == v@,
                Err(e) => e == CoreError::NotFound && has_no_id(self@.all_nodes(), id),
            },
    {
        match find_in(&self.eligible_nodes, id) {
            Some(i) => {
                assert(is_first_with_id(self@.all_nodes(), id, i as int));
                Ok(&self.eligible_nodes[i])
            },
            None => match find_in(&self.ineligible_nodes, id) {
                Some(i) => {
                    assert(is_first_with_id(
                        self@.all_nodes(),
                        id,
                        self.eligible_nodes@.len() + i,
                    ));
                    Ok(&self.ineligible_nodes[i])
                },
                None => Err(CoreError::NotFound),
            },
        }
    }
}

impl Clone for Snapshot {
    fn clone(&self) -> (copy: Snapshot)
        ensures
            copy@ == self@,
            copy@.wf(),
    {
        proof {
            use_type_invariant(self);
        }
        Snapshot {
            timestamp: self.timestamp.clone(),
            total_validators: self.total_validators,
            eligible_count: self.eligible_count,
            ineligible_count: self.ineligible_count,
            eligible_nodes: clone_validators(&self.eligible_nodes),
            ineligible_nodes: clone_validators(&self.ineligible_nodes),
        }
    }
}

} // verus!
