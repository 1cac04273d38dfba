use crate::domain::{views, Validator, ValidatorView};
use vstd::prelude::*;

verus! {

/// From first to last the rank keys never rise.
pub open spec fn sorted_descending(s: Seq<ValidatorView>) -> bool {
    forall|i: int, j: int| 0 <= i < j < s.len() ==> s[i].rank_key() >= s[j].rank_key()
}

/// The validators whose rank key is `k`.
pub open spec fn with_key(k: int) -> spec_fn(ValidatorView) -> bool {
    |v: ValidatorView| v.rank_key() == k
}

/// `s` with `v` put behind the last validator that ranks at least as high.
pub open spec fn insert_ranked(s: Seq<ValidatorView>, v: ValidatorView) -> Seq<ValidatorView>
    decreases s.len(),
{
    if s.len() == 0 {
        seq![v]
    } else if s.last().rank_key() >= v.rank_key() {
        s.push(v)
    } else {
        insert_ranked(s.drop_last(), v).push(s.last())
    }
}

/// `s` by falling rank key; validators of one key stay in the order in
/// which `s` has them.
pub open spec fn ranked(s: Seq<ValidatorView>) -> Seq<ValidatorView>
    decreases s.len(),
{
    if s.len() == 0 {
        s
    } else {
        insert_ranked(ranked(s.drop_last()), s.last())
    }
}

/// Where every validator from `j` on ranks below `v`, and the one before
/// `j` does not, `insert_ranked` puts `v` at `j`.
pub proof fn lemma_insert_position(s: Seq<ValidatorView>, v: ValidatorView, j: int)
    requires
        0 <= j <= s.len(),
        forall|i: int| j <= i < s.len() ==> s[i].rank_key() < v.rank_key(),
        j > 0 ==> s[j - 1].rank_key() >= v.rank_key(),
    ensures
        insert_ranked(s, v) == s.insert(j, v),
    decreases s.len(),
{
    if s.len() == 0 {
        assert(s.insert(j, v) =~= seq![v]);
    } else if j == s.len() {
        assert(s.insert(j, v) =~= s.push(v));
    } else {
        lemma_insert_position(s.drop_last(), v, j);
        assert(s.drop_last().insert(j, v).push(s.last()) =~= s.insert(j, v));
    }
}

/// Inserting adds one validator and loses none.
pub proof fn lemma_insert_multiset(s: Seq<ValidatorView>, v: ValidatorView)
    ensures
        insert_ranked(s, v).len() == s.len() + 1,
        insert_ranked(s, v).to_multiset() == s.to_multiset().insert(v),
    decreases s.len(),
{
    broadcast use vstd::seq_lib::to_multiset_build;

    if s.len() == 0 {
        assert(seq![v] =~= s.push(v));
    } else if s.last().rank_key() >= v.rank_key() {
    } else {
        let rest = s.drop_last();
        lemma_insert_multiset(rest, v);
        assert(rest.push(s.last()) =~= s);
        assert(rest.to_multiset().insert(v).insert(s.last()) =~= rest.to_multiset().insert(
            s.last(),
        ).insert(v));
    }
}

/// Ranking permutes: it keeps the length and every validator, as often as
/// the list has it.
pub proof fn lemma_ranked_permutes(s: Seq<ValidatorView>)
    ensures
        ranked(s).len() == s.len(),
        ranked(s).to_multiset() == s.to_multiset(),
    decreases s.len(),
{
    broadcast use vstd::seq_lib::to_multiset_build;

    if s.len() > 0 {
        lemma_ranked_permutes(s.drop_last());
        lemma_insert_multiset(ranked(s.drop_last()), s.last());
        assert(s.drop_last().push(s.last()) =~= s);
    }
}

/// Every validator of the ranked list is one of the list.
pub proof fn lemma_ranked_members(s: Seq<ValidatorView>, i: int)
    requires
        0 <= i < ranked(s).len(),
    ensures
        s.contains(ranked(s)[i]),
{
    let x = ranked(s)[i];
    lemma_ranked_permutes(s);
    vstd::seq_lib::to_multiset_contains(ranked(s), x);
    vstd::seq_lib::to_multiset_contains(s, x);
    assert(ranked(s).contains(x));
}

proof fn lemma_insert_keeps_floor(s: Seq<ValidatorView>, v: ValidatorView, floor: int)
    requires
        forall|i: int| 0 <= i < s.len() ==> s[i].rank_key() >= floor,
        v.rank_key() >= floor,
    ensures
        forall|i: int|
            0 <= i < insert_ranked(s, v).len() ==> (#[trigger] insert_ranked(s, v)[i]).rank_key()
                >= floor,
    decreases s.len(),
{
    if s.len() == 0 {
    } else if s.last().rank_key() >= v.rank_key() {
    } else {
        let rest = s.drop_last();
        lemma_insert_keeps_floor(rest, v, floor);
        lemma_insert_multiset(rest, v);
        assert forall|i: int| 0 <= i < insert_ranked(s, v).len() implies (#[trigger] insert_ranked(
            s,
            v,
        )[i]).rank_key() >= floor by {
            if i < insert_ranked(rest, v).len() {
                assert(insert_ranked(s, v)[i] == insert_ranked(rest, v)[i]);
            }
        }
    }
}

/// Inserting into a sorted list leaves it sorted.
pub proof fn lemma_insert_sorted(s: Seq<ValidatorView>, v: ValidatorView)
    requires
        sorted_descending(s),
    ensures
        sorted_descending(insert_ranked(s, v)),
    decreases s.len(),
{
    if s.len() == 0 {
    } else if s.last().rank_key() >= v.rank_key() {
    } else {
        let rest = s.drop_last();
        lemma_insert_sorted(rest, v);
        lemma_insert_keeps_floor(rest, v, s.last().rank_key() as int);
    }
}

/// The ranked list is sorted: of two neighbours the first has a rank key at
/// least that of the second, and so of any two places.
pub proof fn lemma_ranked_sorted(s: Seq<ValidatorView>)
    ensures
        sorted_descending(ranked(s)),
    decreases s.len(),
{
    if s.len() > 0 {
        lemma_ranked_sorted(s.drop_last());
        lemma_insert_sorted(ranked(s.drop_last()), s.last());
    }
}

proof fn lemma_insert_stable(s: Seq<ValidatorView>, v: ValidatorView, k: int)
    ensures
        insert_ranked(s, v).filter(with_key(k)) == s.push(v).filter(with_key(k)),
    decreases s.len(),
{
    broadcast use Seq::lemma_filter_push;

    if s.len() == 0 {
        assert(seq![v] =~= s.push(v));
    } else if s.last().rank_key() >= v.rank_key() {
    } else {
        let rest = s.drop_last();
        lemma_insert_stable(rest, v, k);
        assert(rest.push(s.last()) =~= s);
    }
}

/// Ranking is stable: the validators of any one rank key stand in the
/// ranked list in the order in which the list has them.
pub proof fn lemma_ranked_stable(s: Seq<ValidatorView>, k: int)
    ensures
        ranked(s).filter(with_key(k)) == s.filter(with_key(k)),
    decreases s.len(),
{
    broadcast use Seq::lemma_filter_push;

    if s.len() > 0 {
        let rest = s.drop_last();
        lemma_ranked_stable(rest, k);
        lemma_insert_stable(ranked(rest), s.last(), k);
        assert(rest.push(s.last()) =~= s);
    }
}

proof fn lemma_filter_by_last_key(s: Seq<ValidatorView>, k: int)
    requires
        s.len() > 0,
    ensures
        s.filter(with_key(k)) == if s.last().rank_key() == k {
            s.drop_last().filter(with_key(k)).push(s.last())
        } else {
            s.drop_last().filter(with_key(k))
        },
{
    broadcast use Seq::lemma_filter_push;

    assert(s.drop_last().push(s.last()) =~= s);
}

proof fn lemma_key_is_present(s: Seq<ValidatorView>, i: int)
    requires
        0 <= i < s.len(),
    ensures
        s.filter(with_key(s[i].rank_key())).len() > 0,
{
    let p = with_key(s[i].rank_key());
    assert(p(s[i]));
    s.lemma_filter_contains(p, i);
}

proof fn lemma_present_key_has_a_place(s: Seq<ValidatorView>, k: int) -> (i: int)
    requires
        s.filter(with_key(k)).len() > 0,
    ensures
        0 <= i < s.len(),
        s[i].rank_key() == k,
{
    let p = with_key(k);
    let x = s.filter(p)[0];
    s.lemma_filter_pred(p, 0);
    assert(s.filter(p).contains(x));
    s.lemma_filter_contains_rev(p, x);
    let i = choose|i: int| 0 <= i < s.len() && s[i] == x;
    i
}

/// Two sorted lists that hold, for every rank key, the same validators in
/// the same order are one list.
pub proof fn lemma_sorted_lists_agree(t: Seq<ValidatorView>, u: Seq<ValidatorView>)
    requires
        sorted_descending(t),
        sorted_descending(u),
        forall|k: int| t.filter(with_key(k)) == u.filter(with_key(k)),
    ensures
        t == u,
    decreases t.len(),
{
    if t.len() == 0 {
        if u.len() > 0 {
            lemma_key_is_present(u, 0);
            assert(t.filter(with_key(u[0].rank_key())).len() == 0) by {
                t.lemma_filter_len(with_key(u[0].rank_key()));
            }
        }
        assert(t =~= u);
    } else {
        let m = t.last().rank_key();
        lemma_key_is_present(t, t.len() - 1);
        let iu = lemma_present_key_has_a_place(u, m);
        let mu = u.last().rank_key();
        lemma_key_is_present(u, u.len() - 1);
        let it = lemma_present_key_has_a_place(t, mu);
        assert(mu == m);
        lemma_filter_by_last_key(t, m);
        lemma_filter_by_last_key(u, m);
        let tf = t.drop_last().filter(with_key(m));
        let uf = u.drop_last().filter(with_key(m));
        assert(tf.push(t.last()) == uf.push(u.last()));
        assert(tf.push(t.last()).last() == t.last());
        assert(uf.push(u.last()).last() == u.last());
        assert(tf.push(t.last()).drop_last() =~= tf);
        assert(uf.push(u.last()).drop_last() =~= uf);
        assert forall|k: int|
            t.drop_last().filter(with_key(k)) == u.drop_last().filter(with_key(k)) by {
            lemma_filter_by_last_key(t, k);
            lemma_filter_by_last_key(u, k);
        }
        lemma_sorted_lists_agree(t.drop_last(), u.drop_last());
        assert(t =~= t.drop_last().push(t.last()));
        assert(u =~= u.drop_last().push(u.last()));
    }
}

/// The ranked list is the only list that is sorted and holds, for every
/// rank key, the validators of `s` with that key in the order of `s`.
pub proof fn lemma_ranked_is_the_only(s: Seq<ValidatorView>, t: Seq<ValidatorView>)
    requires
        sorted_descending(t),
        forall|k: int| t.filter(with_key(k)) == s.filter(with_key(k)),
    ensures
        t == ranked(s),
{
    lemma_ranked_sorted(s);
    assert forall|k: int| t.filter(with_key(k)) == ranked(s).filter(with_key(k)) by {
        lemma_ranked_stable(s, k);
    }
    lemma_sorted_lists_agree(t, ranked(s));
}

/// Puts `v` into `list` behind the last validator that ranks at least as
/// high.
pub fn place_ranked(list: &mut Vec<Validator>, v: Validator)
    ensures
        views(final(list)@) == insert_ranked(views(old(list)@), v@),
        final(list)@.len() == old(list)@.len() + 1,
{
    let rate = v.effective_rate();
    let mut j: usize = list.len();
    while j > 0 && !list[j - 1].effective_rate().outranks(rate)
        invariant
            j <= list.len(),
            *list == *old(list),
            rate == v@.effective_rate(),
            forall|i: int| j <= i < list.len() ==> views(list@)[i].rank_key() < v@.rank_key(),
        decreases j,
    {
        j -= 1;
    }
    proof {
        lemma_insert_position(views(list@), v@, j as int);
    }
    list.insert(j, v);
    assert(views(list@) =~= views(old(list)@).insert(j as int, v@));
}

/// Ranks a list: by falling rank key, validators of one key in the order
/// in which they came.
pub fn rank(list: Vec<Validator>) -> (out: Vec<Validator>)
    ensures
        views(out@) == ranked(views(list@)),
        out@.len() == list@.len(),
        sorted_descending(views(out@)),
        views(out@).to_multiset() == views(list@).to_multiset(),
        forall|k: int| views(out@).filter(with_key(k)) == views(list@).filter(with_key(k)),
{
    let mut out: Vec<Validator> = Vec::new();
    let ghost all = list@;
    for v in it: list.into_iter()
        invariant
            it.seq() == all,
            views(out@) == ranked(views(all.take(it.index() as int))),
            out@.len() == it.index(),
    {
        proof {
            let before = all.take(it.index() as int);
            let after = all.take(it.index() + 1);
            assert(views(after).drop_last() =~= views(before));
            assert(views(after).last() == v@);
        }
        place_ranked(&mut out, v);
    }
    proof {
        assert(all.take(all.len() as int) =~= all);
        lemma_ranked_sorted(views(all));
        lemma_ranked_permutes(views(all));
        assert forall|k: int| views(out@).filter(with_key(k)) == views(all).filter(
            with_key(k),
        ) by {
            lemma_ranked_stable(views(all), k);
        }
    }
    out
}

} // verus!
