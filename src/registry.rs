use vstd::prelude::*;
use crate::fanout::{failed_ids, failure_count, ids_of};
use crate::schema::Connection;

verus! {

/// A removal from the registry, seen as a map from connection id to record:
/// the id's record goes, and an id that is not there leaves the registry as it was.
pub open spec fn delete(reg: Map<Seq<char>, Connection>, id: Seq<char>) -> Map<
    Seq<char>,
    Connection,
> {
    reg.remove(id)
}

/// The registry after each id of a sequence has been removed, in order.
pub open spec fn delete_all(reg: Map<Seq<char>, Connection>, ids: Seq<Seq<char>>) -> Map<
    Seq<char>,
    Connection,
>
    decreases ids.len(),
{
    if ids.len() == 0 {
        reg
    } else {
        delete(delete_all(reg, ids.drop_last()), ids.last())
    }
}

/// Removing a connection id that the registry does not hold changes nothing.
pub proof fn lemma_delete_absent_is_noop(reg: Map<Seq<char>, Connection>, id: Seq<char>)
    requires
        !reg.contains_key(id),
    ensures
        delete(reg, id) == reg,
{
    assert(delete(reg, id) =~= reg);
}

/// A removal repeated is the same as a single one.
pub proof fn lemma_delete_twice(reg: Map<Seq<char>, Connection>, id: Seq<char>)
    ensures
        delete(delete(reg, id), id) == delete(reg, id),
{
    lemma_delete_absent_is_noop(delete(reg, id), id);
}

/// After removing a sequence of ids, the registry holds exactly the records
/// whose id is not in the sequence, unchanged.
pub proof fn lemma_delete_all(reg: Map<Seq<char>, Connection>, ids: Seq<Seq<char>>)
    ensures
        forall|k: Seq<char>| #[trigger]
            delete_all(reg, ids).contains_key(k) <==> reg.contains_key(k) && !ids.contains(k),
        forall|k: Seq<char>| #[trigger]
            delete_all(reg, ids).contains_key(k) ==> delete_all(reg, ids)[k] == reg[k],
    decreases ids.len(),
{
    if ids.len() > 0 {
        lemma_delete_all(reg, ids.drop_last());
        assert forall|k: Seq<char>| ids.contains(k) <==> (ids.drop_last().contains(k) || k
            == ids.last()) by {
            if ids.contains(k) {
                let i = choose|i: int| 0 <= i < ids.len() && ids[i] == k;
                if i < ids.len() - 1 {
                    assert(ids.drop_last()[i] == k);
                }
            }
            if ids.drop_last().contains(k) {
                let i = choose|i: int| 0 <= i < ids.drop_last().len() && ids.drop_last()[i] == k;
                assert(ids[i] == k);
            }
            if k == ids.last() {
                assert(ids[ids.len() - 1] == k);
            }
        }
        let prev = delete_all(reg, ids.drop_last());
        assert(delete_all(reg, ids) == prev.remove(ids.last()));
        assert forall|k: Seq<char>| #[trigger] delete_all(reg, ids).contains_key(k) implies delete_all(
            reg,
            ids,
        )[k] == reg[k] by {
            assert(prev.contains_key(k));
        }
        assert forall|k: Seq<char>| #[trigger]
            delete_all(reg, ids).contains_key(k) <==> reg.contains_key(k) && !ids.contains(k) by {
            assert(prev.contains_key(k) <==> reg.contains_key(k) && !ids.drop_last().contains(k));
        }
    }
}

/// A connection id is among the failed targets exactly when some delivery to
/// it failed.
pub proof fn lemma_failed_ids_members(targets: Seq<Seq<char>>, delivered: Seq<bool>)
    requires
        delivered.len() == targets.len(),
    ensures
        forall|k: Seq<char>| #[trigger]
            failed_ids(targets, delivered).contains(k) <==> exists|i: int|
                0 <= i < targets.len() && targets[i] == k && !delivered[i],
    decreases targets.len(),
{
    if targets.len() > 0 {
        let t0 = targets.drop_last();
        let d0 = delivered.drop_last();
        lemma_failed_ids_members(t0, d0);
        let rest = failed_ids(t0, d0);
        let all = failed_ids(targets, delivered);
        let n = targets.len() - 1;
        assert forall|k: Seq<char>| #[trigger]
            all.contains(k) <==> exists|i: int|
                0 <= i < targets.len() && targets[i] == k && !delivered[i] by {
            let from_rest = exists|i: int| 0 <= i < t0.len() && t0[i] == k && !d0[i];
            assert(rest.contains(k) <==> from_rest);
            if delivered[n] {
                assert(all == rest);
            } else {
                assert(all == rest.push(targets[n]));
                if rest.contains(k) {
                    let j = choose|j: int| 0 <= j < rest.len() && rest[j] == k;
                    assert(all[j] == k);
                }
                assert(all[rest.len() as int] == targets[n]);
                if all.contains(k) && !rest.contains(k) {
                    let j = choose|j: int| 0 <= j < all.len() && all[j] == k;
                    if j < rest.len() {
                        assert(rest[j] == k);
                    }
                }
            }
            if from_rest {
                let i = choose|i: int| 0 <= i < t0.len() && t0[i] == k && !d0[i];
                assert(targets[i] == k && !delivered[i]);
            }
            if exists|i: int| 0 <= i < targets.len() && targets[i] == k && !delivered[i] {
                let i = choose|i: int| 0 <= i < targets.len() && targets[i] == k && !delivered[i];
                if i < n {
                    assert(t0[i] == k && !d0[i]);
                }
            }
        }
    }
}

/// A broadcast over a snapshot of N records makes exactly N delivery
/// attempts, and removes exactly one connection per failed attempt, so at
/// most N.
pub proof fn lemma_fan_out_complete(conns: Seq<Connection>, delivered: Seq<bool>)
    requires
        delivered.len() == conns.len(),
    ensures
        ids_of(conns).len() == conns.len(),
        failed_ids(ids_of(conns), delivered).len() == failure_count(delivered),
        failure_count(delivered) <= conns.len(),
    decreases conns.len(),
{
    if conns.len() > 0 {
        lemma_fan_out_complete(conns.drop_last(), delivered.drop_last());
        assert(ids_of(conns).drop_last() =~= ids_of(conns.drop_last()));
    }
}

/// After a broadcast prunes the connections it failed to reach, the registry
/// no longer holds any of them, and still holds, unchanged, every record it
/// held whose id was reached by every attempt made to it.
pub proof fn lemma_prune_isolates_failures(
    reg: Map<Seq<char>, Connection>,
    targets: Seq<Seq<char>>,
    delivered: Seq<bool>,
)
    requires
        delivered.len() == targets.len(),
    ensures
        forall|i: int|
            0 <= i < targets.len() && !delivered[i] ==> !delete_all(
                reg,
                failed_ids(targets, delivered),
            ).contains_key(#[trigger] targets[i]),
        forall|k: Seq<char>|
            reg.contains_key(k) && (forall|i: int|
                0 <= i < targets.len() && targets[i] == k ==> delivered[i]) ==> #[trigger] delete_all(
                reg,
                failed_ids(targets, delivered),
            ).contains_key(k) && delete_all(reg, failed_ids(targets, delivered))[k] == reg[k],
{
    let failed = failed_ids(targets, delivered);
    lemma_failed_ids_members(targets, delivered);
    lemma_delete_all(reg, failed);
    assert forall|i: int|
        0 <= i < targets.len() && !delivered[i] implies !delete_all(reg, failed).contains_key(
        #[trigger] targets[i],
    ) by {
        assert(failed.contains(targets[i]));
    }
}

} // verus!
