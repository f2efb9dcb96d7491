//! The list of instances in the order in which they were created.

use vstd::prelude::*;
use crate::info::{InstanceInfo, InstanceInfoView};

verus! {

/// The projections of `infos` as mathematical values, in order.
pub open spec fn info_views(infos: Seq<InstanceInfo>) -> Seq<InstanceInfoView> {
    Seq::new(infos.len(), |i: int| infos[i]@)
}

/// `sorted` with `x` put in behind the last entry that was not created
/// after it.
pub open spec fn insert_by_creation(sorted: Seq<InstanceInfoView>, x: InstanceInfoView) -> Seq<InstanceInfoView>
    decreases sorted.len(),
{
    if sorted.len() == 0 {
        seq![x]
    } else if sorted.last().creation_time <= x.creation_time {
        sorted.push(x)
    } else {
        insert_by_creation(sorted.drop_last(), x).push(sorted.last())
    }
}

/// The entries of `infos` by ascending creation time; entries of the same
/// time keep their order.
pub open spec fn by_creation(infos: Seq<InstanceInfoView>) -> Seq<InstanceInfoView>
    decreases infos.len(),
{
    if infos.len() == 0 {
        Seq::empty()
    } else {
        insert_by_creation(by_creation(infos.drop_last()), infos.last())
    }
}

/// Whether no entry of `infos` was created before an entry in front of it.
pub open spec fn ascending(infos: Seq<InstanceInfoView>) -> bool {
    forall|i: int, j: int| 0 <= i <= j < infos.len() ==> infos[i].creation_time <= infos[j].creation_time
}

/// Putting `x` in by creation time is inserting it at `pos`, where `pos`
/// is behind every entry that was created after `x` and directly behind one
/// that was not.
pub proof fn lemma_insert_position(sorted: Seq<InstanceInfoView>, x: InstanceInfoView, pos: int)
    requires
        0 <= pos <= sorted.len(),
        forall|k: int| pos <= k < sorted.len() ==> sorted[k].creation_time > x.creation_time,
        pos == 0 || sorted[pos - 1].creation_time <= x.creation_time,
    ensures
        insert_by_creation(sorted, x) == sorted.insert(pos, x),
    decreases sorted.len(),
{
    if sorted.len() > 0 && sorted.last().creation_time > x.creation_time {
        lemma_insert_position(sorted.drop_last(), x, pos);
    }
}

/// Putting an entry into an ascending list leaves it ascending and adds
/// that entry and nothing else.
pub proof fn lemma_insert_keeps_order(sorted: Seq<InstanceInfoView>, x: InstanceInfoView)
    requires
        ascending(sorted),
    ensures
        ascending(insert_by_creation(sorted, x)),
        insert_by_creation(sorted, x).to_multiset() == sorted.to_multiset().insert(x),
        insert_by_creation(sorted, x).len() == sorted.len() + 1,
    decreases sorted.len(),
{
    broadcast use vstd::seq_lib::group_to_multiset_ensures;

    if sorted.len() > 0 && sorted.last().creation_time > x.creation_time {
        let front = sorted.drop_last();
        lemma_insert_keeps_order(front, x);
        let inner = insert_by_creation(front, x);
        assert(sorted =~= front.push(sorted.last()));
        // every entry of `inner` is `x` or an entry of `front`
        assert forall|i: int| 0 <= i < inner.len() implies (#[trigger] inner[i]).creation_time
            <= sorted.last().creation_time by {
            assert(inner.to_multiset().count(inner[i]) > 0);
        }
    }
}

/// The list by creation time is ascending and holds the entries of the
/// list it was made from, each as often as that list.
pub proof fn lemma_by_creation_is_sorted(infos: Seq<InstanceInfoView>)
    ensures
        ascending(by_creation(infos)),
        by_creation(infos).to_multiset() == infos.to_multiset(),
        by_creation(infos).len() == infos.len(),
    decreases infos.len(),
{
    broadcast use vstd::seq_lib::group_to_multiset_ensures;

    if infos.len() > 0 {
        lemma_by_creation_is_sorted(infos.drop_last());
        lemma_insert_keeps_order(by_creation(infos.drop_last()), infos.last());
        assert(infos =~= infos.drop_last().push(infos.last()));
    }
}

/// Orders `infos` by ascending creation time. Entries of the same time
/// keep the order in which they came.
pub fn sort_by_creation_time(infos: &Vec<InstanceInfo>) -> (sorted: Vec<InstanceInfo>)
    ensures
        info_views(sorted@) == by_creation(info_views(infos@)),
        ascending(info_views(sorted@)),
        info_views(sorted@).to_multiset() == info_views(infos@).to_multiset(),
        sorted.len() == infos.len(),
{
    let mut sorted: Vec<InstanceInfo> = Vec::new();
    let mut i: usize = 0;
    while i < infos.len()
        invariant
            i <= infos.len(),
            sorted.len() == i,
            info_views(sorted@) == by_creation(info_views(infos@).take(i as int)),
        decreases infos.len() - i,
    {
        let entry = infos[i].clone();
        let mut pos: usize = sorted.len();
        while pos > 0 && sorted[pos - 1].creation_time > entry.creation_time
            invariant
                pos <= sorted.len(),
                forall|k: int| pos <= k < sorted.len() ==> sorted@[k].creation_time > entry.creation_time,
            decreases pos,
        {
            pos = pos - 1;
        }
        proof {
            let before = info_views(sorted@);
            let views = info_views(infos@);
            lemma_insert_position(before, entry@, pos as int);
            assert(views.take(i + 1).drop_last() =~= views.take(i as int));
        }
        sorted.insert(pos, entry);
        i = i + 1;
    }
    proof {
        assert(info_views(infos@).take(infos.len() as int) =~= info_views(infos@));
        lemma_by_creation_is_sorted(info_views(infos@));
    }
    sorted
}

} // verus!
