//! What holds of the model whatever the runtime lists.

use vstd::prelude::*;

use crate::app_data::container::{ContainerSummary, ContainerView};
use crate::app_data::store::{
    distinct_ids, has_id, listed_ids, merge_all, merge_one, merged,
};

verus! {

/// Whether a record is the same container with the same samples and log: only
/// what a listing shows may differ.
pub open spec fn same_but_listing(before: ContainerView, after: ContainerView) -> bool {
    &&& after.id == before.id
    &&& after.cpu_stats == before.cpu_stats
    &&& after.mem_stats == before.mem_stats
    &&& after.mem_limit == before.mem_limit
    &&& after.rx == before.rx
    &&& after.tx == before.tx
    &&& after.logs == before.logs
    &&& after.last_updated == before.last_updated
    &&& after.stats_seen == before.stats_seen
    &&& after.logs_seen == before.logs_seen
}

/// Whether the records `after` begin with those of `before`, each with the
/// same samples and log.
pub open spec fn extends(before: Seq<ContainerView>, after: Seq<ContainerView>) -> bool {
    &&& before.len() <= after.len()
    &&& forall|i: int|
        0 <= i < before.len() ==> same_but_listing(#[trigger] before[i], after[i])
}

/// One entry of a listing drops no record, keeps the identifiers apart, and
/// leaves a record for the container that it names.
proof fn merge_one_extends(items: Seq<ContainerView>, listed: ContainerSummary)
    requires
        distinct_ids(items),
    ensures
        extends(items, merge_one(items, listed)),
        distinct_ids(merge_one(items, listed)),
        listed.id_text() matches Some(id) ==> has_id(merge_one(items, listed), id),
        forall|i: int|
            0 <= i < merge_one(items, listed).len() ==> has_id(
                items,
                (#[trigger] merge_one(items, listed)[i]).id,
            ) || listed.id_text() == Some(merge_one(items, listed)[i].id),
{
    let after = merge_one(items, listed);
    match listed.id_text() {
        None => {
            assert forall|i: int| 0 <= i < after.len() implies has_id(
                items,
                (#[trigger] after[i]).id,
            ) by {
                assert(items[i].id == after[i].id);
            }
        },
        Some(id) => {
            if has_id(items, id) {
                let w = choose|w: int| 0 <= w < items.len() && (#[trigger] items[w]).id == id;
                assert(after[w].id == id);
                assert forall|i: int, j: int| 0 <= i < j < after.len() implies (#[trigger] after[i]).id
                    != (#[trigger] after[j]).id by {
                    assert(items[i].id != items[j].id);
                }
                assert forall|i: int| 0 <= i < after.len() implies has_id(
                    items,
                    (#[trigger] after[i]).id,
                ) by {
                    assert(items[i].id == after[i].id);
                }
            } else {
                assert(after[items.len() as int].id == id);
                assert forall|i: int, j: int| 0 <= i < j < after.len() implies (#[trigger] after[i]).id
                    != (#[trigger] after[j]).id by {
                    if j < items.len() {
                        assert(items[i].id != items[j].id);
                    } else {
                        assert(items[i].id != id);
                    }
                }
                assert forall|i: int| 0 <= i < after.len() implies has_id(
                    items,
                    (#[trigger] after[i]).id,
                ) || listed.id_text() == Some(after[i].id) by {
                    if i < items.len() {
                        assert(items[i].id == after[i].id);
                    }
                }
            }
        },
    }
}

/// All entries of a listing, taken in order, drop no record, keep the
/// identifiers apart, leave a record for each container that the listing
/// names, and add none for a container that it does not name.
proof fn merge_all_extends(items: Seq<ContainerView>, listed: Seq<ContainerSummary>)
    requires
        distinct_ids(items),
    ensures
        extends(items, merge_all(items, listed)),
        distinct_ids(merge_all(items, listed)),
        forall|id: Seq<char>|
            listed_ids(listed).contains(id) ==> has_id(merge_all(items, listed), id),
        forall|i: int|
            0 <= i < merge_all(items, listed).len() ==> has_id(
                items,
                (#[trigger] merge_all(items, listed)[i]).id,
            ) || listed_ids(listed).contains(merge_all(items, listed)[i].id),
    decreases listed.len(),
{
    if listed.len() > 0 {
        let earlier = listed.drop_last();
        let entry = listed.last();
        let midway = merge_all(items, earlier);
        let after = merge_all(items, listed);
        merge_all_extends(items, earlier);
        merge_one_extends(midway, entry);
        assert(after == merge_one(midway, entry));
        assert forall|i: int| 0 <= i < items.len() implies same_but_listing(
            #[trigger] items[i],
            after[i],
        ) by {
            assert(same_but_listing(items[i], midway[i]));
            assert(same_but_listing(midway[i], after[i]));
        }
        assert forall|id: Seq<char>| listed_ids(listed).contains(id) implies has_id(after, id) by {
            let k = choose|k: int|
                0 <= k < listed.len() && (#[trigger] listed[k]).id_text() == Some(id);
            if k < earlier.len() {
                assert(earlier[k] == listed[k]);
                assert(listed_ids(earlier).contains(id));
                let w = choose|w: int| 0 <= w < midway.len() && (#[trigger] midway[w]).id == id;
                assert(same_but_listing(midway[w], after[w]));
                assert(after[w].id == id);
            }
        }
        assert forall|i: int| 0 <= i < after.len() implies has_id(items, (#[trigger] after[i]).id)
            || listed_ids(listed).contains(after[i].id) by {
            let id = after[i].id;
            if listed.last().id_text() == Some(id) {
                assert(listed[listed.len() - 1].id_text() == Some(id));
            } else {
                assert(has_id(midway, id));
                let w = choose|w: int| 0 <= w < midway.len() && (#[trigger] midway[w]).id == id;
                if !has_id(items, id) {
                    assert(listed_ids(earlier).contains(id));
                    let k = choose|k: int|
                        0 <= k < earlier.len() && (#[trigger] earlier[k]).id_text() == Some(id);
                    assert(listed[k] == earlier[k]);
                }
            }
        }
    } else {
        assert forall|i: int| 0 <= i < items.len() implies has_id(items, (#[trigger] items[i]).id) by {}
    }
}

/// Merging a listing drops no record: every record keeps its place, its
/// container, its samples and its log.
pub proof fn merge_drops_no_record(items: Seq<ContainerView>, listed: Seq<ContainerSummary>)
    requires
        distinct_ids(items),
    ensures
        extends(items, merged(items, listed)),
        distinct_ids(merged(items, listed)),
{
    merge_all_extends(items, listed);
    let entered = merge_all(items, listed);
    let after = merged(items, listed);
    assert forall|i: int| 0 <= i < items.len() implies same_but_listing(
        #[trigger] items[i],
        after[i],
    ) by {
        assert(same_but_listing(items[i], entered[i]));
    }
    assert forall|i: int, j: int| 0 <= i < j < after.len() implies (#[trigger] after[i]).id != (
    #[trigger] after[j]).id by {
        assert(entered[i].id != entered[j].id);
    }
}

/// After a listing has been merged, every container that it names has a
/// record, and that record is not retired.
pub proof fn merge_records_every_listed(
    items: Seq<ContainerView>,
    listed: Seq<ContainerSummary>,
    id: Seq<char>,
)
    requires
        distinct_ids(items),
        listed_ids(listed).contains(id),
    ensures
        exists|i: int|
            0 <= i < merged(items, listed).len() && (#[trigger] merged(items, listed)[i]).id == id
                && !merged(items, listed)[i].retired,
{
    merge_all_extends(items, listed);
    let entered = merge_all(items, listed);
    let w = choose|w: int| 0 <= w < entered.len() && (#[trigger] entered[w]).id == id;
    assert(merged(items, listed)[w].id == id);
}

/// After a listing has been merged, a record is retired exactly where the
/// listing does not name its container, and every record is of a container
/// that was known before or that the listing names.
pub proof fn merge_retires_the_unlisted(
    items: Seq<ContainerView>,
    listed: Seq<ContainerSummary>,
    i: int,
)
    requires
        distinct_ids(items),
        0 <= i < merged(items, listed).len(),
    ensures
        merged(items, listed)[i].retired == !listed_ids(listed).contains(
            merged(items, listed)[i].id,
        ),
        has_id(items, merged(items, listed)[i].id) || listed_ids(listed).contains(
            merged(items, listed)[i].id,
        ),
{
    merge_all_extends(items, listed);
    let entered = merge_all(items, listed);
    assert(merged(items, listed)[i].id == entered[i].id);
}

} // verus!
