//! The shared model: every container that the runtime has listed, the one
//! error that is shown, and which container's log is looked at.

use vstd::prelude::*;

use crate::app_data::container::{
    lines_of, text_or_empty, ContainerItem, ContainerSummary, ContainerView,
};
use crate::app_data::container_id::ContainerId;
use crate::app_error::AppError;
use crate::docker_data::stats::CpuLoad;
use crate::parse_args::CliArgs;

verus! {

/// The records as their views, in the same order.
pub open spec fn views_of(items: Seq<ContainerItem>) -> Seq<ContainerView> {
    items.map_values(|item: ContainerItem| item@)
}

/// Whether one of the records is that of container `id`.
pub open spec fn has_id(items: Seq<ContainerView>, id: Seq<char>) -> bool {
    exists|i: int| 0 <= i < items.len() && (#[trigger] items[i]).id == id
}

/// Whether no two records are of the same container.
pub open spec fn distinct_ids(items: Seq<ContainerView>) -> bool {
    forall|i: int, j: int|
        0 <= i < j < items.len() ==> (#[trigger] items[i]).id != (#[trigger] items[j]).id
}

/// The identifiers that a listing names.
pub open spec fn listed_ids(listed: Seq<ContainerSummary>) -> Set<Seq<char>> {
    Set::new(
        |id: Seq<char>|
            exists|k: int| 0 <= k < listed.len() && (#[trigger] listed[k]).id_text() == Some(id),
    )
}

/// The records after one entry of a listing: an entry without identifier is
/// passed over, a known container takes over what the entry shows, and a new
/// one gets a record at the end.
pub open spec fn merge_one(items: Seq<ContainerView>, listed: ContainerSummary) -> Seq<
    ContainerView,
> {
    match listed.id_text() {
        None => items,
        Some(id) => if has_id(items, id) {
            items.map_values(
                |item: ContainerView|
                    if item.id == id {
                        item.relisted(listed)
                    } else {
                        item
                    },
            )
        } else {
            items.push(ContainerView::fresh(listed))
        },
    }
}

/// The records after every entry of a listing, taken in order.
pub open spec fn merge_all(items: Seq<ContainerView>, listed: Seq<ContainerSummary>) -> Seq<
    ContainerView,
> {
    listed.fold_left(items, |acc: Seq<ContainerView>, entry: ContainerSummary| merge_one(acc, entry))
}

/// The records with each marked retired exactly where the listing does not
/// name it.
pub open spec fn retire_unlisted(items: Seq<ContainerView>, listed: Seq<ContainerSummary>) -> Seq<
    ContainerView,
> {
    items.map_values(
        |item: ContainerView| ContainerView { retired: !listed_ids(listed).contains(item.id), ..item },
    )
}

/// The records after a listing has been merged in: no record is dropped, each
/// listed container has one, and those that the listing lacks are retired.
pub open spec fn merged(items: Seq<ContainerView>, listed: Seq<ContainerSummary>) -> Seq<
    ContainerView,
> {
    retire_unlisted(merge_all(items, listed), listed)
}

/// The records after a stats sample of container `id`.
pub open spec fn sampled(
    items: Seq<ContainerView>,
    id: Seq<char>,
    cpu_stats: Option<CpuLoad>,
    mem_stats: Option<u64>,
    mem_limit: u64,
    rx: u64,
    tx: u64,
) -> Seq<ContainerView> {
    items.map_values(
        |item: ContainerView|
            if item.id == id {
                item.sampled(cpu_stats, mem_stats, mem_limit, rx, tx)
            } else {
                item
            },
    )
}

/// The records after a batch of log lines of container `id`.
pub open spec fn logged(items: Seq<ContainerView>, id: Seq<char>, lines: Seq<Seq<char>>, now: u64) -> Seq<
    ContainerView,
> {
    items.map_values(
        |item: ContainerView|
            if item.id == id {
                item.logged(lines, now)
            } else {
                item
            },
    )
}

/// Whether container `id` has a record with a stats sample and a batch of log
/// lines.
pub open spec fn ready(items: Seq<ContainerView>, id: Seq<char>) -> bool {
    exists|i: int|
        0 <= i < items.len() && (#[trigger] items[i]).id == id && items[i].stats_seen
            && items[i].logs_seen
}

/// The identifiers of a list of containers, in the same order.
pub open spec fn ids_of(all_ids: Seq<(bool, ContainerId)>) -> Seq<Seq<char>> {
    all_ids.map_values(|entry: (bool, ContainerId)| entry.1@)
}

/// Whether every container of `ids` is ready.
pub open spec fn all_ready(items: Seq<ContainerView>, ids: Seq<Seq<char>>) -> bool {
    forall|k: int| 0 <= k < ids.len() ==> ready(items, #[trigger] ids[k])
}

/// The shared model.
#[derive(Debug)]
pub struct AppData {
    containers: Vec<ContainerItem>,
    error: Option<AppError>,
    selected: Option<usize>,
    args: CliArgs,
}

/// The text of a field that may be missing.
fn text_of(field: &Option<String>) -> (text: String)
    ensures
        text@ == text_or_empty(*field),
{
    match field {
        Some(text) => text.clone(),
        None => String::new(),
    }
}

/// Where the record of `id` stands.
fn position(items: &Vec<ContainerItem>, id: &ContainerId) -> (at: Option<usize>)
    ensures
        at is Some <==> has_id(views_of(items@), id@),
        at matches Some(i) ==> i < items@.len() && items@[i as int].id@ == id@,
{
    let mut i: usize = 0;
    while i < items.len()
        invariant
            i <= items@.len(),
            forall|j: int| 0 <= j < i ==> items@[j].id@ != id@,
        decreases items@.len() - i,
    {
        if items[i].id == *id {
            assert(views_of(items@)[i as int].id == id@);
            return Some(i);
        }
        i += 1;
    }
    None
}

/// Enters one entry of a listing.
fn merge_entry(items: &mut Vec<ContainerItem>, listed: &ContainerSummary)
    requires
        distinct_ids(views_of(old(items)@)),
    ensures
        views_of(final(items)@) == merge_one(views_of(old(items)@), *listed),
        distinct_ids(views_of(final(items)@)),
{
    let ghost before = views_of(items@);
    match &listed.id {
        None => {},
        Some(text) => {
            let id = ContainerId::from(text.clone());
            proof {
                ContainerId::from_spec_view(*text);
            }
            assert(id@ == text@);
            match position(items, &id) {
                Some(i) => {
                    let name = text_of(&listed.name);
                    let image = text_of(&listed.image);
                    let command = text_of(&listed.command);
                    let state = listed.state();
                    let mut item = items.remove(i);
                    item.name = name;
                    item.image = image;
                    item.command = command;
                    item.state = state;
                    item.retired = false;
                    items.insert(i, item);
                    proof {
                        let after = views_of(items@);
                        assert(after.len() == before.len());
                        assert forall|j: int| 0 <= j < before.len() implies after[j] == (if before[j].id
                            == id@ {
                            before[j].relisted(*listed)
                        } else {
                            before[j]
                        }) by {
                            if j != i {
                                assert(before[j].id != before[i as int].id);
                            }
                        }
                        assert(after =~= merge_one(before, *listed));
                    }
                },
                None => {
                    let item = ContainerItem {
                        id,
                        name: text_of(&listed.name),
                        image: text_of(&listed.image),
                        command: text_of(&listed.command),
                        state: listed.state(),
                        cpu_stats: None,
                        mem_stats: None,
                        mem_limit: 0,
                        rx: 0,
                        tx: 0,
                        logs: Vec::new(),
                        last_updated: 0,
                        retired: false,
                        stats_seen: false,
                        logs_seen: false,
                    };
                    assert(lines_of(item.logs@) =~= Seq::<Seq<char>>::empty());
                    assert(item@ == ContainerView::fresh(*listed));
                    items.push(item);
                    assert(views_of(items@) =~= before.push(ContainerView::fresh(*listed)));
                },
            }
        },
    }
}

/// Whether the listing names container `id`.
fn is_listed(listed: &Vec<ContainerSummary>, id: &ContainerId) -> (r: bool)
    ensures
        r == listed_ids(listed@).contains(id@),
{
    let mut k: usize = 0;
    while k < listed.len()
        invariant
            k <= listed@.len(),
            forall|j: int| 0 <= j < k ==> (#[trigger] listed@[j]).id_text() != Some(id@),
        decreases listed@.len() - k,
    {
        match &listed[k].id {
            Some(text) => {
                if crate::text::same_text(text.as_str(), id.get()) {
                    assert(listed@[k as int].id_text() == Some(id@));
                    return true;
                }
            },
            None => {},
        }
        k += 1;
    }
    false
}

impl AppData {
    #[verifier::type_invariant]
    spec fn one_record_each(&self) -> bool {
        distinct_ids(views_of(self.containers@))
    }

    /// The records of all containers, oldest first.
    pub closed spec fn items(&self) -> Seq<ContainerView> {
        views_of(self.containers@)
    }

    /// The error that is shown.
    pub closed spec fn error(&self) -> Option<AppError> {
        self.error
    }

    /// The index of the container whose log is looked at.
    pub closed spec fn selected(&self) -> Option<usize> {
        self.selected
    }

    /// The settings.
    pub closed spec fn settings(&self) -> CliArgs {
        self.args
    }

    /// A model without containers.
    pub fn new(args: CliArgs) -> (app_data: Self)
        ensures
            app_data.items() == Seq::<ContainerView>::empty(),
            app_data.error() is None,
            app_data.selected() is None,
            app_data.settings() == args,
    {
        let app_data = AppData { containers: Vec::new(), error: None, selected: None, args };
        assert(views_of(app_data.containers@) =~= Seq::<ContainerView>::empty());
        app_data
    }

    /// The settings.
    pub fn args(&self) -> (args: CliArgs)
        ensures
            args == self.settings(),
    {
        self.args
    }

    /// The records of all containers, oldest first.
    pub fn containers(&self) -> (items: &Vec<ContainerItem>)
        ensures
            views_of(items@) == self.items(),
            distinct_ids(self.items()),
    {
        proof {
            use_type_invariant(self);
        }
        &self.containers
    }

    /// The record at `index`.
    pub fn get_container(&self, index: usize) -> (item: Option<&ContainerItem>)
        ensures
            index < self.items().len() ==> item is Some && item->0@ == self.items()[index as int],
            index >= self.items().len() ==> item is None,
    {
        if index < self.containers.len() {
            Some(&self.containers[index])
        } else {
            None
        }
    }

    /// The record of container `id`.
    pub fn get_container_by_id(&self, id: &ContainerId) -> (item: Option<&ContainerItem>)
        ensures
            item is Some <==> has_id(self.items(), id@),
            item matches Some(found) ==> found.id@ == id@ && self.items().contains(found@),
    {
        match position(&self.containers, id) {
            Some(i) => {
                assert(self.items()[i as int] == self.containers@[i as int]@);
                Some(&self.containers[i])
            },
            None => None,
        }
    }

    /// The error that is shown.
    pub fn get_error(&self) -> (error: Option<AppError>)
        ensures
            error == self.error(),
    {
        self.error
    }

    /// Shows `error` in place of any other.
    pub fn set_error(&mut self, error: AppError)
        ensures
            final(self).error() == Some(error),
            final(self).items() == old(self).items(),
            final(self).selected() == old(self).selected(),
            final(self).settings() == old(self).settings(),
    {
        proof {
            use_type_invariant(&*self);
        }
        self.error = Some(error);
    }

    /// Shows no error.
    pub fn remove_error(&mut self)
        ensures
            final(self).error() is None,
            final(self).items() == old(self).items(),
            final(self).selected() == old(self).selected(),
            final(self).settings() == old(self).settings(),
    {
        proof {
            use_type_invariant(&*self);
        }
        self.error = None;
    }

    /// The index of the container whose log is looked at.
    pub fn get_selected_log_index(&self) -> (index: Option<usize>)
        ensures
            index == self.selected(),
    {
        self.selected
    }

    /// Chooses the container whose log is looked at.
    pub fn select_log(&mut self, index: Option<usize>)
        ensures
            final(self).selected() == index,
            final(self).items() == old(self).items(),
            final(self).error() == old(self).error(),
            final(self).settings() == old(self).settings(),
    {
        proof {
            use_type_invariant(&*self);
        }
        self.selected = index;
    }

    /// Merges a listing of the runtime into the model.
    pub fn update_containers(&mut self, all_containers: &Vec<ContainerSummary>)
        ensures
            final(self).items() == merged(old(self).items(), all_containers@),
            final(self).error() == old(self).error(),
            final(self).selected() == old(self).selected(),
            final(self).settings() == old(self).settings(),
    {
        proof {
            use_type_invariant(&*self);
        }
        let ghost before = views_of(self.containers@);
        let mut items: Vec<ContainerItem> = Vec::new();
        std::mem::swap(&mut self.containers, &mut items);
        let mut k: usize = 0;
        while k < all_containers.len()
            invariant
                k <= all_containers@.len(),
                distinct_ids(views_of(items@)),
                views_of(items@) == merge_all(before, all_containers@.take(k as int)),
            decreases all_containers@.len() - k,
        {
            merge_entry(&mut items, &all_containers[k]);
            proof {
                let done = all_containers@.take(k as int + 1);
                assert(done.drop_last() =~= all_containers@.take(k as int));
                assert(done.last() == all_containers@[k as int]);
            }
            k += 1;
        }
        assert(all_containers@.take(k as int) =~= all_containers@);
        let ghost entered = views_of(items@);
        let mut i: usize = 0;
        while i < items.len()
            invariant
                i <= items@.len(),
                items@.len() == entered.len(),
                forall|j: int|
                    0 <= j < i ==> (#[trigger] items@[j])@ == retire_unlisted(
                        entered,
                        all_containers@,
                    )[j],
                forall|j: int| i <= j < items@.len() ==> (#[trigger] items@[j])@ == entered[j],
            decreases items@.len() - i,
        {
            let listed = is_listed(all_containers, &items[i].id);
            let mut item = items.remove(i);
            item.retired = !listed;
            items.insert(i, item);
            i += 1;
        }
        proof {
            let after = views_of(items@);
            assert(after =~= retire_unlisted(entered, all_containers@));
            assert forall|a: int, b: int| 0 <= a < b < after.len() implies (#[trigger] after[a]).id != (
            #[trigger] after[b]).id by {
                assert(entered[a].id != entered[b].id);
            }
        }
        self.containers = items;
    }

    /// Records a stats sample of container `id`. A sample of a container that
    /// the model does not know changes nothing.
    pub fn update_stats(
        &mut self,
        id: &ContainerId,
        cpu_stats: Option<CpuLoad>,
        mem_stats: Option<u64>,
        mem_limit: u64,
        rx: u64,
        tx: u64,
    )
        ensures
            final(self).items() == sampled(
                old(self).items(),
                id@,
                cpu_stats,
                mem_stats,
                mem_limit,
                rx,
                tx,
            ),
            final(self).error() == old(self).error(),
            final(self).selected() == old(self).selected(),
            final(self).settings() == old(self).settings(),
    {
        proof {
            use_type_invariant(&*self);
        }
        let ghost before = views_of(self.containers@);
        let ghost goal = sampled(before, id@, cpu_stats, mem_stats, mem_limit, rx, tx);
        match position(&self.containers, id) {
            None => {
                assert(goal =~= before);
            },
            Some(i) => {
                let mut items: Vec<ContainerItem> = Vec::new();
                std::mem::swap(&mut self.containers, &mut items);
                let mut item = items.remove(i);
                item.cpu_stats = cpu_stats;
                item.mem_stats = mem_stats;
                item.mem_limit = mem_limit;
                item.rx = rx;
                item.tx = tx;
                item.stats_seen = true;
                items.insert(i, item);
                proof {
                    let after = views_of(items@);
                    assert forall|j: int| 0 <= j < before.len() implies after[j] == goal[j] by {
                        if j != i {
                            assert(before[j].id != before[i as int].id);
                        }
                    }
                    assert(after =~= goal);
                    assert forall|a: int, b: int| 0 <= a < b < after.len() implies (
                    #[trigger] after[a]).id != (#[trigger] after[b]).id by {
                        assert(before[a].id != before[b].id);
                    }
                }
                self.containers = items;
            },
        }
    }

    /// Appends a batch of log lines to the log of container `id`, and notes
    /// that the log was asked for at `now`. A batch of a container that the
    /// model does not know changes nothing.
    pub fn update_log_by_id(&mut self, output: Vec<String>, id: &ContainerId, now: u64)
        ensures
            final(self).items() == logged(old(self).items(), id@, lines_of(output@), now),
            final(self).error() == old(self).error(),
            final(self).selected() == old(self).selected(),
            final(self).settings() == old(self).settings(),
    {
        proof {
            use_type_invariant(&*self);
        }
        let ghost before = views_of(self.containers@);
        let ghost goal = logged(before, id@, lines_of(output@), now);
        match position(&self.containers, id) {
            None => {
                assert(goal =~= before);
            },
            Some(i) => {
                let mut output = output;
                let mut items: Vec<ContainerItem> = Vec::new();
                std::mem::swap(&mut self.containers, &mut items);
                let mut item = items.remove(i);
                let ghost old_logs = item.logs@;
                let ghost added = output@;
                item.logs.append(&mut output);
                item.last_updated = now;
                item.logs_seen = true;
                assert(lines_of(item.logs@) =~= lines_of(old_logs) + lines_of(added));
                items.insert(i, item);
                proof {
                    let after = views_of(items@);
                    assert forall|j: int| 0 <= j < before.len() implies after[j] == goal[j] by {
                        if j != i {
                            assert(before[j].id != before[i as int].id);
                        }
                    }
                    assert(after =~= goal);
                    assert forall|a: int, b: int| 0 <= a < b < after.len() implies (
                    #[trigger] after[a]).id != (#[trigger] after[b]).id by {
                        assert(before[a].id != before[b].id);
                    }
                }
                self.containers = items;
            },
        }
    }

    /// Whether every container of `all_ids` has a stats sample and a batch of
    /// log lines on record.
    pub fn initialised(&self, all_ids: &Vec<(bool, ContainerId)>) -> (r: bool)
        ensures
            r == all_ready(self.items(), ids_of(all_ids@)),
    {
        let mut k: usize = 0;
        while k < all_ids.len()
            invariant
                k <= all_ids@.len(),
                forall|j: int| 0 <= j < k ==> ready(self.items(), #[trigger] ids_of(all_ids@)[j]),
            decreases all_ids@.len() - k,
        {
            let ghost id = ids_of(all_ids@)[k as int];
            assert(id == all_ids@[k as int].1@);
            match position(&self.containers, &all_ids[k].1) {
                None => {
                    assert(!ready(self.items(), id));
                    return false;
                },
                Some(i) => {
                    proof {
                        use_type_invariant(self);
                    }
                    let item = &self.containers[i];
                    assert(self.items()[i as int] == item@);
                    if !(item.stats_seen && item.logs_seen) {
                        assert(!ready(self.items(), id)) by {
                            if ready(self.items(), id) {
                                let w = choose|w: int|
                                    0 <= w < self.items().len() && (#[trigger] self.items()[w]).id == id
                                        && self.items()[w].stats_seen && self.items()[w].logs_seen;
                                if w < i {
                                    assert(self.items()[w].id != self.items()[i as int].id);
                                } else if w > i {
                                    assert(self.items()[i as int].id != self.items()[w].id);
                                }
                            }
                        }
                        return false;
                    }
                },
            }
            k += 1;
        }
        true
    }
}

} // verus!
