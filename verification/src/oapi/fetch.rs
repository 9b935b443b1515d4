//! How the inventory is read: which calls are made, in what order and with what
//! filters, and what is done with each reply.
use vstd::prelude::*;

use super::{Input, InputView};
use crate::clock::{on_calendar, Timestamp};
use crate::model::{
    contents, Account, Catalog, NatService, PublicIp, Snapshot, Subregion, Volume,
};
use crate::table::put_all;
use crate::throttle::{is_pause, settle, Reply, Settled};

verus! {

/// The texts of a list of strings.
pub open spec fn texts(strings: Seq<String>) -> Seq<Seq<char>> {
    strings.map_values(|string: String| string@)
}

/// The texts of an optional list of strings.
pub open spec fn optional_texts(strings: Option<Vec<String>>) -> Option<Seq<Seq<char>>> {
    match strings {
        Some(strings) => Some(texts(strings@)),
        None => None,
    }
}

/// The tags by which a call is narrowed down.
#[derive(Debug, PartialEq)]
pub struct TagFilters {
    pub tag_keys: Option<Vec<String>>,
    pub tag_values: Option<Vec<String>>,
    pub tags: Option<Vec<String>>,
}

/// The contents of a [`TagFilters`].
#[verifier::ext_equal]
pub struct TagFiltersView {
    pub tag_keys: Option<Seq<Seq<char>>>,
    pub tag_values: Option<Seq<Seq<char>>>,
    pub tags: Option<Seq<Seq<char>>>,
}

impl View for TagFilters {
    type V = TagFiltersView;

    open spec fn view(&self) -> TagFiltersView {
        TagFiltersView {
            tag_keys: optional_texts(self.tag_keys),
            tag_values: optional_texts(self.tag_values),
            tags: optional_texts(self.tags),
        }
    }
}

/// The filters of the call that reads snapshots.
#[derive(Debug, PartialEq)]
pub struct SnapshotFilters {
    pub account_ids: Vec<String>,
    pub tags: TagFilters,
}

/// The contents of a [`SnapshotFilters`].
#[verifier::ext_equal]
pub struct SnapshotFiltersView {
    pub account_ids: Seq<Seq<char>>,
    pub tags: TagFiltersView,
}

impl View for SnapshotFilters {
    type V = SnapshotFiltersView;

    open spec fn view(&self) -> SnapshotFiltersView {
        SnapshotFiltersView { account_ids: texts(self.account_ids@), tags: self.tags@ }
    }
}

/// What is read by code outside this library.
#[derive(Clone, Copy, Debug, PartialEq, Eq, Structural)]
pub enum Sibling {
    Vms,
    VmsImages,
    VmTypes,
    FlexibleGpus,
    LoadBalancers,
    Vpns,
    Buckets,
}

/// The stages of a fetch, in the order in which they come.
#[derive(Clone, Copy, Debug, PartialEq, Eq, Structural)]
pub enum Stage {
    Vms,
    VmsImages,
    Catalog,
    VmTypes,
    Account,
    Region,
    Volumes,
    NatServices,
    PublicIps,
    Snapshots,
    FlexibleGpus,
    LoadBalancers,
    Vpns,
    Buckets,
    End,
}

impl Stage {
    /// The place of a stage in the order.
    pub open spec fn rank(self) -> int {
        match self {
            Stage::Vms => 0,
            Stage::VmsImages => 1,
            Stage::Catalog => 2,
            Stage::VmTypes => 3,
            Stage::Account => 4,
            Stage::Region => 5,
            Stage::Volumes => 6,
            Stage::NatServices => 7,
            Stage::PublicIps => 8,
            Stage::Snapshots => 9,
            Stage::FlexibleGpus => 10,
            Stage::LoadBalancers => 11,
            Stage::Vpns => 12,
            Stage::Buckets => 13,
            Stage::End => 14,
        }
    }

    /// The stage after this one. The end is followed by itself.
    pub open spec fn spec_next(self) -> Stage {
        match self {
            Stage::Vms => Stage::VmsImages,
            Stage::VmsImages => Stage::Catalog,
            Stage::Catalog => Stage::VmTypes,
            Stage::VmTypes => Stage::Account,
            Stage::Account => Stage::Region,
            Stage::Region => Stage::Volumes,
            Stage::Volumes => Stage::NatServices,
            Stage::NatServices => Stage::PublicIps,
            Stage::PublicIps => Stage::Snapshots,
            Stage::Snapshots => Stage::FlexibleGpus,
            Stage::FlexibleGpus => Stage::LoadBalancers,
            Stage::LoadBalancers => Stage::Vpns,
            Stage::Vpns => Stage::Buckets,
            Stage::Buckets => Stage::End,
            Stage::End => Stage::End,
        }
    }

    /// The stage after this one.
    pub fn next(self) -> (stage: Stage)
        ensures
            stage == self.spec_next(),
    {
        match self {
            Stage::Vms => Stage::VmsImages,
            Stage::VmsImages => Stage::Catalog,
            Stage::Catalog => Stage::VmTypes,
            Stage::VmTypes => Stage::Account,
            Stage::Account => Stage::Region,
            Stage::Region => Stage::Volumes,
            Stage::Volumes => Stage::NatServices,
            Stage::NatServices => Stage::PublicIps,
            Stage::PublicIps => Stage::Snapshots,
            Stage::Snapshots => Stage::FlexibleGpus,
            Stage::FlexibleGpus => Stage::LoadBalancers,
            Stage::LoadBalancers => Stage::Vpns,
            Stage::Vpns => Stage::Buckets,
            Stage::Buckets => Stage::End,
            Stage::End => Stage::End,
        }
    }
}

impl Sibling {
    /// The stage at which this is read.
    pub open spec fn spec_stage(self) -> Stage {
        match self {
            Sibling::Vms => Stage::Vms,
            Sibling::VmsImages => Stage::VmsImages,
            Sibling::VmTypes => Stage::VmTypes,
            Sibling::FlexibleGpus => Stage::FlexibleGpus,
            Sibling::LoadBalancers => Stage::LoadBalancers,
            Sibling::Vpns => Stage::Vpns,
            Sibling::Buckets => Stage::Buckets,
        }
    }

    /// The stage at which this is read.
    pub fn stage(self) -> (stage: Stage)
        ensures
            stage == self.spec_stage(),
    {
        match self {
            Sibling::Vms => Stage::Vms,
            Sibling::VmsImages => Stage::VmsImages,
            Sibling::VmTypes => Stage::VmTypes,
            Sibling::FlexibleGpus => Stage::FlexibleGpus,
            Sibling::LoadBalancers => Stage::LoadBalancers,
            Sibling::Vpns => Stage::Vpns,
            Sibling::Buckets => Stage::Buckets,
        }
    }
}

/// What is to be done next.
#[derive(Debug, PartialEq)]
pub enum Task {
    Sibling(Sibling),
    ReadCatalog,
    ReadAccounts,
    ReadSubregions,
    ReadVolumes(TagFilters),
    ReadNatServices(TagFilters),
    ReadPublicIps(TagFilters),
    ReadSnapshots(SnapshotFilters),
    Finish,
}

/// The contents of a [`Task`].
#[verifier::ext_equal]
pub enum TaskView {
    Sibling(Sibling),
    ReadCatalog,
    ReadAccounts,
    ReadSubregions,
    ReadVolumes(TagFiltersView),
    ReadNatServices(TagFiltersView),
    ReadPublicIps(TagFiltersView),
    ReadSnapshots(SnapshotFiltersView),
    Finish,
}

impl View for Task {
    type V = TaskView;

    open spec fn view(&self) -> TaskView {
        match self {
            Task::Sibling(sibling) => TaskView::Sibling(*sibling),
            Task::ReadCatalog => TaskView::ReadCatalog,
            Task::ReadAccounts => TaskView::ReadAccounts,
            Task::ReadSubregions => TaskView::ReadSubregions,
            Task::ReadVolumes(filters) => TaskView::ReadVolumes(filters@),
            Task::ReadNatServices(filters) => TaskView::ReadNatServices(filters@),
            Task::ReadPublicIps(filters) => TaskView::ReadPublicIps(filters@),
            Task::ReadSnapshots(filters) => TaskView::ReadSnapshots(filters@),
            Task::Finish => TaskView::Finish,
        }
    }
}

impl TaskView {
    /// The stage to which a task belongs.
    pub open spec fn stage(self) -> Stage {
        match self {
            TaskView::Sibling(sibling) => sibling.spec_stage(),
            TaskView::ReadCatalog => Stage::Catalog,
            TaskView::ReadAccounts => Stage::Account,
            TaskView::ReadSubregions => Stage::Region,
            TaskView::ReadVolumes(_) => Stage::Volumes,
            TaskView::ReadNatServices(_) => Stage::NatServices,
            TaskView::ReadPublicIps(_) => Stage::PublicIps,
            TaskView::ReadSnapshots(_) => Stage::Snapshots,
            TaskView::Finish => Stage::End,
        }
    }
}

/// A task, to be started after a pause of so many milliseconds, if any.
#[derive(Debug, PartialEq)]
pub struct Action {
    pub pause_ms: Option<u64>,
    pub task: Task,
}

/// What happened: the fetch was started, or a task came to an end.
#[derive(Debug, PartialEq)]
pub enum Event<E> {
    Start,
    Sibling(Sibling, Result<(), E>),
    Catalog(Reply<Option<Catalog>, E>),
    Accounts(Reply<Option<Vec<Account>>, E>),
    Subregions(Reply<Option<Vec<Subregion>>, E>),
    Volumes(Reply<Option<Vec<Volume>>, E>),
    NatServices(Reply<Option<Vec<NatService>>, E>),
    PublicIps(Reply<Option<Vec<PublicIp>>, E>),
    Snapshots(Reply<Option<Vec<Snapshot>>, E>),
}

/// What handling a reply came to.
#[derive(Clone, Copy, Debug, PartialEq, Eq, Structural)]
pub enum Handled {
    /// The call was throttled: it is to be sent again after a pause of so many
    /// milliseconds.
    Retry(u64),
    /// The answer was taken in.
    Stored,
}

/// The inventory `after` and the outcome are right for a reply to a call made on
/// the inventory `before`, when taking in the answer makes the inventory
/// `stored`: an answer is taken in; a throttled call is to be sent again, any
/// other failure is handed back, and both leave the inventory as it was.
pub open spec fn handles<S, E>(
    reply: Reply<S, E>,
    before: InputView,
    stored: spec_fn(S) -> InputView,
    after: InputView,
    outcome: Result<Handled, E>,
) -> bool {
    match reply {
        Ok(answer) => {
            &&& outcome == Ok::<Handled, E>(Handled::Stored)
            &&& after == stored(answer)
        },
        Err(failure) => {
            &&& after == before
            &&& if failure.spec_throttled() {
                outcome matches Ok(Handled::Retry(ms)) && is_pause(ms)
            } else {
                outcome == Err::<Handled, E>(failure.error)
            }
        },
    }
}

impl InputView {
    /// The tags by which calls are narrowed down: those of the user, or none.
    pub open spec fn tag_filters(self) -> TagFiltersView {
        match self.filters {
            Some(filter) => TagFiltersView {
                tag_keys: Some(texts(filter.filter_tag_key@)),
                tag_values: Some(texts(filter.filter_tag_value@)),
                tags: Some(texts(filter.filter_tag@)),
            },
            None => TagFiltersView { tag_keys: None, tag_values: None, tags: None },
        }
    }

    /// The filters of the call that reads snapshots: those of this account alone
    /// are read, so there are none without an account.
    pub open spec fn snapshot_filters(self) -> Option<SnapshotFiltersView> {
        match self.account_id() {
            Some(account_id) => Some(
                SnapshotFiltersView { account_ids: seq![account_id], tags: self.tag_filters() },
            ),
            None => None,
        }
    }

    /// The inventory with the entries of a catalog taken in.
    pub open spec fn with_catalog(self, answer: Option<Catalog>) -> InputView {
        match answer {
            Some(catalog) => match catalog.entries {
                Some(entries) => InputView { catalog: put_all(self.catalog, entries@), ..self },
                None => self,
            },
            None => self,
        }
    }

    /// The inventory of the first of `answer`, if there is one.
    pub open spec fn with_accounts(self, answer: Option<Vec<Account>>) -> InputView {
        match answer {
            Some(accounts) => if accounts@.len() > 0 {
                InputView { account: Some(accounts@[0]), ..self }
            } else {
                self
            },
            None => self,
        }
    }

    /// The inventory in the region of the first of `answer`, if there is one.
    pub open spec fn with_subregions(self, answer: Option<Vec<Subregion>>) -> InputView {
        match answer {
            Some(subregions) => if subregions@.len() > 0 {
                InputView { region: subregions@[0].region_name, ..self }
            } else {
                self
            },
            None => self,
        }
    }

    /// The inventory with volumes taken in.
    pub open spec fn with_volumes(self, answer: Option<Vec<Volume>>) -> InputView {
        match answer {
            Some(volumes) => InputView { volumes: put_all(self.volumes, volumes@), ..self },
            None => self,
        }
    }

    /// The inventory with NAT services taken in.
    pub open spec fn with_nat_services(self, answer: Option<Vec<NatService>>) -> InputView {
        match answer {
            Some(nat_services) => InputView {
                nat_services: put_all(self.nat_services, nat_services@),
                ..self
            },
            None => self,
        }
    }

    /// The inventory with public IPs taken in.
    pub open spec fn with_public_ips(self, answer: Option<Vec<PublicIp>>) -> InputView {
        match answer {
            Some(public_ips) => InputView {
                public_ips: put_all(self.public_ips, public_ips@),
                ..self
            },
            None => self,
        }
    }

    /// The inventory with snapshots taken in.
    pub open spec fn with_snapshots(self, answer: Option<Vec<Snapshot>>) -> InputView {
        match answer {
            Some(snapshots) => InputView { snapshots: put_all(self.snapshots, snapshots@), ..self },
            None => self,
        }
    }

    /// The task with which a stage starts. The VM types are passed over when
    /// nothing needs them, and so are the snapshots without an account.
    pub open spec fn task_at(self, stage: Stage) -> TaskView {
        match stage {
            Stage::Vms => TaskView::Sibling(Sibling::Vms),
            Stage::VmsImages => TaskView::Sibling(Sibling::VmsImages),
            Stage::Catalog => TaskView::ReadCatalog,
            Stage::VmTypes => if self.need_vm_types_fetch {
                TaskView::Sibling(Sibling::VmTypes)
            } else {
                TaskView::ReadAccounts
            },
            Stage::Account => TaskView::ReadAccounts,
            Stage::Region => TaskView::ReadSubregions,
            Stage::Volumes => TaskView::ReadVolumes(self.tag_filters()),
            Stage::NatServices => TaskView::ReadNatServices(self.tag_filters()),
            Stage::PublicIps => TaskView::ReadPublicIps(self.tag_filters()),
            Stage::Snapshots => match self.snapshot_filters() {
                Some(filters) => TaskView::ReadSnapshots(filters),
                None => TaskView::Sibling(Sibling::FlexibleGpus),
            },
            Stage::FlexibleGpus => TaskView::Sibling(Sibling::FlexibleGpus),
            Stage::LoadBalancers => TaskView::Sibling(Sibling::LoadBalancers),
            Stage::Vpns => TaskView::Sibling(Sibling::Vpns),
            Stage::Buckets => TaskView::Sibling(Sibling::Buckets),
            Stage::End => TaskView::Finish,
        }
    }
}

/// The inventory `after` and the outcome are right for a reply to the call of the
/// stage `stage`, made on the inventory `before`, when taking in the answer makes
/// the inventory `stored`: an answer is taken in and the next stage starts; a
/// throttled call is sent again after a pause; any other failure ends the fetch.
pub open spec fn moves_on<S, E>(
    reply: Reply<S, E>,
    stage: Stage,
    before: InputView,
    stored: spec_fn(S) -> InputView,
    after: InputView,
    outcome: Result<Action, E>,
) -> bool {
    match reply {
        Ok(answer) => {
            &&& after == stored(answer)
            &&& outcome matches Ok(action) && action.pause_ms is None && action.task@
                == after.task_at(stage.spec_next())
        },
        Err(failure) => {
            &&& after == before
            &&& if failure.spec_throttled() {
                outcome matches Ok(action) && action.pause_ms matches Some(ms) && is_pause(ms)
                    && action.task@ == before.task_at(stage)
            } else {
                outcome == Err::<Action, E>(failure.error)
            }
        },
    }
}

/// A copy of a list of strings.
fn copy_texts(texts: &Vec<String>) -> (copy: Vec<String>)
    ensures
        copy@ == texts@,
{
    let copy = texts.clone();
    assert(copy@ =~= texts@);
    copy
}

impl Input {
    /// The tags by which calls are narrowed down.
    pub fn tag_filters(&self) -> (filters: TagFilters)
        ensures
            filters@ == self@.tag_filters(),
    {
        match &self.filters {
            Some(filter) => TagFilters {
                tag_keys: Some(copy_texts(&filter.filter_tag_key)),
                tag_values: Some(copy_texts(&filter.filter_tag_value)),
                tags: Some(copy_texts(&filter.filter_tag)),
            },
            None => TagFilters { tag_keys: None, tag_values: None, tags: None },
        }
    }

    /// The filters of the call that reads snapshots.
    pub fn snapshot_filters(&self) -> (filters: Option<SnapshotFilters>)
        ensures
            contents(filters) == self@.snapshot_filters(),
    {
        let account_id = match self.account_id() {
            Some(account_id) => account_id,
            None => return None,
        };
        let mut account_ids: Vec<String> = Vec::new();
        account_ids.push(account_id);
        assert(texts(account_ids@) =~= seq![account_id@]);
        Some(SnapshotFilters { account_ids, tags: self.tag_filters() })
    }

    /// Handles the reply to the call that reads the price catalog.
    pub fn fetch_catalog<E>(&mut self, reply: Reply<Option<Catalog>, E>) -> (outcome: Result<
        Handled,
        E,
    >)
        ensures
            handles(
                reply,
                old(self)@,
                |answer: Option<Catalog>| old(self)@.with_catalog(answer),
                final(self)@,
                outcome,
            ),
    {
        match settle(&mut self.rng, reply) {
            Err(error) => Err(error),
            Ok(Settled::Retry(ms)) => Ok(Handled::Retry(ms)),
            Ok(Settled::Answer(answer)) => {
                match answer {
                    Some(catalog) => match catalog.entries {
                        Some(entries) => self.catalog.insert_all(entries),
                        None => {},
                    },
                    None => {},
                }
                Ok(Handled::Stored)
            },
        }
    }

    /// Handles the reply to the call that reads the accounts, and keeps the first.
    pub fn fetch_account<E>(&mut self, reply: Reply<Option<Vec<Account>>, E>) -> (outcome: Result<
        Handled,
        E,
    >)
        ensures
            handles(
                reply,
                old(self)@,
                |answer: Option<Vec<Account>>| old(self)@.with_accounts(answer),
                final(self)@,
                outcome,
            ),
    {
        match settle(&mut self.rng, reply) {
            Err(error) => Err(error),
            Ok(Settled::Retry(ms)) => Ok(Handled::Retry(ms)),
            Ok(Settled::Answer(answer)) => {
                match answer {
                    Some(mut accounts) => {
                        if accounts.len() > 0 {
                            self.account = Some(accounts.swap_remove(0));
                        }
                    },
                    None => {},
                }
                Ok(Handled::Stored)
            },
        }
    }

    /// Handles the reply to the call that reads the subregions, and keeps the region of
    /// the first.
    pub fn fetch_region<E>(&mut self, reply: Reply<Option<Vec<Subregion>>, E>) -> (outcome: Result<
        Handled,
        E,
    >)
        ensures
            handles(
                reply,
                old(self)@,
                |answer: Option<Vec<Subregion>>| old(self)@.with_subregions(answer),
                final(self)@,
                outcome,
            ),
    {
        match settle(&mut self.rng, reply) {
            Err(error) => Err(error),
            Ok(Settled::Retry(ms)) => Ok(Handled::Retry(ms)),
            Ok(Settled::Answer(answer)) => {
                match answer {
                    Some(mut subregions) => {
                        if subregions.len() > 0 {
                            self.region = subregions.swap_remove(0).region_name;
                        }
                    },
                    None => {},
                }
                Ok(Handled::Stored)
            },
        }
    }

    /// Handles the reply to the call that reads the volumes.
    pub fn fetch_volumes<E>(&mut self, reply: Reply<Option<Vec<Volume>>, E>) -> (outcome: Result<
        Handled,
        E,
    >)
        ensures
            handles(
                reply,
                old(self)@,
                |answer: Option<Vec<Volume>>| old(self)@.with_volumes(answer),
                final(self)@,
                outcome,
            ),
    {
        match settle(&mut self.rng, reply) {
            Err(error) => Err(error),
            Ok(Settled::Retry(ms)) => Ok(Handled::Retry(ms)),
            Ok(Settled::Answer(answer)) => {
                match answer {
                    Some(volumes) => self.volumes.insert_all(volumes),
                    None => {},
                }
                Ok(Handled::Stored)
            },
        }
    }

    /// Handles the reply to the call that reads the NAT services.
    pub fn fetch_nat_services<E>(&mut self, reply: Reply<Option<Vec<NatService>>, E>) -> (outcome: Result<
        Handled,
        E,
    >)
        ensures
            handles(
                reply,
                old(self)@,
                |answer: Option<Vec<NatService>>| old(self)@.with_nat_services(answer),
                final(self)@,
                outcome,
            ),
    {
        match settle(&mut self.rng, reply) {
            Err(error) => Err(error),
            Ok(Settled::Retry(ms)) => Ok(Handled::Retry(ms)),
            Ok(Settled::Answer(answer)) => {
                match answer {
                    Some(nat_services) => self.nat_services.insert_all(nat_services),
                    None => {},
                }
                Ok(Handled::Stored)
            },
        }
    }

    /// Handles the reply to the call that reads the public IPs.
    pub fn fetch_public_ips<E>(&mut self, reply: Reply<Option<Vec<PublicIp>>, E>) -> (outcome: Result<
        Handled,
        E,
    >)
        ensures
            handles(
                reply,
                old(self)@,
                |answer: Option<Vec<PublicIp>>| old(self)@.with_public_ips(answer),
                final(self)@,
                outcome,
            ),
    {
        match settle(&mut self.rng, reply) {
            Err(error) => Err(error),
            Ok(Settled::Retry(ms)) => Ok(Handled::Retry(ms)),
            Ok(Settled::Answer(answer)) => {
                match answer {
                    Some(public_ips) => self.public_ips.insert_all(public_ips),
                    None => {},
                }
                Ok(Handled::Stored)
            },
        }
    }

    /// Handles the reply to the call that reads the snapshots of this account.
    pub fn fetch_snapshots<E>(&mut self, reply: Reply<Option<Vec<Snapshot>>, E>) -> (outcome: Result<
        Handled,
        E,
    >)
        ensures
            handles(
                reply,
                old(self)@,
                |answer: Option<Vec<Snapshot>>| old(self)@.with_snapshots(answer),
                final(self)@,
                outcome,
            ),
    {
        match settle(&mut self.rng, reply) {
            Err(error) => Err(error),
            Ok(Settled::Retry(ms)) => Ok(Handled::Retry(ms)),
            Ok(Settled::Answer(answer)) => {
                match answer {
                    Some(snapshots) => self.snapshots.insert_all(snapshots),
                    None => {},
                }
                Ok(Handled::Stored)
            },
        }
    }

    /// The task with which a stage starts.
    pub fn task_at(&self, stage: Stage) -> (task: Task)
        ensures
            task@ == self@.task_at(stage),
    {
        match stage {
            Stage::Vms => Task::Sibling(Sibling::Vms),
            Stage::VmsImages => Task::Sibling(Sibling::VmsImages),
            Stage::Catalog => Task::ReadCatalog,
            Stage::VmTypes => if self.need_vm_types_fetch {
                Task::Sibling(Sibling::VmTypes)
            } else {
                Task::ReadAccounts
            },
            Stage::Account => Task::ReadAccounts,
            Stage::Region => Task::ReadSubregions,
            Stage::Volumes => Task::ReadVolumes(self.tag_filters()),
            Stage::NatServices => Task::ReadNatServices(self.tag_filters()),
            Stage::PublicIps => Task::ReadPublicIps(self.tag_filters()),
            Stage::Snapshots => match self.snapshot_filters() {
                Some(filters) => Task::ReadSnapshots(filters),
                None => Task::Sibling(Sibling::FlexibleGpus),
            },
            Stage::FlexibleGpus => Task::Sibling(Sibling::FlexibleGpus),
            Stage::LoadBalancers => Task::Sibling(Sibling::LoadBalancers),
            Stage::Vpns => Task::Sibling(Sibling::Vpns),
            Stage::Buckets => Task::Sibling(Sibling::Buckets),
            Stage::End => Task::Finish,
        }
    }

    /// What follows the handling of a reply to the call of a stage.
    fn follow<E>(&self, stage: Stage, handled: Result<Handled, E>) -> (outcome: Result<Action, E>)
        ensures
            match handled {
                Ok(Handled::Stored) => outcome matches Ok(action) && action.pause_ms is None
                    && action.task@ == self@.task_at(stage.spec_next()),
                Ok(Handled::Retry(ms)) => outcome matches Ok(action) && action.pause_ms == Some(ms)
                    && action.task@ == self@.task_at(stage),
                Err(error) => outcome == Err::<Action, E>(error),
            },
    {
        match handled {
            Ok(Handled::Stored) => Ok(Action { pause_ms: None, task: self.task_at(stage.next()) }),
            Ok(Handled::Retry(ms)) => Ok(Action { pause_ms: Some(ms), task: self.task_at(stage) }),
            Err(error) => Err(error),
        }
    }

    /// Dates the inventory, and gives the first task of a fetch.
    pub fn start_at(&mut self, now: Timestamp) -> (action: Action)
        ensures
            final(self)@ == (InputView { fetch_date: Some(now), ..old(self)@ }),
            action.pause_ms is None,
            action.task@ == old(self)@.task_at(Stage::Vms),
    {
        self.fetch_date = Some(now);
        Action { pause_ms: None, task: self.task_at(Stage::Vms) }
    }

    /// Takes in what happened, and tells what to do next. The start dates the
    /// inventory as the clock shows. The fetch is over when the task is `Finish`, or
    /// with the error that is handed back.
    pub fn fetch<E>(&mut self, event: Event<E>) -> (outcome: Result<Action, E>)
        ensures
            match event {
                Event::Start => {
                    &&& final(self)@.fetch_date matches Some(now) && on_calendar(
                        now.spec_secs(),
                        now.spec_nanos(),
                    ) && now.spec_nanos() < 1_000_000_000
                    &&& final(self)@ == (InputView {
                        fetch_date: final(self)@.fetch_date,
                        ..old(self)@
                    })
                    &&& outcome matches Ok(action) && action.pause_ms is None && action.task@
                        == old(self)@.task_at(Stage::Vms)
                },
                Event::Sibling(sibling, result) => {
                    &&& final(self)@ == old(self)@
                    &&& match result {
                        Ok(_) => outcome matches Ok(action) && action.pause_ms is None
                            && action.task@ == old(self)@.task_at(
                            sibling.spec_stage().spec_next(),
                        ),
                        Err(error) => outcome == Err::<Action, E>(error),
                    }
                },
                Event::Catalog(reply) => moves_on(
                    reply,
                    Stage::Catalog,
                    old(self)@,
                    |answer: Option<Catalog>| old(self)@.with_catalog(answer),
                    final(self)@,
                    outcome,
                ),
                Event::Accounts(reply) => moves_on(
                    reply,
                    Stage::Account,
                    old(self)@,
                    |answer: Option<Vec<Account>>| old(self)@.with_accounts(answer),
                    final(self)@,
                    outcome,
                ),
                Event::Subregions(reply) => moves_on(
                    reply,
                    Stage::Region,
                    old(self)@,
                    |answer: Option<Vec<Subregion>>| old(self)@.with_subregions(answer),
                    final(self)@,
                    outcome,
                ),
                Event::Volumes(reply) => moves_on(
                    reply,
                    Stage::Volumes,
                    old(self)@,
                    |answer: Option<Vec<Volume>>| old(self)@.with_volumes(answer),
                    final(self)@,
                    outcome,
                ),
                Event::NatServices(reply) => moves_on(
                    reply,
                    Stage::NatServices,
                    old(self)@,
                    |answer: Option<Vec<NatService>>| old(self)@.with_nat_services(answer),
                    final(self)@,
                    outcome,
                ),
                Event::PublicIps(reply) => moves_on(
                    reply,
                    Stage::PublicIps,
                    old(self)@,
                    |answer: Option<Vec<PublicIp>>| old(self)@.with_public_ips(answer),
                    final(self)@,
                    outcome,
                ),
                Event::Snapshots(reply) => moves_on(
                    reply,
                    Stage::Snapshots,
                    old(self)@,
                    |answer: Option<Vec<Snapshot>>| old(self)@.with_snapshots(answer),
                    final(self)@,
                    outcome,
                ),
            },
    {
        match event {
            Event::Start => Ok(self.start_at(Timestamp::now())),
            Event::Sibling(sibling, result) => match result {
                Ok(_) => self.follow(sibling.stage(), Ok(Handled::Stored)),
                Err(error) => Err(error),
            },
            Event::Catalog(reply) => {
                let handled = self.fetch_catalog(reply);
                self.follow(Stage::Catalog, handled)
            },
            Event::Accounts(reply) => {
                let handled = self.fetch_account(reply);
                self.follow(Stage::Account, handled)
            },
            Event::Subregions(reply) => {
                let handled = self.fetch_region(reply);
                self.follow(Stage::Region, handled)
            },
            Event::Volumes(reply) => {
                let handled = self.fetch_volumes(reply);
                self.follow(Stage::Volumes, handled)
            },
            Event::NatServices(reply) => {
                let handled = self.fetch_nat_services(reply);
                self.follow(Stage::NatServices, handled)
            },
            Event::PublicIps(reply) => {
                let handled = self.fetch_public_ips(reply);
                self.follow(Stage::PublicIps, handled)
            },
            Event::Snapshots(reply) => {
                let handled = self.fetch_snapshots(reply);
                self.follow(Stage::Snapshots, handled)
            },
        }
    }
}

} // verus!
