//! Replies: what an answer, a throttled call and any other failure lead to.
use vstd::prelude::*;

use super::terms::{account_text, spells};
use crate::oapi::fetch::{handles, moves_on, Action, Handled, Sibling, Stage, TaskView};
use crate::oapi::InputView;
use crate::throttle::{is_pause, settles, ApiError, Reply, Settled};

verus! {

/// A call was throttled if and only if it was answered with 503 or 429. A failure
/// without an answer is no throttling.
pub proof fn law_two_statuses_mean_throttling<E>(failure: ApiError<E>)
    ensures
        failure.spec_throttled() <==> match failure.status {
            Some(status) => status == 503 || status == 429,
            None => false,
        },
{
}

/// A pause lasts from one second to just under ten.
pub proof fn law_pauses_last_one_to_ten_seconds(ms: u64)
    ensures
        is_pause(ms) <==> 1000 <= ms < 10000,
{
}

/// The call was answered with one of the two statuses that ask for patience.
pub open spec fn asked_to_wait<E>(failure: ApiError<E>) -> bool {
    failure.status == Some(503u16) || failure.status == Some(429u16)
}

/// An answer goes on as it is, a throttled call is sent again after a pause, and the
/// error of any other failure is handed back as it is.
pub proof fn law_replies_are_settled<S, E>(reply: Reply<S, E>, outcome: Result<Settled<S>, E>)
    requires
        settles(reply, outcome),
    ensures
        match reply {
            Ok(answer) => outcome matches Ok(Settled::Answer(settled)) && settled == answer,
            Err(failure) => if asked_to_wait(failure) {
                outcome matches Ok(Settled::Retry(ms)) && 1000 <= ms < 10000
            } else {
                outcome matches Err(error) && error == failure.error
            },
        },
{
}

/// An answer is taken in; a throttled call and any other failure leave the inventory
/// as it was, the first to be sent again after a pause, the other with its error.
pub proof fn law_replies_are_handled<S, E>(
    reply: Reply<S, E>,
    before: InputView,
    stored: spec_fn(S) -> InputView,
    after: InputView,
    outcome: Result<Handled, E>,
)
    requires
        handles(reply, before, stored, after, outcome),
    ensures
        match reply {
            Ok(answer) => after == stored(answer) && outcome matches Ok(Handled::Stored),
            Err(failure) => {
                &&& after == before
                &&& if asked_to_wait(failure) {
                    outcome matches Ok(Handled::Retry(ms)) && 1000 <= ms < 10000
                } else {
                    outcome matches Err(error) && error == failure.error
                }
            },
        },
{
}

/// After an answer the task of the next stage comes at once; after a throttled call
/// the task of the same stage comes again, after a pause; any other failure ends the
/// fetch with its error. Only an answer changes the inventory.
pub proof fn law_fetch_moves_on_after_an_answer_only<S, E>(
    reply: Reply<S, E>,
    stage: Stage,
    before: InputView,
    stored: spec_fn(S) -> InputView,
    after: InputView,
    outcome: Result<Action, E>,
)
    requires
        moves_on(reply, stage, before, stored, after, outcome),
    ensures
        match reply {
            Ok(answer) => {
                &&& after == stored(answer)
                &&& outcome matches Ok(action)
                &&& action.pause_ms is None
                &&& action.task@ == after.task_at(stage.spec_next())
            },
            Err(failure) => {
                &&& after == before
                &&& if asked_to_wait(failure) {
                    &&& outcome matches Ok(action)
                    &&& action.pause_ms matches Some(ms)
                    &&& 1000 <= ms < 10000
                    &&& action.task@ == before.task_at(stage)
                } else {
                    outcome matches Err(error) && error == failure.error
                }
            },
        },
{
}

/// One thing is read after the other: the VMs, their images, the catalog, the VM types
/// if any VM needs them, the account, the region, the volumes, the NAT services, the
/// public IPs, the snapshots if there is an account, the flexible GPUs, the load
/// balancers, the VPNs and the buckets. Then the fetch is over.
pub proof fn law_one_thing_is_read_after_the_other(input: InputView)
    ensures
        input.task_at(Stage::Vms) == TaskView::Sibling(Sibling::Vms),
        input.task_at(Sibling::Vms.spec_stage().spec_next()) == TaskView::Sibling(
            Sibling::VmsImages,
        ),
        input.task_at(Sibling::VmsImages.spec_stage().spec_next()) == TaskView::ReadCatalog,
        input.need_vm_types_fetch ==> input.task_at(Stage::Catalog.spec_next())
            == TaskView::Sibling(Sibling::VmTypes),
        !input.need_vm_types_fetch ==> input.task_at(Stage::Catalog.spec_next())
            == TaskView::ReadAccounts,
        input.task_at(Sibling::VmTypes.spec_stage().spec_next()) == TaskView::ReadAccounts,
        input.task_at(Stage::Account.spec_next()) == TaskView::ReadSubregions,
        input.task_at(Stage::Region.spec_next()) is ReadVolumes,
        input.task_at(Stage::Volumes.spec_next()) is ReadNatServices,
        input.task_at(Stage::NatServices.spec_next()) is ReadPublicIps,
        account_text(input) is Some ==> input.task_at(
            Stage::PublicIps.spec_next(),
        ) is ReadSnapshots,
        account_text(input) is None ==> input.task_at(Stage::PublicIps.spec_next())
            == TaskView::Sibling(Sibling::FlexibleGpus),
        input.task_at(Stage::Snapshots.spec_next()) == TaskView::Sibling(Sibling::FlexibleGpus),
        input.task_at(Sibling::FlexibleGpus.spec_stage().spec_next()) == TaskView::Sibling(
            Sibling::LoadBalancers,
        ),
        input.task_at(Sibling::LoadBalancers.spec_stage().spec_next()) == TaskView::Sibling(
            Sibling::Vpns,
        ),
        input.task_at(Sibling::Vpns.spec_stage().spec_next()) == TaskView::Sibling(
            Sibling::Buckets,
        ),
        input.task_at(Sibling::Buckets.spec_stage().spec_next()) == TaskView::Finish,
{
}

/// The stages come in the order of what they read, and what is read elsewhere is read at
/// the stage of its name.
pub proof fn law_stages_come_in_the_order_of_reading()
    ensures
        Stage::Vms.spec_next() == Stage::VmsImages,
        Stage::VmsImages.spec_next() == Stage::Catalog,
        Stage::Catalog.spec_next() == Stage::VmTypes,
        Stage::VmTypes.spec_next() == Stage::Account,
        Stage::Account.spec_next() == Stage::Region,
        Stage::Region.spec_next() == Stage::Volumes,
        Stage::Volumes.spec_next() == Stage::NatServices,
        Stage::NatServices.spec_next() == Stage::PublicIps,
        Stage::PublicIps.spec_next() == Stage::Snapshots,
        Stage::Snapshots.spec_next() == Stage::FlexibleGpus,
        Stage::FlexibleGpus.spec_next() == Stage::LoadBalancers,
        Stage::LoadBalancers.spec_next() == Stage::Vpns,
        Stage::Vpns.spec_next() == Stage::Buckets,
        Stage::Buckets.spec_next() == Stage::End,
        Sibling::Vms.spec_stage() == Stage::Vms,
        Sibling::VmsImages.spec_stage() == Stage::VmsImages,
        Sibling::VmTypes.spec_stage() == Stage::VmTypes,
        Sibling::FlexibleGpus.spec_stage() == Stage::FlexibleGpus,
        Sibling::LoadBalancers.spec_stage() == Stage::LoadBalancers,
        Sibling::Vpns.spec_stage() == Stage::Vpns,
        Sibling::Buckets.spec_stage() == Stage::Buckets,
{
}

/// The task of a stage is the call of that stage, so a throttled call comes again as
/// what it was.
pub proof fn law_each_stage_makes_its_own_call(input: InputView)
    ensures
        input.task_at(Stage::Catalog) == TaskView::ReadCatalog,
        input.task_at(Stage::Account) == TaskView::ReadAccounts,
        input.task_at(Stage::Region) == TaskView::ReadSubregions,
        input.task_at(Stage::Volumes) is ReadVolumes,
        input.task_at(Stage::NatServices) is ReadNatServices,
        input.task_at(Stage::PublicIps) is ReadPublicIps,
        account_text(input) is Some ==> input.task_at(Stage::Snapshots) is ReadSnapshots,
{
}

/// A call is narrowed down by every tag of the user, list by list, or by none.
pub open spec fn narrowed_down(
    input: InputView,
    tag_keys: Option<Seq<Seq<char>>>,
    tag_values: Option<Seq<Seq<char>>>,
    tags: Option<Seq<Seq<char>>>,
) -> bool {
    match input.filters {
        Some(filter) => {
            &&& tag_keys matches Some(list) && spells(filter.filter_tag_key@, list)
            &&& tag_values matches Some(list) && spells(filter.filter_tag_value@, list)
            &&& tags matches Some(list) && spells(filter.filter_tag@, list)
        },
        None => tag_keys is None && tag_values is None && tags is None,
    }
}

/// The calls that read volumes, NAT services, public IPs and snapshots are narrowed
/// down by the tags of the user, whatever the stage; the last one also by the account,
/// and by no other.
pub proof fn law_calls_are_narrowed_down_as_the_user_says(input: InputView, stage: Stage)
    ensures
        match input.task_at(stage) {
            TaskView::ReadVolumes(filters) => narrowed_down(
                input,
                filters.tag_keys,
                filters.tag_values,
                filters.tags,
            ),
            TaskView::ReadNatServices(filters) => narrowed_down(
                input,
                filters.tag_keys,
                filters.tag_values,
                filters.tags,
            ),
            TaskView::ReadPublicIps(filters) => narrowed_down(
                input,
                filters.tag_keys,
                filters.tag_values,
                filters.tags,
            ),
            TaskView::ReadSnapshots(filters) => {
                &&& filters.account_ids.len() == 1
                &&& Some(filters.account_ids[0]) == account_text(input)
                &&& narrowed_down(
                    input,
                    filters.tags.tag_keys,
                    filters.tags.tag_values,
                    filters.tags.tags,
                )
            },
            _ => true,
        },
        narrowed_down(
            input,
            input.tag_filters().tag_keys,
            input.tag_filters().tag_values,
            input.tag_filters().tags,
        ),
        input.snapshot_filters() is Some <==> account_text(input) is Some,
        input.snapshot_filters() matches Some(filters) ==> {
            &&& filters.account_ids.len() == 1
            &&& Some(filters.account_ids[0]) == account_text(input)
            &&& narrowed_down(
                input,
                filters.tags.tag_keys,
                filters.tags.tag_values,
                filters.tags.tags,
            )
        },
{
}

} // verus!
