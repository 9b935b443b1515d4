//! A fetch: its order, its end, and what is asked for.
use vstd::prelude::*;

use crate::clock::Timestamp;
use crate::oapi::fetch::{texts, Stage, TaskView};
use crate::oapi::InputView;

verus! {

/// A stage starts with a task of its own, with two exceptions: the VM types are
/// passed over when nothing needs them, and the snapshots without an account.
pub proof fn law_stages_are_passed_over_for_a_reason(input: InputView, stage: Stage)
    ensures
        match stage {
            Stage::VmTypes => input.task_at(stage).stage() == (if input.need_vm_types_fetch {
                Stage::VmTypes
            } else {
                Stage::Account
            }),
            Stage::Snapshots => input.task_at(stage).stage() == (if input.account_id() is Some {
                Stage::Snapshots
            } else {
                Stage::FlexibleGpus
            }),
            _ => input.task_at(stage).stage() == stage,
        },
{
}

/// A throttled call is sent again as it was: the task of a stage is also the task
/// with which the stage of that task starts.
pub proof fn law_throttled_call_is_repeated(input: InputView, stage: Stage)
    ensures
        input.task_at(input.task_at(stage).stage()) == input.task_at(stage),
{
}

/// The task after a stage belongs to a later stage.
pub proof fn law_fetch_moves_forward(input: InputView, stage: Stage)
    requires
        stage != Stage::End,
    ensures
        input.task_at(stage.spec_next()).stage().rank() > stage.rank(),
{
}

/// The task at `at` is that of the stage after the task before it, on the
/// inventory of that moment.
pub open spec fn continues(run: Seq<(InputView, TaskView)>, at: int) -> bool {
    &&& run[at - 1].1 != TaskView::Finish
    &&& run[at].1 == run[at].0.task_at(run[at - 1].1.stage().spec_next())
}

/// The task at `at` repeats the one before it, which was throttled.
pub open spec fn repeats(run: Seq<(InputView, TaskView)>, at: int) -> bool {
    run[at] == run[at - 1]
}

/// The tasks of a fetch in which no call fails, each with the inventory of that
/// moment: the first is that of the first stage, and each further one continues
/// the fetch or repeats a throttled call.
pub open spec fn is_run(run: Seq<(InputView, TaskView)>) -> bool {
    &&& run.len() > 0
    &&& run[0].1 == run[0].0.task_at(Stage::Vms)
    &&& forall|i: int| 0 < i < run.len() ==> (#[trigger] continues(run, i)) || repeats(run, i)
}

/// How many of the first `count` tasks of a run do not continue it.
pub open spec fn repetitions(run: Seq<(InputView, TaskView)>, count: nat) -> nat
    decreases count,
{
    if count <= 1 {
        0
    } else if continues(run, count - 1) {
        repetitions(run, (count - 1) as nat)
    } else {
        repetitions(run, (count - 1) as nat) + 1
    }
}

proof fn lemma_run_rank(run: Seq<(InputView, TaskView)>, at: int)
    requires
        is_run(run),
        0 <= at < run.len(),
    ensures
        run[at].1.stage().rank() + repetitions(run, (at + 1) as nat) >= at,
    decreases at,
{
    if at > 0 {
        lemma_run_rank(run, at - 1);
        if continues(run, at) {
            law_fetch_moves_forward(run[at].0, run[at - 1].1.stage());
        }
    }
}

proof fn lemma_run_never_goes_back(run: Seq<(InputView, TaskView)>, i: int, j: int)
    requires
        is_run(run),
        0 <= i < j < run.len(),
    ensures
        run[i].1.stage().rank() <= run[j].1.stage().rank(),
    decreases j - i,
{
    if continues(run, j) {
        law_fetch_moves_forward(run[j].0, run[j - 1].1.stage());
    }
    if i < j - 1 {
        lemma_run_never_goes_back(run, i, j - 1);
    }
}

/// A fetch in which no call fails never goes back to an earlier stage, and comes to
/// its end: apart from the repetitions of throttled calls it has at most fifteen
/// tasks.
pub proof fn law_fetch_comes_to_an_end(run: Seq<(InputView, TaskView)>)
    requires
        is_run(run),
    ensures
        run.len() <= 15 + repetitions(run, run.len()),
        forall|i: int, j: int|
            0 <= i < j < run.len() ==> (#[trigger] run[i]).1.stage().rank() <= (
            #[trigger] run[j]).1.stage().rank(),
{
    lemma_run_rank(run, run.len() - 1);
    assert forall|i: int, j: int| 0 <= i < j < run.len() implies (
    #[trigger] run[i]).1.stage().rank() <= (#[trigger] run[j]).1.stage().rank() by {
        lemma_run_never_goes_back(run, i, j);
    }
}

/// Only the snapshots of the account itself are ever asked for: without an account
/// no such call is made at any stage, and with one its stage makes it.
pub proof fn law_only_own_snapshots_are_read(input: InputView, stage: Stage)
    ensures
        input.task_at(stage) matches TaskView::ReadSnapshots(filters) ==> {
            &&& input.account_id() is Some
            &&& filters.account_ids == seq![input.account_id()->0]
        },
        input.account_id() is None ==> !(input.task_at(stage) is ReadSnapshots),
        input.account_id() is Some ==> input.task_at(Stage::Snapshots) is ReadSnapshots,
{
}

/// Every call that takes tags is made at its stage, the snapshots' where there is an
/// account, and is narrowed down by the tags of the user: all three lists where the
/// user gave filters, none of them where there are none.
pub proof fn law_user_tags_narrow_down_every_call(input: InputView, stage: Stage)
    ensures
        input.task_at(Stage::Volumes) == TaskView::ReadVolumes(input.tag_filters()),
        input.task_at(Stage::NatServices) == TaskView::ReadNatServices(input.tag_filters()),
        input.task_at(Stage::PublicIps) == TaskView::ReadPublicIps(input.tag_filters()),
        input.account_id() is Some ==> input.task_at(Stage::Snapshots) is ReadSnapshots,
        input.task_at(stage) matches TaskView::ReadVolumes(filters) ==> filters
            == input.tag_filters(),
        input.task_at(stage) matches TaskView::ReadNatServices(filters) ==> filters
            == input.tag_filters(),
        input.task_at(stage) matches TaskView::ReadPublicIps(filters) ==> filters
            == input.tag_filters(),
        input.task_at(stage) matches TaskView::ReadSnapshots(filters) ==> filters.tags
            == input.tag_filters(),
        match input.filters {
            Some(filter) => {
                &&& input.tag_filters().tag_keys == Some(texts(filter.filter_tag_key@))
                &&& input.tag_filters().tag_values == Some(texts(filter.filter_tag_value@))
                &&& input.tag_filters().tags == Some(texts(filter.filter_tag@))
            },
            None => {
                &&& input.tag_filters().tag_keys is None
                &&& input.tag_filters().tag_values is None
                &&& input.tag_filters().tags is None
            },
        },
{
}

/// An inventory whose fetch was started is dated: what is listed of it carries
/// the text of that date.
pub proof fn law_fetched_inventory_is_dated(input: InputView, now: Timestamp)
    ensures
        (InputView { fetch_date: Some(now), ..input }).read_date() == Some(now.spec_rfc3339()),
{
}

} // verus!
