//! The listing: what is listed of an inventory, in what order and at what prices.
use vstd::prelude::*;

use super::tables::{keyed, last_of_its_key, law_read_items_are_kept};
use crate::model;
use crate::model::{contents, Price};
use crate::oapi::fill::{filter_map, OtherResources};
use crate::oapi::InputView;
use crate::resource::{other_resources, ResourceView};
use crate::table::{distinct_keys, lookup, Identified};
use crate::VERSION;

verus! {

/// The item of which the result at `at` was made.
pub(crate) proof fn lemma_source<A, B>(
    items: Seq<A>,
    f: spec_fn(A) -> Option<B>,
    at: int,
) -> (source: int)
    requires
        0 <= at < filter_map(items, f).len(),
    ensures
        0 <= source < items.len(),
        f(items[source]) == Some(filter_map(items, f)[at]),
    decreases items.len(),
{
    let fewer = items.drop_last();
    let earlier = filter_map(fewer, f);
    if at < earlier.len() {
        lemma_source(fewer, f, at)
    } else {
        items.len() - 1
    }
}

/// The items of which two results were made come in the order of the results.
pub(crate) proof fn lemma_sources<A, B>(
    items: Seq<A>,
    f: spec_fn(A) -> Option<B>,
    at: int,
    later: int,
) -> (sources: (int, int))
    requires
        0 <= at < later < filter_map(items, f).len(),
    ensures
        0 <= sources.0 < sources.1 < items.len(),
        f(items[sources.0]) == Some(filter_map(items, f)[at]),
        f(items[sources.1]) == Some(filter_map(items, f)[later]),
    decreases items.len(),
{
    let fewer = items.drop_last();
    let earlier = filter_map(fewer, f);
    if later < earlier.len() {
        lemma_sources(fewer, f, at, later)
    } else {
        (lemma_source(fewer, f, at), items.len() - 1)
    }
}

/// What is made of an item is among the results.
pub(crate) proof fn lemma_made<A, B>(items: Seq<A>, f: spec_fn(A) -> Option<B>, source: int)
    requires
        0 <= source < items.len(),
        f(items[source]) is Some,
    ensures
        filter_map(items, f).contains(f(items[source])->0),
    decreases items.len(),
{
    let fewer = items.drop_last();
    let all = filter_map(items, f);
    if source < fewer.len() {
        lemma_made(fewer, f, source);
        let earlier = filter_map(fewer, f);
        let at = choose|at: int| 0 <= at < earlier.len() && earlier[at] == f(items[source])->0;
        assert(all[at] == earlier[at]);
    } else {
        assert(all[all.len() - 1] == f(items[source])->0);
    }
}

/// No more is made than there are items.
proof fn lemma_no_more<A, B>(items: Seq<A>, f: spec_fn(A) -> Option<B>)
    ensures
        filter_map(items, f).len() <= items.len(),
    decreases items.len(),
{
    if items.len() > 0 {
        lemma_no_more(items.drop_last(), f);
    }
}

/// The place of a kind of resource in a listing. The resources that are priced
/// elsewhere have none.
pub open spec fn kind_rank<X>(listed: ResourceView<X>) -> Option<int> {
    match listed {
        ResourceView::Volume(_) => Some(1),
        ResourceView::PublicIp(_) => Some(2),
        ResourceView::Snapshot(_) => Some(3),
        ResourceView::NatServices(_) => Some(4),
        ResourceView::Other(_) => None,
    }
}

/// A resource that is listed of `input` carries the version of the program, the
/// account, the region, the date of reading and an identifier, and no total price.
pub open spec fn stamped<X>(
    input: InputView,
    read_date: Option<Seq<char>>,
    listed: ResourceView<X>,
) -> bool {
    match listed {
        ResourceView::Volume(volume) => {
            &&& volume.osc_cost_version == Some(VERSION@)
            &&& volume.account_id == input.account_id()
            &&& volume.read_date_rfc3339 == read_date
            &&& volume.region == contents(input.region)
            &&& volume.resource_id is Some
            &&& volume.price_per_hour is None
            &&& volume.price_per_month is None
        },
        ResourceView::PublicIp(public_ip) => {
            &&& public_ip.osc_cost_version == Some(VERSION@)
            &&& public_ip.account_id == input.account_id()
            &&& public_ip.read_date_rfc3339 == read_date
            &&& public_ip.region == contents(input.region)
            &&& public_ip.resource_id is Some
            &&& public_ip.price_per_hour is None
            &&& public_ip.price_per_month is None
        },
        ResourceView::Snapshot(snapshot) => {
            &&& snapshot.osc_cost_version == Some(VERSION@)
            &&& snapshot.account_id == input.account_id()
            &&& snapshot.read_date_rfc3339 == read_date
            &&& snapshot.region == contents(input.region)
            &&& snapshot.resource_id is Some
            &&& snapshot.price_per_hour is None
            &&& snapshot.price_per_month is None
        },
        ResourceView::NatServices(nat_service) => {
            &&& nat_service.osc_cost_version == Some(VERSION@)
            &&& nat_service.account_id == input.account_id()
            &&& nat_service.read_date_rfc3339 == read_date
            &&& nat_service.region == contents(input.region)
            &&& nat_service.resource_id is Some
            &&& nat_service.price_per_hour is None
            &&& nat_service.price_per_month is None
        },
        ResourceView::Other(_) => true,
    }
}

/// The one price by which a public IP is charged.
pub open spec fn one_price<X>(listed: ResourceView<X>) -> bool {
    listed matches ResourceView::PublicIp(public_ip) ==> {
        ||| public_ip.price_non_attached is Some && public_ip.price_first_ip is None
            && public_ip.price_next_ips is None
        ||| public_ip.price_non_attached is None && public_ip.price_first_ip == Some(
            Price::spec_zero(),
        ) && public_ip.price_next_ips is None
        ||| public_ip.price_non_attached is None && public_ip.price_first_ip is None
            && public_ip.price_next_ips is Some
    }
}

/// The IOPS of a volume are free unless it is of the type `io1`.
pub open spec fn free_iops<X>(listed: ResourceView<X>) -> bool {
    listed matches ResourceView::Volume(volume) ==> volume.volume_type == Some("io1"@)
        || volume.price_iops_per_month == Price::spec_zero()
}

/// A listing of kinds between `low` and `high`, in their order, in which every
/// resource is as the laws say.
spec fn sound_part<X>(
    input: InputView,
    read_date: Option<Seq<char>>,
    part: Seq<ResourceView<X>>,
    low: int,
    high: int,
) -> bool {
    &&& forall|i: int|
        0 <= i < part.len() ==> {
            let listed = #[trigger] part[i];
            &&& kind_rank(listed) is Some ==> low <= kind_rank(listed)->0 <= high
            &&& stamped(input, read_date, listed)
            &&& one_price(listed)
            &&& free_iops(listed)
        }
    &&& forall|i: int, j: int|
        0 <= i < j < part.len() && kind_rank(#[trigger] part[i]) is Some && kind_rank(
            #[trigger] part[j],
        ) is Some ==> kind_rank(part[i])->0 <= kind_rank(part[j])->0
}

proof fn lemma_parts_add<X>(
    input: InputView,
    read_date: Option<Seq<char>>,
    first: Seq<ResourceView<X>>,
    second: Seq<ResourceView<X>>,
    low: int,
    middle: int,
    high: int,
)
    requires
        low <= middle <= high,
        sound_part(input, read_date, first, low, middle),
        sound_part(input, read_date, second, middle, high),
    ensures
        sound_part(input, read_date, first + second, low, high),
{
    let both = first + second;
    assert forall|i: int| 0 <= i < both.len() implies {
        let listed = #[trigger] both[i];
        &&& kind_rank(listed) is Some ==> low <= kind_rank(listed)->0 <= high
        &&& stamped(input, read_date, listed)
        &&& one_price(listed)
        &&& free_iops(listed)
    } by {
        if i < first.len() {
            assert(both[i] == first[i]);
        } else {
            assert(both[i] == second[i - first.len()]);
        }
    }
    assert forall|i: int, j: int|
        0 <= i < j < both.len() && kind_rank(#[trigger] both[i]) is Some && kind_rank(
            #[trigger] both[j],
        ) is Some implies kind_rank(both[i])->0 <= kind_rank(both[j])->0 by {
        if i < first.len() {
            assert(both[i] == first[i]);
        } else {
            assert(both[i] == second[i - first.len()]);
        }
        if j < first.len() {
            assert(both[j] == first[j]);
        } else {
            assert(both[j] == second[j - first.len()]);
        }
    }
}

proof fn lemma_others_are_sound<X>(
    input: InputView,
    read_date: Option<Seq<char>>,
    others: Seq<X>,
    at: int,
)
    ensures
        sound_part(input, read_date, other_resources(others), at, at),
{
}

proof fn lemma_volumes_are_sound<X>(input: InputView, read_date: Option<Seq<char>>)
    ensures
        sound_part::<X>(input, read_date, input.volume_resources(read_date), 1, 1),
{
    let f = input.volume_row::<X>(read_date);
    let listed = input.volume_resources::<X>(read_date);
    assert forall|i: int| 0 <= i < listed.len() implies {
        &&& (#[trigger] listed[i]) is Volume
        &&& stamped(input, read_date, listed[i])
        &&& free_iops(listed[i])
    } by {
        let source = lemma_source(input.volumes, f, i);
    }
}

proof fn lemma_public_ips_are_sound<X>(input: InputView, read_date: Option<Seq<char>>)
    ensures
        sound_part::<X>(input, read_date, input.public_ip_resources(read_date), 2, 2),
{
    let f = input.public_ip_row::<X>(read_date);
    let listed = input.public_ip_resources::<X>(read_date);
    assert forall|i: int| 0 <= i < listed.len() implies {
        &&& (#[trigger] listed[i]) is PublicIp
        &&& stamped(input, read_date, listed[i])
        &&& one_price(listed[i])
    } by {
        let source = lemma_source(input.public_ips, f, i);
    }
}

proof fn lemma_snapshots_are_sound<X>(input: InputView, read_date: Option<Seq<char>>)
    ensures
        sound_part::<X>(input, read_date, input.snapshot_resources(read_date), 3, 3),
{
}

proof fn lemma_nat_services_are_sound<X>(input: InputView, read_date: Option<Seq<char>>)
    ensures
        sound_part::<X>(input, read_date, input.nat_service_resources(read_date), 4, 4),
{
    let f = input.nat_service_row::<X>(read_date);
    let listed = input.nat_service_resources::<X>(read_date);
    assert forall|i: int| 0 <= i < listed.len() implies {
        &&& (#[trigger] listed[i]) is NatServices
        &&& stamped(input, read_date, listed[i])
    } by {
        let source = lemma_source(input.nat_services, f, i);
    }
}

proof fn lemma_listing_is_sound<X>(
    input: InputView,
    read_date: Option<Seq<char>>,
    others: OtherResources<X>,
)
    ensures
        sound_part(input, read_date, input.resources(read_date, others), 1, 4),
{
    let r0 = other_resources(others.vms@);
    let r1 = r0 + input.volume_resources(read_date);
    let r2 = r1 + input.public_ip_resources(read_date);
    let r3 = r2 + input.snapshot_resources(read_date);
    let r4 = r3 + input.nat_service_resources(read_date);
    let r5 = r4 + other_resources(others.flexible_gpus@);
    let r6 = r5 + other_resources(others.load_balancers@);
    let r7 = r6 + other_resources(others.vpns@);
    lemma_others_are_sound(input, read_date, others.vms@, 1);
    lemma_volumes_are_sound::<X>(input, read_date);
    lemma_parts_add(input, read_date, r0, input.volume_resources(read_date), 1, 1, 1);
    lemma_public_ips_are_sound::<X>(input, read_date);
    lemma_widen(input, read_date, r1, 1, 1, 2);
    lemma_parts_add(input, read_date, r1, input.public_ip_resources(read_date), 1, 2, 2);
    lemma_snapshots_are_sound::<X>(input, read_date);
    lemma_widen(input, read_date, r2, 1, 2, 3);
    lemma_parts_add(input, read_date, r2, input.snapshot_resources(read_date), 1, 3, 3);
    lemma_nat_services_are_sound::<X>(input, read_date);
    lemma_widen(input, read_date, r3, 1, 3, 4);
    lemma_parts_add(input, read_date, r3, input.nat_service_resources(read_date), 1, 4, 4);
    lemma_others_are_sound(input, read_date, others.flexible_gpus@, 4);
    lemma_parts_add(input, read_date, r4, other_resources(others.flexible_gpus@), 1, 4, 4);
    lemma_others_are_sound(input, read_date, others.load_balancers@, 4);
    lemma_parts_add(input, read_date, r5, other_resources(others.load_balancers@), 1, 4, 4);
    lemma_others_are_sound(input, read_date, others.vpns@, 4);
    lemma_parts_add(input, read_date, r6, other_resources(others.vpns@), 1, 4, 4);
    lemma_others_are_sound(input, read_date, others.oos@, 4);
    lemma_parts_add(input, read_date, r7, other_resources(others.oos@), 1, 4, 4);
}

proof fn lemma_widen<X>(
    input: InputView,
    read_date: Option<Seq<char>>,
    part: Seq<ResourceView<X>>,
    low: int,
    high: int,
    higher: int,
)
    requires
        high <= higher,
        sound_part(input, read_date, part, low, high),
    ensures
        sound_part(input, read_date, part, low, higher),
{
}

/// Every resource of a listing carries the version of the program, the account,
/// the region, the date of reading and an identifier, and no total price. The
/// resources that are priced elsewhere are left to those who price them.
pub proof fn law_listed_resources_are_stamped<X>(
    input: InputView,
    read_date: Option<Seq<char>>,
    others: OtherResources<X>,
)
    ensures
        forall|i: int|
            0 <= i < input.resources(read_date, others).len() ==> stamped(
                input,
                read_date,
                #[trigger] input.resources(read_date, others)[i],
            ),
{
    lemma_listing_is_sound(input, read_date, others);
}

/// The volumes are listed before the public IPs, these before the snapshots, and
/// these before the NAT services.
pub proof fn law_kinds_are_listed_in_order<X>(
    input: InputView,
    read_date: Option<Seq<char>>,
    others: OtherResources<X>,
)
    ensures
        forall|i: int, j: int|
            0 <= i < j < input.resources(read_date, others).len() && kind_rank(
                #[trigger] input.resources(read_date, others)[i],
            ) is Some && kind_rank(#[trigger] input.resources(read_date, others)[j]) is Some
                ==> kind_rank(input.resources(read_date, others)[i])->0 <= kind_rank(
                input.resources(read_date, others)[j],
            )->0,
{
    lemma_listing_is_sound(input, read_date, others);
}

/// A listed public IP has exactly one price: that of an idle address, that of the
/// first address of a VM, which is zero, or that of a further one.
pub proof fn law_public_ip_has_one_price<X>(
    input: InputView,
    read_date: Option<Seq<char>>,
    others: OtherResources<X>,
)
    ensures
        forall|i: int|
            0 <= i < input.resources(read_date, others).len() ==> one_price(
                #[trigger] input.resources(read_date, others)[i],
            ),
{
    lemma_listing_is_sound(input, read_date, others);
}

/// A listed volume is charged for its IOPS only if it is of the type `io1`.
pub proof fn law_only_io1_is_charged_for_iops<X>(
    input: InputView,
    read_date: Option<Seq<char>>,
    others: OtherResources<X>,
)
    ensures
        forall|i: int|
            0 <= i < input.resources(read_date, others).len() ==> free_iops(
                #[trigger] input.resources(read_date, others)[i],
            ),
{
    lemma_listing_is_sound(input, read_date, others);
}

/// The address of a VM is free: a public IP that is attached to a VM and is its
/// address is listed at the price zero, whatever the catalog holds.
pub proof fn law_first_address_is_free(
    input: InputView,
    read_date: Option<Seq<char>>,
    id: Seq<char>,
    public_ip: model::PublicIp,
)
    requires
        public_ip.public_ip is Some,
        public_ip.vm_id is Some,
        lookup(input.vms, public_ip.vm_id->0@) is Some,
        contents(lookup(input.vms, public_ip.vm_id->0@)->0.public_ip) == contents(
            public_ip.public_ip,
        ),
    ensures
        input.public_ip_resource(read_date, id, public_ip) is Some,
        input.public_ip_resource(read_date, id, public_ip)->0.price_first_ip == Some(
            Price::spec_zero(),
        ),
{
}

/// All snapshots are listed, in order, if their price is known, and none of them
/// otherwise.
pub proof fn law_snapshots_are_listed_all_or_none<X>(
    input: InputView,
    read_date: Option<Seq<char>>,
)
    ensures
        input.snapshot_resources::<X>(read_date).len() == (if input.snapshot_price() is Some {
            input.snapshots.len()
        } else {
            0
        }),
        forall|i: int|
            0 <= i < input.snapshot_resources::<X>(read_date).len() ==> (
            #[trigger] input.snapshot_resources::<X>(read_date)[i] matches ResourceView::Snapshot(
                snapshot,
            ) && snapshot.resource_id == Some(input.snapshots[i].0) && snapshot.volume_size_gib
                == input.snapshots[i].1.volume_size && Some(snapshot.price_gb_per_month)
                == input.snapshot_price()),
{
}

/// Every volume whose type, size and prices are known is listed, and there are no
/// more listed volumes than volumes.
pub proof fn law_priced_volumes_are_listed<X>(input: InputView, read_date: Option<Seq<char>>)
    ensures
        input.volume_resources::<X>(read_date).len() <= input.volumes.len(),
        forall|i: int|
            0 <= i < input.volumes.len() && input.volume_specs(
                (#[trigger] input.volumes[i]).1,
            ) is Some ==> input.volume_resources::<X>(read_date).contains(
                ResourceView::Volume(
                    input.volume_resource(read_date, input.volumes[i].0, input.volumes[i].1)->0,
                ),
            ),
{
    let f = input.volume_row::<X>(read_date);
    lemma_no_more(input.volumes, f);
    assert forall|i: int|
        0 <= i < input.volumes.len() && input.volume_specs(
            (#[trigger] input.volumes[i]).1,
        ) is Some implies input.volume_resources::<X>(read_date).contains(
        ResourceView::Volume(
            input.volume_resource(read_date, input.volumes[i].0, input.volumes[i].1)->0,
        ),
    ) by {
        lemma_made(input.volumes, f, i);
    }
}

/// Every public IP of which it is known what it is charged by is listed, and there
/// are no more listed public IPs than public IPs.
pub proof fn law_charged_public_ips_are_listed<X>(input: InputView, read_date: Option<Seq<char>>)
    ensures
        input.public_ip_resources::<X>(read_date).len() <= input.public_ips.len(),
        forall|i: int|
            0 <= i < input.public_ips.len() && input.public_ip_charge(
                (#[trigger] input.public_ips[i]).1,
            ) is Some ==> input.public_ip_resources::<X>(read_date).contains(
                ResourceView::PublicIp(
                    input.public_ip_resource(
                        read_date,
                        input.public_ips[i].0,
                        input.public_ips[i].1,
                    )->0,
                ),
            ),
{
    let f = input.public_ip_row::<X>(read_date);
    lemma_no_more(input.public_ips, f);
    assert forall|i: int|
        0 <= i < input.public_ips.len() && input.public_ip_charge(
            (#[trigger] input.public_ips[i]).1,
        ) is Some implies input.public_ip_resources::<X>(read_date).contains(
        ResourceView::PublicIp(
            input.public_ip_resource(read_date, input.public_ips[i].0, input.public_ips[i].1)->0,
        ),
    ) by {
        lemma_made(input.public_ips, f, i);
    }
}

/// Every NAT service with an identifier is listed, priced or not, and there are no
/// more listed NAT services than NAT services.
pub proof fn law_identified_nat_services_are_listed<X>(
    input: InputView,
    read_date: Option<Seq<char>>,
)
    ensures
        input.nat_service_resources::<X>(read_date).len() <= input.nat_services.len(),
        forall|i: int|
            0 <= i < input.nat_services.len() && (
            #[trigger] input.nat_services[i]).1.nat_service_id is Some
                ==> input.nat_service_resources::<X>(read_date).contains(
                ResourceView::NatServices(
                    input.nat_service_resource(read_date, input.nat_services[i].1)->0,
                ),
            ),
{
    let f = input.nat_service_row::<X>(read_date);
    lemma_no_more(input.nat_services, f);
    assert forall|i: int|
        0 <= i < input.nat_services.len() && (
        #[trigger] input.nat_services[i]).1.nat_service_id is Some implies input
        .nat_service_resources::<X>(read_date).contains(
        ResourceView::NatServices(
            input.nat_service_resource(read_date, input.nat_services[i].1)->0,
        ),
    ) by {
        lemma_made(input.nat_services, f, i);
    }
}

/// The identifier that a resource is listed under.
pub open spec fn listed_id<X>(listed: ResourceView<X>) -> Option<Seq<char>> {
    match listed {
        ResourceView::Volume(volume) => volume.resource_id,
        ResourceView::NatServices(nat_service) => nat_service.resource_id,
        ResourceView::PublicIp(public_ip) => public_ip.resource_id,
        ResourceView::Snapshot(snapshot) => snapshot.resource_id,
        ResourceView::Other(_) => None,
    }
}

/// No identifier is listed twice.
pub open spec fn distinct_ids<X>(listed: Seq<ResourceView<X>>) -> bool {
    forall|i: int, j: int|
        0 <= i < j < listed.len() ==> listed_id(#[trigger] listed[i]) != listed_id(
            #[trigger] listed[j],
        )
}

/// No volume, public IP, snapshot or NAT service is listed twice.
pub proof fn law_nothing_is_listed_twice<X>(input: InputView, read_date: Option<Seq<char>>)
    requires
        distinct_keys(input.volumes),
        distinct_keys(input.public_ips),
        distinct_keys(input.snapshots),
        distinct_keys(input.nat_services),
        keyed(input.nat_services),
    ensures
        distinct_ids(input.volume_resources::<X>(read_date)),
        distinct_ids(input.public_ip_resources::<X>(read_date)),
        distinct_ids(input.snapshot_resources::<X>(read_date)),
        distinct_ids(input.nat_service_resources::<X>(read_date)),
{
    let volumes = input.volume_resources::<X>(read_date);
    let f = input.volume_row::<X>(read_date);
    assert forall|i: int, j: int| 0 <= i < j < volumes.len() implies listed_id(
        #[trigger] volumes[i],
    ) != listed_id(#[trigger] volumes[j]) by {
        let (k, l) = lemma_sources(input.volumes, f, i, j);
        assert(input.volumes[k].0 != input.volumes[l].0);
    }
    let public_ips = input.public_ip_resources::<X>(read_date);
    let g = input.public_ip_row::<X>(read_date);
    assert forall|i: int, j: int| 0 <= i < j < public_ips.len() implies listed_id(
        #[trigger] public_ips[i],
    ) != listed_id(#[trigger] public_ips[j]) by {
        let (k, l) = lemma_sources(input.public_ips, g, i, j);
        assert(input.public_ips[k].0 != input.public_ips[l].0);
    }
    let snapshots = input.snapshot_resources::<X>(read_date);
    assert forall|i: int, j: int| 0 <= i < j < snapshots.len() implies listed_id(
        #[trigger] snapshots[i],
    ) != listed_id(#[trigger] snapshots[j]) by {
        assert(input.snapshots[i].0 != input.snapshots[j].0);
    }
    let nat_services = input.nat_service_resources::<X>(read_date);
    let h = input.nat_service_row::<X>(read_date);
    assert forall|i: int, j: int| 0 <= i < j < nat_services.len() implies listed_id(
        #[trigger] nat_services[i],
    ) != listed_id(#[trigger] nat_services[j]) by {
        let (k, l) = lemma_sources(input.nat_services, h, i, j);
        assert(input.nat_services[k].0 != input.nat_services[l].0);
        assert(input.nat_services[k].1.spec_key() == Some(input.nat_services[k].0));
        assert(input.nat_services[l].1.spec_key() == Some(input.nat_services[l].0));
    }
}

/// A volume that was read is listed, at the prices of the catalog, if its type, its
/// size and these prices are known.
pub proof fn law_read_volume_is_listed<X>(
    input: InputView,
    answer: Vec<model::Volume>,
    at: int,
    read_date: Option<Seq<char>>,
)
    requires
        distinct_keys(input.volumes),
        0 <= at < answer@.len(),
        last_of_its_key(answer@, at),
        input.volume_specs(answer@[at]) is Some,
    ensures
        input.with_volumes(Some(answer)).volume_resources::<X>(read_date).contains(
            ResourceView::Volume(
                input.volume_resource(read_date, answer@[at].spec_key()->0, answer@[at])->0,
            ),
        ),
{
    let after = input.with_volumes(Some(answer));
    let row = law_read_items_are_kept(input.volumes, answer@, at);
    assert(after.volumes[row].1 == answer@[at]);
    law_priced_volumes_are_listed::<X>(after, read_date);
    assert(after.volume_specs(after.volumes[row].1) is Some);
}

/// A public IP that was read is listed if it has an identifier and it is known what
/// it is charged by.
pub proof fn law_read_public_ip_is_listed<X>(
    input: InputView,
    answer: Vec<model::PublicIp>,
    at: int,
    read_date: Option<Seq<char>>,
)
    requires
        distinct_keys(input.public_ips),
        0 <= at < answer@.len(),
        answer@[at].public_ip_id is Some,
        last_of_its_key(answer@, at),
        input.public_ip_charge(answer@[at]) is Some,
    ensures
        input.with_public_ips(Some(answer)).public_ip_resources::<X>(read_date).contains(
            ResourceView::PublicIp(
                input.public_ip_resource(read_date, answer@[at].spec_key()->0, answer@[at])->0,
            ),
        ),
{
    let after = input.with_public_ips(Some(answer));
    let row = law_read_items_are_kept(input.public_ips, answer@, at);
    assert(after.public_ips[row].1 == answer@[at]);
    law_charged_public_ips_are_listed::<X>(after, read_date);
    assert(after.public_ip_charge(after.public_ips[row].1) is Some);
}

/// A NAT service that was read is listed if it has an identifier.
pub proof fn law_read_nat_service_is_listed<X>(
    input: InputView,
    answer: Vec<model::NatService>,
    at: int,
    read_date: Option<Seq<char>>,
)
    requires
        distinct_keys(input.nat_services),
        0 <= at < answer@.len(),
        last_of_its_key(answer@, at),
        answer@[at].nat_service_id is Some,
    ensures
        input.with_nat_services(Some(answer)).nat_service_resources::<X>(read_date).contains(
            ResourceView::NatServices(input.nat_service_resource(read_date, answer@[at])->0),
        ),
{
    let after = input.with_nat_services(Some(answer));
    let row = law_read_items_are_kept(input.nat_services, answer@, at);
    assert(after.nat_services[row].1 == answer@[at]);
    law_identified_nat_services_are_listed::<X>(after, read_date);
    assert(after.nat_services[row].1.nat_service_id is Some);
}

/// A snapshot that was read is listed, at the price of the catalog, if that price is
/// known.
pub proof fn law_read_snapshot_is_listed<X>(
    input: InputView,
    answer: Vec<model::Snapshot>,
    at: int,
    read_date: Option<Seq<char>>,
)
    requires
        distinct_keys(input.snapshots),
        0 <= at < answer@.len(),
        last_of_its_key(answer@, at),
        input.snapshot_price() is Some,
    ensures
        input.with_snapshots(Some(answer)).snapshot_resources::<X>(read_date).contains(
            ResourceView::Snapshot(
                input.snapshot_resource(
                    read_date,
                    input.snapshot_price()->0,
                    answer@[at].spec_key()->0,
                    answer@[at],
                ),
            ),
        ),
{
    let after = input.with_snapshots(Some(answer));
    let row = law_read_items_are_kept(input.snapshots, answer@, at);
    assert(after.snapshots[row].1 == answer@[at]);
    let listed = after.snapshot_resources::<X>(read_date);
    assert(listed[row] == ResourceView::<X>::Snapshot(
        input.snapshot_resource(
            read_date,
            input.snapshot_price()->0,
            answer@[at].spec_key()->0,
            answer@[at],
        ),
    ));
}

} // verus!
