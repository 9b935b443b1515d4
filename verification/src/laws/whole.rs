//! The whole listing: every row of the inventory is in it, once and as itself, and
//! nothing else is.
use vstd::prelude::*;

use super::listing::{lemma_made, lemma_source, lemma_sources};
use super::prices::{
    is_that_nat_service, is_that_public_ip, is_that_snapshot, is_that_volume,
    law_nat_service_costs_the_quoted_price, law_one_price_is_quoted,
    law_public_ip_costs_what_its_attachment_costs, law_snapshot_costs_the_quoted_price,
    law_volume_costs_what_its_type_costs, public_ip_can_be_listed, volume_can_be_listed,
};
use super::terms::{goes_by, quoted, told_apart};
use crate::oapi::fill::OtherResources;
use crate::oapi::InputView;
use crate::resource::ResourceView;

verus! {

/// A stretch of `listing` from `at` on is `part`.
pub open spec fn holds_at<T>(listing: Seq<T>, at: int, part: Seq<T>) -> bool {
    &&& 0 <= at <= at + part.len() <= listing.len()
    &&& forall|i: int| 0 <= i < part.len() ==> #[trigger] part[i] == listing[at + i]
}

/// A stretch of `listing` from `at` on is made of `others`, which are priced
/// elsewhere.
pub open spec fn holds_others<X>(
    listing: Seq<ResourceView<X>>,
    at: int,
    others: Seq<X>,
) -> bool {
    &&& 0 <= at <= at + others.len() <= listing.len()
    &&& forall|i: int|
        0 <= i < others.len() ==> listing[at + i] == ResourceView::Other(#[trigger] others[i])
}

/// A listing is made of nine parts, each of them whole, and of nothing else: the VMs,
/// the volumes, the public IPs, the snapshots, the NAT services, the flexible GPUs,
/// the load balancers, the VPNs and the buckets.
pub proof fn law_listing_is_made_of_nine_whole_parts<X>(
    input: InputView,
    read_date: Option<Seq<char>>,
    others: OtherResources<X>,
)
    ensures
        ({
            let listing = input.resources(read_date, others);
            let volumes = input.volume_resources::<X>(read_date);
            let public_ips = input.public_ip_resources::<X>(read_date);
            let snapshots = input.snapshot_resources::<X>(read_date);
            let nat_services = input.nat_service_resources::<X>(read_date);
            let a = others.vms@.len() as int;
            let b = a + volumes.len();
            let c = b + public_ips.len();
            let d = c + snapshots.len();
            let e = d + nat_services.len();
            let f = e + others.flexible_gpus@.len();
            let g = f + others.load_balancers@.len();
            let h = g + others.vpns@.len();
            &&& holds_others(listing, 0, others.vms@)
            &&& holds_at(listing, a, volumes)
            &&& holds_at(listing, b, public_ips)
            &&& holds_at(listing, c, snapshots)
            &&& holds_at(listing, d, nat_services)
            &&& holds_others(listing, e, others.flexible_gpus@)
            &&& holds_others(listing, f, others.load_balancers@)
            &&& holds_others(listing, g, others.vpns@)
            &&& holds_others(listing, h, others.oos@)
            &&& listing.len() == h + others.oos@.len()
        }),
{
}

proof fn lemma_held<T>(listing: Seq<T>, at: int, part: Seq<T>, i: int)
    requires
        holds_at(listing, at, part),
        0 <= i < part.len(),
    ensures
        listing.contains(part[i]),
{
    assert(listing[at + i] == part[i]);
}

/// Every volume whose type and size are known and whose prices are quoted is listed,
/// as itself: by itself, and in the whole listing.
pub proof fn law_every_volume_is_listed<X>(
    input: InputView,
    read_date: Option<Seq<char>>,
    others: OtherResources<X>,
    row: int,
) -> (at: int)
    requires
        told_apart(input.catalog),
        0 <= row < input.volumes.len(),
        volume_can_be_listed(input, input.volumes[row].1),
    ensures
        0 <= at < input.volume_resources::<X>(read_date).len(),
        input.volume_resources::<X>(read_date)[at] matches ResourceView::Volume(listed)
            && is_that_volume(
            listed,
            input,
            read_date,
            input.volumes[row].0,
            input.volumes[row].1,
        ),
        input.resources(read_date, others).contains(input.volume_resources::<X>(read_date)[at]),
{
    let part = input.volume_resources::<X>(read_date);
    let f = input.volume_row::<X>(read_date);
    law_volume_costs_what_its_type_costs(
        input,
        read_date,
        input.volumes[row].0,
        input.volumes[row].1,
    );
    lemma_made(input.volumes, f, row);
    let made = f(input.volumes[row])->0;
    let at = choose|at: int| 0 <= at < part.len() && part[at] == made;
    law_listing_is_made_of_nine_whole_parts(input, read_date, others);
    let from = others.vms@.len() as int;
    lemma_held(input.resources(read_date, others), from, part, at);
    at
}

/// What the volumes are listed as is, each time, one of them, as itself.
pub proof fn law_listed_volumes_are_in_the_inventory<X>(
    input: InputView,
    read_date: Option<Seq<char>>,
    at: int,
) -> (row: int)
    requires
        told_apart(input.catalog),
        0 <= at < input.volume_resources::<X>(read_date).len(),
    ensures
        0 <= row < input.volumes.len(),
        volume_can_be_listed(input, input.volumes[row].1),
        input.volume_resources::<X>(read_date)[at] matches ResourceView::Volume(listed)
            && is_that_volume(
            listed,
            input,
            read_date,
            input.volumes[row].0,
            input.volumes[row].1,
        ),
{
    let row = lemma_source(input.volumes, input.volume_row::<X>(read_date), at);
    law_volume_costs_what_its_type_costs(
        input,
        read_date,
        input.volumes[row].0,
        input.volumes[row].1,
    );
    row
}

/// Every public IP of which it is known what it costs is listed, as itself: by
/// itself, and in the whole listing.
pub proof fn law_every_public_ip_is_listed<X>(
    input: InputView,
    read_date: Option<Seq<char>>,
    others: OtherResources<X>,
    row: int,
) -> (at: int)
    requires
        told_apart(input.catalog),
        told_apart(input.vms),
        0 <= row < input.public_ips.len(),
        public_ip_can_be_listed(input, input.public_ips[row].1),
    ensures
        0 <= at < input.public_ip_resources::<X>(read_date).len(),
        input.public_ip_resources::<X>(read_date)[at] matches ResourceView::PublicIp(listed)
            && is_that_public_ip(
            listed,
            input,
            read_date,
            input.public_ips[row].0,
            input.public_ips[row].1,
        ),
        input.resources(read_date, others).contains(input.public_ip_resources::<X>(read_date)[at]),
{
    let part = input.public_ip_resources::<X>(read_date);
    let f = input.public_ip_row::<X>(read_date);
    law_public_ip_costs_what_its_attachment_costs(
        input,
        read_date,
        input.public_ips[row].0,
        input.public_ips[row].1,
    );
    lemma_made(input.public_ips, f, row);
    let made = f(input.public_ips[row])->0;
    let at = choose|at: int| 0 <= at < part.len() && part[at] == made;
    law_listing_is_made_of_nine_whole_parts(input, read_date, others);
    let from = others.vms@.len() + input.volume_resources::<X>(read_date).len();
    lemma_held(input.resources(read_date, others), from as int, part, at);
    at
}

/// What the public IPs are listed as is, each time, one of them, as itself.
pub proof fn law_listed_public_ips_are_in_the_inventory<X>(
    input: InputView,
    read_date: Option<Seq<char>>,
    at: int,
) -> (row: int)
    requires
        told_apart(input.catalog),
        told_apart(input.vms),
        0 <= at < input.public_ip_resources::<X>(read_date).len(),
    ensures
        0 <= row < input.public_ips.len(),
        public_ip_can_be_listed(input, input.public_ips[row].1),
        input.public_ip_resources::<X>(read_date)[at] matches ResourceView::PublicIp(listed)
            && is_that_public_ip(
            listed,
            input,
            read_date,
            input.public_ips[row].0,
            input.public_ips[row].1,
        ),
{
    let row = lemma_source(input.public_ips, input.public_ip_row::<X>(read_date), at);
    law_public_ip_costs_what_its_attachment_costs(
        input,
        read_date,
        input.public_ips[row].0,
        input.public_ips[row].1,
    );
    row
}

/// Every NAT service with an identifier is listed, as itself: by itself, and in the
/// whole listing.
pub proof fn law_every_nat_service_is_listed<X>(
    input: InputView,
    read_date: Option<Seq<char>>,
    others: OtherResources<X>,
    row: int,
) -> (at: int)
    requires
        told_apart(input.catalog),
        0 <= row < input.nat_services.len(),
        input.nat_services[row].1.nat_service_id is Some,
    ensures
        0 <= at < input.nat_service_resources::<X>(read_date).len(),
        input.nat_service_resources::<X>(read_date)[at] matches ResourceView::NatServices(listed)
            && is_that_nat_service(listed, input, read_date, input.nat_services[row].1),
        input.resources(read_date, others).contains(
            input.nat_service_resources::<X>(read_date)[at],
        ),
{
    let part = input.nat_service_resources::<X>(read_date);
    let f = input.nat_service_row::<X>(read_date);
    law_nat_service_costs_the_quoted_price(input, read_date, input.nat_services[row].1);
    lemma_made(input.nat_services, f, row);
    let made = f(input.nat_services[row])->0;
    let at = choose|at: int| 0 <= at < part.len() && part[at] == made;
    law_listing_is_made_of_nine_whole_parts(input, read_date, others);
    let from = others.vms@.len() + input.volume_resources::<X>(read_date).len()
        + input.public_ip_resources::<X>(read_date).len()
        + input.snapshot_resources::<X>(read_date).len();
    lemma_held(input.resources(read_date, others), from as int, part, at);
    at
}

/// What the NAT services are listed as is, each time, one of them, as itself.
pub proof fn law_listed_nat_services_are_in_the_inventory<X>(
    input: InputView,
    read_date: Option<Seq<char>>,
    at: int,
) -> (row: int)
    requires
        told_apart(input.catalog),
        0 <= at < input.nat_service_resources::<X>(read_date).len(),
    ensures
        0 <= row < input.nat_services.len(),
        input.nat_services[row].1.nat_service_id is Some,
        input.nat_service_resources::<X>(read_date)[at] matches ResourceView::NatServices(listed)
            && is_that_nat_service(listed, input, read_date, input.nat_services[row].1),
{
    let row = lemma_source(input.nat_services, input.nat_service_row::<X>(read_date), at);
    law_nat_service_costs_the_quoted_price(input, read_date, input.nat_services[row].1);
    row
}

/// Every snapshot is listed, as itself, where a price is quoted for snapshots, and none
/// is where none is: by themselves, and in the whole listing.
pub proof fn law_every_snapshot_is_listed<X>(
    input: InputView,
    read_date: Option<Seq<char>>,
    others: OtherResources<X>,
)
    requires
        told_apart(input.catalog),
    ensures
        ({
            let part = input.snapshot_resources::<X>(read_date);
            if quoted(input.catalog, "TinaOS-FCU"@, "Snapshot:Usage"@, "Snapshot"@) {
                &&& part.len() == input.snapshots.len()
                &&& forall|i: int|
                    0 <= i < part.len() ==> {
                        &&& #[trigger] part[i] matches ResourceView::Snapshot(listed)
                        &&& is_that_snapshot(
                            listed,
                            input,
                            read_date,
                            input.snapshots[i].0,
                            input.snapshots[i].1,
                        )
                        &&& input.resources(read_date, others).contains(part[i])
                    }
            } else {
                part.len() == 0
            }
        }),
{
    let part = input.snapshot_resources::<X>(read_date);
    law_one_price_is_quoted(
        input,
        "TinaOS-FCU"@,
        "Snapshot:Usage"@,
        "Snapshot"@,
        None,
        None,
    );
    law_listing_is_made_of_nine_whole_parts(input, read_date, others);
    let from = others.vms@.len() + input.volume_resources::<X>(read_date).len()
        + input.public_ip_resources::<X>(read_date).len();
    assert forall|i: int| 0 <= i < part.len() implies {
        &&& #[trigger] part[i] matches ResourceView::Snapshot(listed)
        &&& is_that_snapshot(
            listed,
            input,
            read_date,
            input.snapshots[i].0,
            input.snapshots[i].1,
        )
        &&& input.resources(read_date, others).contains(part[i])
    } by {
        law_snapshot_costs_the_quoted_price(
            input,
            read_date,
            input.snapshots[i].0,
            input.snapshots[i].1,
            input.price("TinaOS-FCU"@, "Snapshot:Usage"@, "Snapshot"@),
        );
        lemma_held(input.resources(read_date, others), from as int, part, i);
    }
}

/// Whatever a listing holds is a row of the inventory, as itself, or one of the
/// resources that are priced elsewhere.
pub proof fn law_listing_holds_nothing_else<X>(
    input: InputView,
    read_date: Option<Seq<char>>,
    others: OtherResources<X>,
    at: int,
) -> (row: int)
    requires
        told_apart(input.catalog),
        told_apart(input.vms),
        0 <= at < input.resources(read_date, others).len(),
    ensures
        match input.resources(read_date, others)[at] {
            ResourceView::Volume(listed) => 0 <= row < input.volumes.len() && is_that_volume(
                listed,
                input,
                read_date,
                input.volumes[row].0,
                input.volumes[row].1,
            ),
            ResourceView::PublicIp(listed) => 0 <= row < input.public_ips.len()
                && is_that_public_ip(
                listed,
                input,
                read_date,
                input.public_ips[row].0,
                input.public_ips[row].1,
            ),
            ResourceView::Snapshot(listed) => 0 <= row < input.snapshots.len()
                && is_that_snapshot(
                listed,
                input,
                read_date,
                input.snapshots[row].0,
                input.snapshots[row].1,
            ),
            ResourceView::NatServices(listed) => 0 <= row < input.nat_services.len()
                && is_that_nat_service(listed, input, read_date, input.nat_services[row].1),
            ResourceView::Other(other) => others.vms@.contains(other)
                || others.flexible_gpus@.contains(other) || others.load_balancers@.contains(other)
                || others.vpns@.contains(other) || others.oos@.contains(other),
        },
{
    let listing = input.resources(read_date, others);
    let volumes = input.volume_resources::<X>(read_date);
    let public_ips = input.public_ip_resources::<X>(read_date);
    let snapshots = input.snapshot_resources::<X>(read_date);
    let nat_services = input.nat_service_resources::<X>(read_date);
    law_listing_is_made_of_nine_whole_parts(input, read_date, others);
    let a = others.vms@.len() as int;
    let b = a + volumes.len();
    let c = b + public_ips.len();
    let d = c + snapshots.len();
    let e = d + nat_services.len();
    let f = e + others.flexible_gpus@.len();
    let g = f + others.load_balancers@.len();
    let h = g + others.vpns@.len();
    if at < a {
        assert(listing[0 + at] == ResourceView::Other(others.vms@[at]));
        0
    } else if at < b {
        assert(volumes[at - a] == listing[at]);
        law_listed_volumes_are_in_the_inventory::<X>(input, read_date, at - a)
    } else if at < c {
        assert(public_ips[at - b] == listing[at]);
        law_listed_public_ips_are_in_the_inventory::<X>(input, read_date, at - b)
    } else if at < d {
        assert(snapshots[at - c] == listing[at]);
        law_every_snapshot_is_listed(input, read_date, others);
        at - c
    } else if at < e {
        assert(nat_services[at - d] == listing[at]);
        law_listed_nat_services_are_in_the_inventory::<X>(input, read_date, at - d)
    } else if at < f {
        assert(listing[e + (at - e)] == ResourceView::Other(others.flexible_gpus@[at - e]));
        0
    } else if at < g {
        assert(listing[f + (at - f)] == ResourceView::Other(others.load_balancers@[at - f]));
        0
    } else if at < h {
        assert(listing[g + (at - g)] == ResourceView::Other(others.vpns@[at - g]));
        0
    } else {
        assert(listing[h + (at - h)] == ResourceView::Other(others.oos@[at - h]));
        0
    }
}

/// Two resources of a listing are of one kind and have one identifier.
pub open spec fn same_resource<X>(one: ResourceView<X>, other: ResourceView<X>) -> bool {
    match (one, other) {
        (ResourceView::Volume(one), ResourceView::Volume(other)) => one.resource_id
            == other.resource_id,
        (ResourceView::PublicIp(one), ResourceView::PublicIp(other)) => one.resource_id
            == other.resource_id,
        (ResourceView::Snapshot(one), ResourceView::Snapshot(other)) => one.resource_id
            == other.resource_id,
        (ResourceView::NatServices(one), ResourceView::NatServices(other)) => one.resource_id
            == other.resource_id,
        _ => false,
    }
}

/// No resource comes twice in a listing.
pub proof fn law_no_resource_comes_twice<X>(
    input: InputView,
    read_date: Option<Seq<char>>,
    others: OtherResources<X>,
    at: int,
    later: int,
)
    requires
        told_apart(input.catalog),
        told_apart(input.vms),
        told_apart(input.volumes),
        told_apart(input.public_ips),
        told_apart(input.snapshots),
        told_apart(input.nat_services),
        forall|i: int|
            0 <= i < input.nat_services.len() ==> goes_by(
                (#[trigger] input.nat_services[i]).1.nat_service_id,
                input.nat_services[i].0,
            ),
        0 <= at < later < input.resources(read_date, others).len(),
    ensures
        !same_resource(
            input.resources(read_date, others)[at],
            input.resources(read_date, others)[later],
        ),
{
    let listing = input.resources(read_date, others);
    let volumes = input.volume_resources::<X>(read_date);
    let public_ips = input.public_ip_resources::<X>(read_date);
    let snapshots = input.snapshot_resources::<X>(read_date);
    let nat_services = input.nat_service_resources::<X>(read_date);
    law_listing_is_made_of_nine_whole_parts(input, read_date, others);
    let a = others.vms@.len() as int;
    let b = a + volumes.len();
    let c = b + public_ips.len();
    let d = c + snapshots.len();
    let e = d + nat_services.len();
    lemma_kind_has_its_place(input, read_date, others, at);
    lemma_kind_has_its_place(input, read_date, others, later);
    if a <= at && later < b {
        assert(volumes[at - a] == listing[at] && volumes[later - a] == listing[later]);
        let (i, j) = lemma_sources(
            input.volumes,
            input.volume_row::<X>(read_date),
            at - a,
            later - a,
        );
        law_volume_costs_what_its_type_costs(
            input,
            read_date,
            input.volumes[i].0,
            input.volumes[i].1,
        );
        law_volume_costs_what_its_type_costs(
            input,
            read_date,
            input.volumes[j].0,
            input.volumes[j].1,
        );
    } else if b <= at && later < c {
        assert(public_ips[at - b] == listing[at] && public_ips[later - b] == listing[later]);
        let (i, j) = lemma_sources(
            input.public_ips,
            input.public_ip_row::<X>(read_date),
            at - b,
            later - b,
        );
        law_public_ip_costs_what_its_attachment_costs(
            input,
            read_date,
            input.public_ips[i].0,
            input.public_ips[i].1,
        );
        law_public_ip_costs_what_its_attachment_costs(
            input,
            read_date,
            input.public_ips[j].0,
            input.public_ips[j].1,
        );
    } else if c <= at && later < d {
        assert(snapshots[at - c] == listing[at] && snapshots[later - c] == listing[later]);
        law_every_snapshot_is_listed(input, read_date, others);
        assert(input.snapshots[at - c].0 != input.snapshots[later - c].0);
    } else if d <= at && later < e {
        assert(nat_services[at - d] == listing[at] && nat_services[later - d] == listing[later]);
        let (i, j) = lemma_sources(
            input.nat_services,
            input.nat_service_row::<X>(read_date),
            at - d,
            later - d,
        );
        law_nat_service_costs_the_quoted_price(input, read_date, input.nat_services[i].1);
        law_nat_service_costs_the_quoted_price(input, read_date, input.nat_services[j].1);
        assert(input.nat_services[i].0 != input.nat_services[j].0);
    }
}

/// Each kind stands in its own part of a listing.
proof fn lemma_kind_has_its_place<X>(
    input: InputView,
    read_date: Option<Seq<char>>,
    others: OtherResources<X>,
    at: int,
)
    requires
        told_apart(input.catalog),
        told_apart(input.vms),
        0 <= at < input.resources(read_date, others).len(),
    ensures
        ({
            let a = others.vms@.len() as int;
            let b = a + input.volume_resources::<X>(read_date).len();
            let c = b + input.public_ip_resources::<X>(read_date).len();
            let d = c + input.snapshot_resources::<X>(read_date).len();
            let e = d + input.nat_service_resources::<X>(read_date).len();
            match input.resources(read_date, others)[at] {
                ResourceView::Volume(_) => a <= at < b,
                ResourceView::PublicIp(_) => b <= at < c,
                ResourceView::Snapshot(_) => c <= at < d,
                ResourceView::NatServices(_) => d <= at < e,
                ResourceView::Other(_) => at < a || e <= at,
            }
        }),
{
    let listing = input.resources(read_date, others);
    let volumes = input.volume_resources::<X>(read_date);
    let public_ips = input.public_ip_resources::<X>(read_date);
    let snapshots = input.snapshot_resources::<X>(read_date);
    let nat_services = input.nat_service_resources::<X>(read_date);
    law_listing_is_made_of_nine_whole_parts(input, read_date, others);
    let a = others.vms@.len() as int;
    let b = a + volumes.len();
    let c = b + public_ips.len();
    let d = c + snapshots.len();
    let e = d + nat_services.len();
    let f = e + others.flexible_gpus@.len();
    let g = f + others.load_balancers@.len();
    let h = g + others.vpns@.len();
    if at < a {
        assert(listing[0 + at] == ResourceView::Other(others.vms@[at]));
    } else if at < b {
        assert(volumes[at - a] == listing[at]);
        let row = law_listed_volumes_are_in_the_inventory::<X>(input, read_date, at - a);
    } else if at < c {
        assert(public_ips[at - b] == listing[at]);
        let row = law_listed_public_ips_are_in_the_inventory::<X>(input, read_date, at - b);
    } else if at < d {
        assert(snapshots[at - c] == listing[at]);
        law_every_snapshot_is_listed(input, read_date, others);
    } else if at < e {
        assert(nat_services[at - d] == listing[at]);
        let row = law_listed_nat_services_are_in_the_inventory::<X>(input, read_date, at - d);
    } else if at < f {
        assert(listing[e + (at - e)] == ResourceView::Other(others.flexible_gpus@[at - e]));
    } else if at < g {
        assert(listing[f + (at - f)] == ResourceView::Other(others.load_balancers@[at - f]));
    } else if at < h {
        assert(listing[g + (at - g)] == ResourceView::Other(others.vpns@[at - g]));
    } else {
        assert(listing[h + (at - h)] == ResourceView::Other(others.oos@[at - h]));
    }
}

} // verus!
