//! What is read: under which key each thing of an answer is kept, what of it is found
//! in the listing, and what an answer leaves as it was.
use vstd::prelude::*;

use super::prices::{
    attached_at, is_that_nat_service, is_that_public_ip, is_that_snapshot, is_that_volume,
    is_the_address, public_ip_can_be_listed, volume_can_be_listed,
};
use super::tables::{
    law_answers_keep_the_table_in_order, law_distinct_keys_tell_rows_apart, law_key_finds_its_row,
    law_last_item_stays,
};
use super::terms::{about, goes_by, holds, named, quoted, quotes, text, told_apart};
use super::whole::{
    law_every_nat_service_is_listed, law_every_public_ip_is_listed, law_every_snapshot_is_listed,
    law_every_volume_is_listed,
};
use crate::model::{
    entry_id, Account, Catalog, CatalogEntry, NatService, Price, PublicIp, Snapshot, Subregion,
    Volume,
};
use crate::oapi::fill::OtherResources;
use crate::oapi::InputView;
use crate::resource::ResourceView;
use crate::table::{put_all, Identified, Rows};

verus! {

/// A catalog entry goes by the name of the operation that it is about. One that lacks
/// its service, its type or its operation goes by no name.
pub open spec fn goes_by_name(entry: CatalogEntry, key: Seq<char>) -> bool {
    &&& entry.service is Some
    &&& entry._type is Some
    &&& entry.operation is Some
    &&& named(entry.service->0@, entry._type->0@, entry.operation->0@) == key
}

/// A volume is stored under its own identifier, whole, or under the empty text where it
/// has none.
pub proof fn law_volume_key_is_its_identifier(volume: Volume, key: Seq<char>)
    ensures
        volume.spec_key() == Some(key) <==> goes_by(volume.volume_id, key),
        volume.spec_key() is Some,
{
    assert(key.len() == 0 ==> key =~= Seq::empty());
}

/// A NAT service is stored under its own identifier, whole, or under the empty text where it
/// has none.
pub proof fn law_nat_service_key_is_its_identifier(nat_service: NatService, key: Seq<char>)
    ensures
        nat_service.spec_key() == Some(key) <==> goes_by(nat_service.nat_service_id, key),
        nat_service.spec_key() is Some,
{
    assert(key.len() == 0 ==> key =~= Seq::empty());
}

/// A snapshot is stored under its own identifier, whole, or under the empty text where it
/// has none.
pub proof fn law_snapshot_key_is_its_identifier(snapshot: Snapshot, key: Seq<char>)
    ensures
        snapshot.spec_key() == Some(key) <==> goes_by(snapshot.snapshot_id, key),
        snapshot.spec_key() is Some,
{
    assert(key.len() == 0 ==> key =~= Seq::empty());
}

/// A public IP is stored under its own identifier, whole, or not at all where it has none.
pub proof fn law_public_ip_key_is_its_identifier(public_ip: PublicIp, key: Seq<char>)
    ensures
        public_ip.spec_key() == Some(key) <==> text(public_ip.public_ip_id) == Some(key),
        public_ip.spec_key() is None <==> public_ip.public_ip_id is None,
{
}

/// A catalog entry is stored under the name of the operation that it is about, or not at
/// all where it lacks a part of that name.
pub proof fn law_entry_key_is_its_name(entry: CatalogEntry, key: Seq<char>)
    ensures
        entry.spec_key() == Some(key) <==> goes_by_name(entry, key),
        entry.spec_key() is None <==> entry.service is None || entry._type is None
            || entry.operation is None,
{
    match (entry._type, entry.service, entry.operation) {
        (Some(type_), Some(service), Some(operation)) => {
            assert(entry_id(service@, type_@, operation@) == named(
                service@,
                type_@,
                operation@,
            ));
        },
        _ => {},
    }
}

/// After an answer, the key of one of its items finds the last one that has it, and a
/// key that none of them has finds what it found before.
proof fn lemma_kept<V: Identified>(rows: Rows<V>, items: Seq<V>, key: Seq<char>, at: int, value: V)
    requires
        told_apart(rows),
    ensures
        told_apart(put_all(rows, items)),
        0 <= at < items.len() && items[at].spec_key() == Some(key) && (forall|j: int|
            at < j < items.len() ==> (#[trigger] items[j]).spec_key() != Some(key)) ==> holds(
            put_all(rows, items),
            key,
            items[at],
        ),
        (forall|j: int| 0 <= j < items.len() ==> (#[trigger] items[j]).spec_key() != Some(key))
            ==> (holds(put_all(rows, items), key, value) <==> holds(rows, key, value)),
{
    let after = put_all(rows, items);
    law_distinct_keys_tell_rows_apart(rows);
    law_distinct_keys_tell_rows_apart(after);
    law_answers_keep_the_table_in_order(rows, items);
    law_last_item_stays(rows, items, key);
    law_key_finds_its_row(rows, key, value);
    law_key_finds_its_row(after, key, value);
    if 0 <= at < items.len() && items[at].spec_key() == Some(key) && (forall|j: int|
        at < j < items.len() ==> (#[trigger] items[j]).spec_key() != Some(key)) {
        assert forall|j: int| at < j < items.len() implies #[trigger] items[j].spec_key() != Some(
            key,
        ) by {
            let item = items[j];
        }
        law_key_finds_its_row(after, key, items[at]);
    }
    if forall|j: int| 0 <= j < items.len() ==> (#[trigger] items[j]).spec_key() != Some(key) {
        assert forall|j: int| 0 <= j < items.len() implies #[trigger] items[j].spec_key() != Some(
            key,
        ) by {
            let item = items[j];
        }
    }
}

/// Volumes that were read are kept under their own identifiers, the last one of those
/// that share one. What goes by another identifier, and the rest of the inventory, stay
/// as they were.
pub proof fn law_volumes_are_kept_under_their_identifiers(
    input: InputView,
    answer: Vec<Volume>,
    key: Seq<char>,
    at: int,
    value: Volume,
)
    requires
        told_apart(input.volumes),
    ensures
        told_apart(input.with_volumes(Some(answer)).volumes),
        0 <= at < answer@.len() && goes_by(answer@[at].volume_id, key) && (forall|j: int|
            at < j < answer@.len() ==> !goes_by((#[trigger] answer@[j]).volume_id, key))
            ==> holds(
            input.with_volumes(Some(answer)).volumes,
            key,
            answer@[at],
        ),
        (forall|j: int|
            0 <= j < answer@.len() ==> !goes_by((#[trigger] answer@[j]).volume_id, key))
            ==> (holds(input.with_volumes(Some(answer)).volumes, key, value) <==> holds(
            input.volumes,
            key,
            value,
        )),
        input.with_volumes(None) == input,
        input.with_volumes(Some(answer)) == (InputView {
            volumes: input.with_volumes(Some(answer)).volumes,
            ..input
        }),
{
    assert forall|j: int| 0 <= j < answer@.len() implies ((#[trigger] answer@[j]).spec_key()
        == Some(key) <==> goes_by(answer@[j].volume_id, key)) by {
        law_volume_key_is_its_identifier(answer@[j], key);
    }
    lemma_kept(input.volumes, answer@, key, at, value);
}

/// NAT services that were read are kept under their own identifiers, the last one of those
/// that share one. What goes by another identifier, and the rest of the inventory, stay
/// as they were.
pub proof fn law_nat_services_are_kept_under_their_identifiers(
    input: InputView,
    answer: Vec<NatService>,
    key: Seq<char>,
    at: int,
    value: NatService,
)
    requires
        told_apart(input.nat_services),
    ensures
        told_apart(input.with_nat_services(Some(answer)).nat_services),
        0 <= at < answer@.len() && goes_by(answer@[at].nat_service_id, key) && (forall|j: int|
            at < j < answer@.len() ==> !goes_by((#[trigger] answer@[j]).nat_service_id, key))
            ==> holds(
            input.with_nat_services(Some(answer)).nat_services,
            key,
            answer@[at],
        ),
        (forall|j: int|
            0 <= j < answer@.len() ==> !goes_by((#[trigger] answer@[j]).nat_service_id, key))
            ==> (holds(input.with_nat_services(Some(answer)).nat_services, key, value) <==> holds(
            input.nat_services,
            key,
            value,
        )),
        input.with_nat_services(None) == input,
        input.with_nat_services(Some(answer)) == (InputView {
            nat_services: input.with_nat_services(Some(answer)).nat_services,
            ..input
        }),
{
    assert forall|j: int| 0 <= j < answer@.len() implies ((#[trigger] answer@[j]).spec_key()
        == Some(key) <==> goes_by(answer@[j].nat_service_id, key)) by {
        law_nat_service_key_is_its_identifier(answer@[j], key);
    }
    lemma_kept(input.nat_services, answer@, key, at, value);
}

/// Snapshots that were read are kept under their own identifiers, the last one of those
/// that share one. What goes by another identifier, and the rest of the inventory, stay
/// as they were.
pub proof fn law_snapshots_are_kept_under_their_identifiers(
    input: InputView,
    answer: Vec<Snapshot>,
    key: Seq<char>,
    at: int,
    value: Snapshot,
)
    requires
        told_apart(input.snapshots),
    ensures
        told_apart(input.with_snapshots(Some(answer)).snapshots),
        0 <= at < answer@.len() && goes_by(answer@[at].snapshot_id, key) && (forall|j: int|
            at < j < answer@.len() ==> !goes_by((#[trigger] answer@[j]).snapshot_id, key))
            ==> holds(
            input.with_snapshots(Some(answer)).snapshots,
            key,
            answer@[at],
        ),
        (forall|j: int|
            0 <= j < answer@.len() ==> !goes_by((#[trigger] answer@[j]).snapshot_id, key))
            ==> (holds(input.with_snapshots(Some(answer)).snapshots, key, value) <==> holds(
            input.snapshots,
            key,
            value,
        )),
        input.with_snapshots(None) == input,
        input.with_snapshots(Some(answer)) == (InputView {
            snapshots: input.with_snapshots(Some(answer)).snapshots,
            ..input
        }),
{
    assert forall|j: int| 0 <= j < answer@.len() implies ((#[trigger] answer@[j]).spec_key()
        == Some(key) <==> goes_by(answer@[j].snapshot_id, key)) by {
        law_snapshot_key_is_its_identifier(answer@[j], key);
    }
    lemma_kept(input.snapshots, answer@, key, at, value);
}

/// Public IPs that were read are kept under their own identifiers, the last one of
/// those that share one. What goes by another identifier, and the rest of the inventory,
/// stay as they were.
pub proof fn law_public_ips_are_kept_under_their_identifiers(
    input: InputView,
    answer: Vec<PublicIp>,
    key: Seq<char>,
    at: int,
    value: PublicIp,
)
    requires
        told_apart(input.public_ips),
    ensures
        told_apart(input.with_public_ips(Some(answer)).public_ips),
        0 <= at < answer@.len() && text(answer@[at].public_ip_id) == Some(key) && (forall|j: int|
            at < j < answer@.len() ==> text((#[trigger] answer@[j]).public_ip_id) != Some(key))
            ==> holds(
            input.with_public_ips(Some(answer)).public_ips,
            key,
            answer@[at],
        ),
        (forall|j: int|
            0 <= j < answer@.len() ==> text((#[trigger] answer@[j]).public_ip_id) != Some(key))
            ==> (holds(input.with_public_ips(Some(answer)).public_ips, key, value) <==> holds(
            input.public_ips,
            key,
            value,
        )),
        input.with_public_ips(None) == input,
        input.with_public_ips(Some(answer)) == (InputView {
            public_ips: input.with_public_ips(Some(answer)).public_ips,
            ..input
        }),
{
    assert forall|j: int| 0 <= j < answer@.len() implies ((#[trigger] answer@[j]).spec_key()
        == Some(key) <==> (text(answer@[j].public_ip_id) == Some(key))) by {
        law_public_ip_key_is_its_identifier(answer@[j], key);
    }
    lemma_kept(input.public_ips, answer@, key, at, value);
}

/// Catalog entries that were read are kept, the last one of those that share a name:
/// the catalog then quotes the price of that entry for the operation that it is about.
/// What has another name, and the rest of the inventory, stay as they were.
pub proof fn law_catalog_quotes_what_was_read(
    input: InputView,
    entries: Vec<CatalogEntry>,
    service: Seq<char>,
    type_: Seq<char>,
    operation: Seq<char>,
    at: int,
    price: Option<Price>,
)
    requires
        told_apart(input.catalog),
    ensures
        ({
            let after = input.with_catalog(Some(Catalog { entries: Some(entries) }));
            let key = named(service, type_, operation);
            &&& told_apart(after.catalog)
            &&& 0 <= at < entries@.len() && about(entries@[at], service, type_, operation) && (
            forall|j: int|
                at < j < entries@.len() ==> !goes_by_name(#[trigger] entries@[j], key))
                ==> quotes(
                after.catalog,
                service,
                type_,
                operation,
                entries@[at].unit_price,
            )
            &&& (forall|j: int|
                0 <= j < entries@.len() ==> !goes_by_name(#[trigger] entries@[j], key)) ==> (quotes(
                after.catalog,
                service,
                type_,
                operation,
                price,
            ) <==> quotes(input.catalog, service, type_, operation, price))
            &&& after == (InputView { catalog: after.catalog, ..input })
        }),
        input.with_catalog(None) == input,
        input.with_catalog(Some(Catalog { entries: None })) == input,
{
    let after = input.with_catalog(Some(Catalog { entries: Some(entries) }));
    let key = named(service, type_, operation);
    assert forall|j: int| 0 <= j < entries@.len() implies ((#[trigger] entries@[j]).spec_key()
        == Some(key) <==> goes_by_name(entries@[j], key)) by {
        law_entry_key_is_its_name(entries@[j], key);
    }
    let value = arbitrary::<CatalogEntry>();
    lemma_kept(input.catalog, entries@, key, at, value);
    if 0 <= at < entries@.len() && about(entries@[at], service, type_, operation) && (forall|j: int|
        at < j < entries@.len() ==> !goes_by_name(#[trigger] entries@[j], key)) {
        assert(goes_by_name(entries@[at], key));
        let i = choose|i: int|
            0 <= i < after.catalog.len() && #[trigger] after.catalog[i] == (key, entries@[at]);
        assert(after.catalog[i].0 == key);
        assert forall|l: int|
            0 <= l < after.catalog.len() && #[trigger] after.catalog[l].0 == key implies l == i by {
            assert(after.catalog[l].0 == after.catalog[i].0);
        }
    }
    if forall|j: int| 0 <= j < entries@.len() ==> !goes_by_name(#[trigger] entries@[j], key) {
        assert forall|i: int| 0 <= i < after.catalog.len() && #[trigger] after.catalog[i].0
            == key implies holds(input.catalog, key, after.catalog[i].1) by {
            lemma_kept(input.catalog, entries@, key, at, after.catalog[i].1);
            assert(after.catalog[i] == (key, after.catalog[i].1));
        }
        assert forall|i: int| 0 <= i < input.catalog.len() && #[trigger] input.catalog[i].0
            == key implies holds(after.catalog, key, input.catalog[i].1) by {
            lemma_kept(input.catalog, entries@, key, at, input.catalog[i].1);
            assert(input.catalog[i] == (key, input.catalog[i].1));
        }
    }
}

/// The account is the first of those that were read, and the region that of the first
/// subregion. An empty answer, or none, leaves both as they were, and neither answer
/// touches the rest of the inventory.
pub proof fn law_first_account_and_subregion_count(
    input: InputView,
    accounts: Vec<Account>,
    subregions: Vec<Subregion>,
)
    ensures
        accounts@.len() > 0 ==> input.with_accounts(Some(accounts)) == (InputView {
            account: Some(accounts@[0]),
            ..input
        }),
        accounts@.len() == 0 ==> input.with_accounts(Some(accounts)) == input,
        input.with_accounts(None) == input,
        subregions@.len() > 0 ==> input.with_subregions(Some(subregions)) == (InputView {
            region: subregions@[0].region_name,
            ..input
        }),
        subregions@.len() == 0 ==> input.with_subregions(Some(subregions)) == input,
        input.with_subregions(None) == input,
{
}

/// A volume that was read, the last one with its identifier, is in the listing, under
/// that identifier, if its type and size are known and its prices are quoted.
pub proof fn law_volume_that_was_read_is_listed_as_itself<X>(
    input: InputView,
    answer: Vec<Volume>,
    key: Seq<char>,
    at: int,
    read_date: Option<Seq<char>>,
    others: OtherResources<X>,
) -> (place: int)
    requires
        told_apart(input.catalog),
        told_apart(input.volumes),
        0 <= at < answer@.len(),
        goes_by(answer@[at].volume_id, key),
        forall|j: int|
            at < j < answer@.len() ==> !goes_by((#[trigger] answer@[j]).volume_id, key),
        volume_can_be_listed(input, answer@[at]),
    ensures
        ({
            let after = input.with_volumes(Some(answer));
            let listing = after.resources(read_date, others);
            &&& 0 <= place < listing.len()
            &&& listing[place] matches ResourceView::Volume(listed)
            &&& is_that_volume(listed, after, read_date, key, answer@[at])
        }),
{
    let after = input.with_volumes(Some(answer));
    let listing = after.resources(read_date, others);
    law_volumes_are_kept_under_their_identifiers(input, answer, key, at, answer@[at]);
    let row = choose|row: int|
        0 <= row < after.volumes.len() && #[trigger] after.volumes[row] == (key, answer@[at]);
    assert(after.volumes[row].1 == answer@[at]);
    let at = law_every_volume_is_listed(after, read_date, others, row);
    let listed = after.volume_resources::<X>(read_date)[at];
    choose|place: int| 0 <= place < listing.len() && listing[place] == listed
}

/// A public IP that was read, the last one with its identifier, is in the listing,
/// under that identifier, if it is known what it costs.
pub proof fn law_public_ip_that_was_read_is_listed_as_itself<X>(
    input: InputView,
    answer: Vec<PublicIp>,
    key: Seq<char>,
    at: int,
    read_date: Option<Seq<char>>,
    others: OtherResources<X>,
) -> (place: int)
    requires
        told_apart(input.catalog),
        told_apart(input.vms),
        told_apart(input.public_ips),
        0 <= at < answer@.len(),
        text(answer@[at].public_ip_id) == Some(key),
        forall|j: int|
            at < j < answer@.len() ==> text((#[trigger] answer@[j]).public_ip_id) != Some(key),
        public_ip_can_be_listed(input, answer@[at]),
    ensures
        ({
            let after = input.with_public_ips(Some(answer));
            let listing = after.resources(read_date, others);
            &&& 0 <= place < listing.len()
            &&& listing[place] matches ResourceView::PublicIp(listed)
            &&& is_that_public_ip(listed, after, read_date, key, answer@[at])
        }),
{
    let after = input.with_public_ips(Some(answer));
    let listing = after.resources(read_date, others);
    law_public_ips_are_kept_under_their_identifiers(input, answer, key, at, answer@[at]);
    let row = choose|row: int|
        0 <= row < after.public_ips.len() && #[trigger] after.public_ips[row] == (key, answer@[at]);
    assert(after.public_ips[row].1 == answer@[at]);
    assert(public_ip_can_be_listed(after, answer@[at])) by {
        if answer@[at].vm_id is Some {
            let vm = choose|vm: int| #[trigger]
                attached_at(input, answer@[at], vm) && (is_the_address(input, answer@[at], vm)
                    || quoted(
                    input.catalog,
                    "TinaOS-FCU"@,
                    "ElasticIP:AdditionalAddress"@,
                    "AssociateAddressVPC"@,
                ));
            assert(attached_at(after, answer@[at], vm));
        }
    }
    let at = law_every_public_ip_is_listed(after, read_date, others, row);
    let listed = after.public_ip_resources::<X>(read_date)[at];
    choose|place: int| 0 <= place < listing.len() && listing[place] == listed
}

/// A NAT service that was read, the last one with its identifier, is in the listing,
/// under that identifier.
pub proof fn law_nat_service_that_was_read_is_listed_as_itself<X>(
    input: InputView,
    answer: Vec<NatService>,
    key: Seq<char>,
    at: int,
    read_date: Option<Seq<char>>,
    others: OtherResources<X>,
) -> (place: int)
    requires
        told_apart(input.catalog),
        told_apart(input.nat_services),
        0 <= at < answer@.len(),
        text(answer@[at].nat_service_id) == Some(key),
        forall|j: int|
            at < j < answer@.len() ==> !goes_by((#[trigger] answer@[j]).nat_service_id, key),
    ensures
        ({
            let after = input.with_nat_services(Some(answer));
            let listing = after.resources(read_date, others);
            &&& 0 <= place < listing.len()
            &&& listing[place] matches ResourceView::NatServices(listed)
            &&& is_that_nat_service(listed, after, read_date, answer@[at])
        }),
{
    let after = input.with_nat_services(Some(answer));
    let listing = after.resources(read_date, others);
    law_nat_services_are_kept_under_their_identifiers(input, answer, key, at, answer@[at]);
    let row = choose|row: int|
        0 <= row < after.nat_services.len() && #[trigger] after.nat_services[row] == (
            key,
            answer@[at],
        );
    assert(after.nat_services[row].1 == answer@[at]);
    let at = law_every_nat_service_is_listed(after, read_date, others, row);
    let listed = after.nat_service_resources::<X>(read_date)[at];
    choose|place: int| 0 <= place < listing.len() && listing[place] == listed
}

/// A snapshot that was read, the last one with its identifier, is in the listing,
/// under that identifier, if a price is quoted for snapshots.
pub proof fn law_snapshot_that_was_read_is_listed_as_itself<X>(
    input: InputView,
    answer: Vec<Snapshot>,
    key: Seq<char>,
    at: int,
    read_date: Option<Seq<char>>,
    others: OtherResources<X>,
) -> (place: int)
    requires
        told_apart(input.catalog),
        told_apart(input.snapshots),
        0 <= at < answer@.len(),
        goes_by(answer@[at].snapshot_id, key),
        forall|j: int|
            at < j < answer@.len() ==> !goes_by((#[trigger] answer@[j]).snapshot_id, key),
        quoted(input.catalog, "TinaOS-FCU"@, "Snapshot:Usage"@, "Snapshot"@),
    ensures
        ({
            let after = input.with_snapshots(Some(answer));
            let listing = after.resources(read_date, others);
            &&& 0 <= place < listing.len()
            &&& listing[place] matches ResourceView::Snapshot(listed)
            &&& is_that_snapshot(listed, after, read_date, key, answer@[at])
        }),
{
    let after = input.with_snapshots(Some(answer));
    let listing = after.resources(read_date, others);
    law_snapshots_are_kept_under_their_identifiers(input, answer, key, at, answer@[at]);
    let row = choose|row: int|
        0 <= row < after.snapshots.len() && #[trigger] after.snapshots[row] == (key, answer@[at]);
    assert(after.snapshots[row].1 == answer@[at]);
    law_every_snapshot_is_listed(after, read_date, others);
    let part = after.snapshot_resources::<X>(read_date);
    assert(part[row] is Snapshot);
    choose|place: int| 0 <= place < listing.len() && listing[place] == part[row]
}

} // verus!
