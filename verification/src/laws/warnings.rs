//! Warnings: which notice comes of what, and that none is lost.
use vstd::prelude::*;

use super::prices::{attached_at, is_the_address};
use super::tables::law_key_finds_its_row;
use super::terms::{account_text, holds, lacks, named, told_apart};
use crate::model::{
    entry_id, Account, Catalog, CatalogEntry, NatService, PublicIp, Snapshot, Subregion, Volume,
};
use crate::notice::NoticeView;
use crate::oapi::fetch::{Event, Sibling, Stage};
use crate::oapi::fill::filter_map;
use crate::oapi::notices::{entry_notice, flat_map, public_ip_id_notice};
use crate::oapi::InputView;
use crate::throttle::ApiError;

verus! {

/// What is made of items in two parts is what is made of the parts, one after the other.
pub proof fn law_parts_are_mapped_one_after_the_other<A, B>(
    items: Seq<A>,
    more: Seq<A>,
    item: A,
    f: spec_fn(A) -> Option<B>,
    g: spec_fn(A) -> Seq<B>,
)
    ensures
        filter_map(items + more, f) == filter_map(items, f) + filter_map(more, f),
        flat_map(items + more, g) == flat_map(items, g) + flat_map(more, g),
        filter_map(Seq::empty(), f) == Seq::<B>::empty(),
        flat_map(Seq::empty(), g) == Seq::<B>::empty(),
        f(item) matches Some(made) ==> filter_map(seq![item], f) == seq![made],
        f(item) is None ==> filter_map(seq![item], f) == Seq::<B>::empty(),
        flat_map(seq![item], g) == g(item),
    decreases more.len(),
{
    assert(seq![item].drop_last() =~= Seq::<A>::empty());
    assert(filter_map(Seq::empty(), f) =~= Seq::<B>::empty());
    assert(flat_map(Seq::empty(), g) =~= Seq::<B>::empty());
    assert(flat_map(seq![item], g) =~= g(item));
    if let Some(made) = f(item) {
        assert(filter_map(seq![item], f) =~= seq![made]);
    }
    if more.len() == 0 {
        assert(items + more =~= items);
        assert(filter_map(items + more, f) =~= filter_map(items, f) + filter_map(more, f));
        assert(flat_map(items + more, g) =~= flat_map(items, g) + flat_map(more, g));
    } else {
        let fewer = more.drop_last();
        law_parts_are_mapped_one_after_the_other(items, fewer, item, f, g);
        assert((items + more).drop_last() =~= items + fewer);
        assert(filter_map(items + more, f) =~= filter_map(items, f) + filter_map(more, f));
        assert(flat_map(items + more, g) =~= flat_map(items, g) + flat_map(more, g));
    }
}

/// The notice about a price says which entry is missing, or which one has no price, by
/// the name of the operation. There is none about a price that is quoted.
pub proof fn law_price_notice_names_the_entry(
    input: InputView,
    service: Seq<char>,
    type_: Seq<char>,
    operation: Seq<char>,
    entry: CatalogEntry,
)
    requires
        told_apart(input.catalog),
    ensures
        lacks(input.catalog, named(service, type_, operation)) ==> input.price_notice(
            service,
            type_,
            operation,
        ) == Some(NoticeView::NoCatalogEntry(named(service, type_, operation))),
        holds(input.catalog, named(service, type_, operation), entry) && entry.unit_price is None
            ==> input.price_notice(service, type_, operation) == Some(
            NoticeView::NoPrice(named(service, type_, operation)),
        ),
        holds(input.catalog, named(service, type_, operation), entry) && entry.unit_price is Some
            ==> input.price_notice(service, type_, operation) is None,
{
    assert(entry_id(service, type_, operation) == named(service, type_, operation));
    law_key_finds_its_row(input.catalog, named(service, type_, operation), entry);
}

/// A missing list, and an empty one of which the first item would be kept, is noticed
/// as what it is. A list that is there, a failure and anything else are not.
pub proof fn law_missing_lists_are_noticed<E>(
    input: InputView,
    accounts: Vec<Account>,
    subregions: Vec<Subregion>,
    volumes: Vec<Volume>,
    nat_services: Vec<NatService>,
    snapshots: Vec<Snapshot>,
    failure: ApiError<E>,
    sibling: Sibling,
    result: Result<(), E>,
)
    ensures
        input.fetch_notices(Event::<E>::Catalog(Ok(None))) == seq![NoticeView::NoCatalog],
        input.fetch_notices(Event::<E>::Catalog(Ok(Some(Catalog { entries: None })))) == seq![
            NoticeView::NoCatalogEntries,
        ],
        input.fetch_notices(Event::<E>::Accounts(Ok(None))) == seq![NoticeView::NoAccounts],
        accounts@.len() == 0 ==> input.fetch_notices(Event::<E>::Accounts(Ok(Some(accounts))))
            == seq![NoticeView::EmptyAccounts],
        accounts@.len() > 0 ==> input.fetch_notices(
            Event::<E>::Accounts(Ok(Some(accounts))),
        ).len() == 0,
        input.fetch_notices(Event::<E>::Subregions(Ok(None))) == seq![NoticeView::NoSubregions],
        subregions@.len() == 0 ==> input.fetch_notices(
            Event::<E>::Subregions(Ok(Some(subregions))),
        ) == seq![NoticeView::EmptySubregions],
        subregions@.len() > 0 ==> input.fetch_notices(
            Event::<E>::Subregions(Ok(Some(subregions))),
        ).len() == 0,
        input.fetch_notices(Event::<E>::Volumes(Ok(None))) == seq![NoticeView::NoVolumes],
        input.fetch_notices(Event::<E>::Volumes(Ok(Some(volumes)))).len() == 0,
        input.fetch_notices(Event::<E>::NatServices(Ok(None))) == seq![NoticeView::NoNatServices],
        input.fetch_notices(Event::<E>::NatServices(Ok(Some(nat_services)))).len() == 0,
        input.fetch_notices(Event::<E>::PublicIps(Ok(None))) == seq![NoticeView::NoPublicIps],
        input.fetch_notices(Event::<E>::Snapshots(Ok(None))) == seq![NoticeView::NoSnapshots],
        input.fetch_notices(Event::<E>::Snapshots(Ok(Some(snapshots)))).len() == 0,
        input.fetch_notices(Event::Catalog(Err(failure))).len() == 0,
        input.fetch_notices(Event::Accounts(Err(failure))).len() == 0,
        input.fetch_notices(Event::Subregions(Err(failure))).len() == 0,
        input.fetch_notices(Event::Volumes(Err(failure))).len() == 0,
        input.fetch_notices(Event::NatServices(Err(failure))).len() == 0,
        input.fetch_notices(Event::PublicIps(Err(failure))).len() == 0,
        input.fetch_notices(Event::Snapshots(Err(failure))).len() == 0,
        input.fetch_notices(Event::<E>::Start).len() == 0,
        input.fetch_notices(Event::Sibling(sibling, result)).len() == 0,
{
}

/// The notice about a catalog entry says what the entry lacks first: its type, its
/// service or its operation. That about a public IP says that it lacks its identifier.
pub proof fn law_notice_says_what_an_item_lacks(entry: CatalogEntry, public_ip: PublicIp)
    ensures
        entry._type is None ==> entry_notice(entry) == Some(NoticeView::EntryWithoutType),
        entry._type is Some && entry.service is None ==> entry_notice(entry) == Some(
            NoticeView::EntryWithoutService,
        ),
        entry._type is Some && entry.service is Some && entry.operation is None ==> entry_notice(
            entry,
        ) == Some(NoticeView::EntryWithoutOperation),
        entry._type is Some && entry.service is Some && entry.operation is Some ==> entry_notice(
            entry,
        ) is None,
        public_ip.public_ip_id is None ==> public_ip_id_notice(public_ip) == Some(
            NoticeView::PublicIpWithoutId,
        ),
        public_ip.public_ip_id is Some ==> public_ip_id_notice(public_ip) is None,
{
}

/// Each item of an answer is noticed by itself: an answer in two parts gives the notices
/// of its parts, one after the other, and an answer of one item that of the item.
pub proof fn law_each_item_is_noticed<E>(
    input: InputView,
    entries: Vec<CatalogEntry>,
    first_entries: Vec<CatalogEntry>,
    more_entries: Vec<CatalogEntry>,
    public_ips: Vec<PublicIp>,
    first_public_ips: Vec<PublicIp>,
    more_public_ips: Vec<PublicIp>,
)
    ensures
        ({
            let notices = |entries: Vec<CatalogEntry>|
                input.fetch_notices(
                    Event::<E>::Catalog(Ok(Some(Catalog { entries: Some(entries) }))),
                );
            &&& entries@ == first_entries@ + more_entries@ ==> notices(entries) == notices(
                first_entries,
            ) + notices(more_entries)
            &&& entries@.len() == 0 ==> notices(entries).len() == 0
            &&& entries@.len() == 1 && entry_notice(entries@[0]) is None ==> notices(
                entries,
            ).len() == 0
            &&& entries@.len() == 1 && entry_notice(entries@[0]) is Some ==> notices(entries)
                == seq![entry_notice(entries@[0])->0]
        }),
        ({
            let notices = |public_ips: Vec<PublicIp>|
                input.fetch_notices(Event::<E>::PublicIps(Ok(Some(public_ips))));
            &&& public_ips@ == first_public_ips@ + more_public_ips@ ==> notices(public_ips)
                == notices(first_public_ips) + notices(more_public_ips)
            &&& public_ips@.len() == 0 ==> notices(public_ips).len() == 0
            &&& public_ips@.len() == 1 && public_ip_id_notice(public_ips@[0]) is None ==> notices(
                public_ips,
            ).len() == 0
            &&& public_ips@.len() == 1 && public_ip_id_notice(public_ips@[0]) is Some ==> notices(
                public_ips,
            ) == seq![public_ip_id_notice(public_ips@[0])->0]
        }),
{
    let f = |entry: CatalogEntry| entry_notice(entry);
    let g = |public_ip: PublicIp| public_ip_id_notice(public_ip);
    let no_entries = |entry: CatalogEntry| Seq::<NoticeView>::empty();
    let no_public_ips = |public_ip: PublicIp| Seq::<NoticeView>::empty();
    law_parts_are_mapped_one_after_the_other(
        first_entries@,
        more_entries@,
        entries@[0],
        f,
        no_entries,
    );
    law_parts_are_mapped_one_after_the_other(
        first_public_ips@,
        more_public_ips@,
        public_ips@[0],
        g,
        no_public_ips,
    );
    if entries@.len() == 1 {
        assert(entries@ =~= seq![entries@[0]]);
    }
    if public_ips@.len() == 1 {
        assert(public_ips@ =~= seq![public_ips@[0]]);
    }
}

/// That the snapshots are passed over is noticed after the public IPs were read, without
/// an account, and at no other time.
pub proof fn law_only_passed_over_snapshots_are_noticed<E>(input: InputView, event: Event<E>)
    ensures
        input.skip_notice(event) is Some <==> (event matches Event::PublicIps(Ok(_)))
            && account_text(input) is None,
        input.skip_notice(event) matches Some(notice) ==> notice == NoticeView::NoAccountId,
{
}

/// An answer is taken in at its own stage if there is a list in it and, for the account
/// and the region, a first item. Nothing else is taken in.
pub proof fn law_answers_with_a_list_are_taken_in<E>(event: Event<E>)
    ensures
        match event {
            Event::Catalog(Ok(Some(catalog))) => if catalog.entries is Some {
                event.spec_taken_in() == Some(Stage::Catalog)
            } else {
                event.spec_taken_in() is None
            },
            Event::Accounts(Ok(Some(accounts))) => if accounts@.len() > 0 {
                event.spec_taken_in() == Some(Stage::Account)
            } else {
                event.spec_taken_in() is None
            },
            Event::Subregions(Ok(Some(subregions))) => if subregions@.len() > 0 {
                event.spec_taken_in() == Some(Stage::Region)
            } else {
                event.spec_taken_in() is None
            },
            Event::Volumes(Ok(Some(_))) => event.spec_taken_in() == Some(Stage::Volumes),
            Event::NatServices(Ok(Some(_))) => event.spec_taken_in() == Some(Stage::NatServices),
            Event::PublicIps(Ok(Some(_))) => event.spec_taken_in() == Some(Stage::PublicIps),
            Event::Snapshots(Ok(Some(_))) => event.spec_taken_in() == Some(Stage::Snapshots),
            _ => event.spec_taken_in() is None,
        },
{
}

/// The notices are `notice`, if there is one.
pub open spec fn just(notices: Seq<NoticeView>, notice: Option<NoticeView>) -> bool {
    match notice {
        Some(notice) => notices.len() == 1 && notices[0] == notice,
        None => notices.len() == 0,
    }
}

/// A volume is noticed for what it lacks first: its type, its size, the price of a GiB of
/// its type or, for the type `io1`, the price of an IOPS. That an `io1` volume does not
/// say its IOPS is noticed before that, and never hides the rest.
pub proof fn law_volume_notices_say_what_is_lacking(input: InputView, volume: Volume)
    ensures
        ({
            let notices = input.volume_notices(volume);
            let io1 = volume.volume_type is Some && volume.volume_type->0@ == "io1"@;
            let silent = io1 && volume.iops is None;
            let rest = if silent {
                notices.skip(1)
            } else {
                notices
            };
            let gb = input.price_notice(
                "TinaOS-FCU"@,
                "BSU:VolumeUsage:"@ + volume.volume_type->0@,
                "CreateVolume"@,
            );
            let iops = input.price_notice(
                "TinaOS-FCU"@,
                "BSU:VolumeIOPS:io1"@,
                "CreateVolume"@,
            );
            &&& silent ==> notices.len() > 0 && notices[0] == NoticeView::VolumeWithoutIops
            &&& volume.volume_type is None ==> just(rest, Some(NoticeView::VolumeWithoutType))
            &&& volume.volume_type is Some && volume.size is None ==> just(
                rest,
                Some(NoticeView::VolumeWithoutSize),
            )
            &&& volume.volume_type is Some && volume.size is Some && gb is Some ==> just(rest, gb)
            &&& volume.volume_type is Some && volume.size is Some && gb is None && io1 ==> just(
                rest,
                iops,
            )
            &&& volume.volume_type is Some && volume.size is Some && gb is None && !io1 ==> just(
                rest,
                None,
            )
        }),
{
    reveal_strlit("BSU:VolumeIOPS:");
    reveal_strlit("io1");
    reveal_strlit("BSU:VolumeIOPS:io1");
    assert("BSU:VolumeIOPS:"@ + "io1"@ =~= "BSU:VolumeIOPS:io1"@);
}

/// A NAT service is noticed for its price, if that is not known, and then for its
/// identifier, if it has none, by the key that it is stored under.
pub proof fn law_nat_service_notices_say_what_is_lacking(
    input: InputView,
    key: Seq<char>,
    nat_service: NatService,
)
    ensures
        ({
            let notices = input.nat_service_notices(key, nat_service);
            let price = input.price_notice(
                "TinaOS-FCU"@,
                "NatGatewayUsage"@,
                "CreateNatGateway"@,
            );
            let nameless = NoticeView::NatServiceWithoutId(key);
            &&& nat_service.nat_service_id is Some ==> just(notices, price)
            &&& nat_service.nat_service_id is None && price is None ==> just(
                notices,
                Some(nameless),
            )
            &&& nat_service.nat_service_id is None && price is Some ==> notices.len() == 2
                && notices[0] == price->0 && notices[1] == nameless
        }),
{
}

/// A public IP is noticed for what it lacks: its address, its VM, the address of its VM,
/// or the price of the case that it is in. The first address of a VM lacks nothing.
pub proof fn law_public_ip_notice_says_what_is_lacking(
    input: InputView,
    id: Seq<char>,
    public_ip: PublicIp,
    at: int,
)
    requires
        told_apart(input.vms),
    ensures
        ({
            let notice = input.public_ip_notice(id, public_ip);
            let idle = input.price_notice(
                "TinaOS-FCU"@,
                "ElasticIP:IdleAddress"@,
                "AssociateAddressVPC"@,
            );
            let further = input.price_notice(
                "TinaOS-FCU"@,
                "ElasticIP:AdditionalAddress"@,
                "AssociateAddressVPC"@,
            );
            &&& public_ip.public_ip is None ==> notice == Some(
                NoticeView::PublicIpWithoutAddress(id),
            )
            &&& public_ip.public_ip is Some && public_ip.vm_id is None ==> notice == idle
            &&& public_ip.public_ip is Some && public_ip.vm_id is Some ==> {
                let vm_id = public_ip.vm_id->0@;
                let address = public_ip.public_ip->0@;
                &&& lacks(input.vms, vm_id) ==> notice == Some(
                    NoticeView::UnknownVm(vm_id, address, id),
                )
                &&& 0 <= at < input.vms.len() && input.vms[at].0 == vm_id
                    && input.vms[at].1.public_ip is None ==> notice == Some(
                    NoticeView::VmWithoutAddress(vm_id, address),
                )
                &&& attached_at(input, public_ip, at) && is_the_address(input, public_ip, at)
                    ==> notice is None
                &&& attached_at(input, public_ip, at) && !is_the_address(input, public_ip, at)
                    ==> notice == further
            }
        }),
{
    if let Some(vm_id) = public_ip.vm_id {
        law_key_finds_its_row(input.vms, vm_id@, input.vms[at].1);
        if 0 <= at < input.vms.len() && input.vms[at].0 == vm_id@ {
            assert(input.vms[at] == (vm_id@, input.vms[at].1));
            assert(holds(input.vms, vm_id@, input.vms[at].1));
        }
    }
}

/// The snapshots are noticed for their price, and for not being listed without it.
pub proof fn law_snapshot_notices_say_what_is_lacking(input: InputView)
    ensures
        ({
            let notices = input.snapshot_notices();
            let price = input.price_notice("TinaOS-FCU"@, "Snapshot:Usage"@, "Snapshot"@);
            &&& price is None ==> notices.len() == 0
            &&& price is Some ==> notices.len() == 2 && notices[0] == price->0 && notices[1]
                == NoticeView::NoSnapshotPrice
        }),
{
}

/// Functions that agree on every item make the same of a list.
proof fn lemma_same_map<A, B>(items: Seq<A>, f: spec_fn(A) -> Seq<B>, g: spec_fn(A) -> Seq<B>)
    requires
        forall|item: A| #[trigger] f(item) == g(item),
    ensures
        flat_map(items, f) == flat_map(items, g),
    decreases items.len(),
{
    if items.len() > 0 {
        lemma_same_map(items.drop_last(), f, g);
        assert(f(items.last()) == g(items.last()));
    }
}

/// No notice about a listing is lost: without rows there are those of the snapshots
/// alone; a volume more at the front adds its own in front, a NAT service more at the end
/// adds its own behind, and, without volumes, so does a public IP more at the front.
pub proof fn law_every_row_adds_its_notices(
    input: InputView,
    volume: (Seq<char>, Volume),
    public_ip: (Seq<char>, PublicIp),
    nat_service: (Seq<char>, NatService),
)
    ensures
        input.volumes.len() == 0 && input.public_ips.len() == 0 && input.nat_services.len() == 0
            ==> input.listing_notices() == input.snapshot_notices(),
        (InputView { volumes: seq![volume] + input.volumes, ..input }).listing_notices()
            == input.volume_notices(volume.1) + input.listing_notices(),
        (InputView {
            nat_services: input.nat_services + seq![nat_service],
            ..input
        }).listing_notices() == input.listing_notices() + input.nat_service_notices(
            nat_service.0,
            nat_service.1,
        ),
        input.volumes.len() == 0 && input.public_ip_notice(public_ip.0, public_ip.1) is None ==> (
        InputView {
            public_ips: seq![public_ip] + input.public_ips,
            ..input
        }).listing_notices() == input.listing_notices(),
        input.volumes.len() == 0 && input.public_ip_notice(public_ip.0, public_ip.1) is Some ==> (
        InputView {
            public_ips: seq![public_ip] + input.public_ips,
            ..input
        }).listing_notices() == seq![input.public_ip_notice(public_ip.0, public_ip.1)->0]
            + input.listing_notices(),
{
    let f = input.volume_row_notices();
    let g = input.public_ip_row_notices();
    let h = input.nat_service_row_notices();
    let fv = |row: (Seq<char>, Volume)| None::<NoticeView>;
    let gv = |row: (Seq<char>, PublicIp)| None::<NoticeView>;
    let hv = |row: (Seq<char>, NatService)| None::<NoticeView>;
    law_parts_are_mapped_one_after_the_other(seq![volume], input.volumes, volume, fv, f);
    law_parts_are_mapped_one_after_the_other(seq![public_ip], input.public_ips, public_ip, gv, g);
    law_parts_are_mapped_one_after_the_other(
        input.nat_services,
        seq![nat_service],
        nat_service,
        hv,
        h,
    );
    let with_volume = InputView { volumes: seq![volume] + input.volumes, ..input };
    lemma_rows_alone_differ(input, with_volume);
    assert(with_volume.listing_notices() =~= input.volume_notices(volume.1)
        + input.listing_notices());
    let with_nat_service = InputView {
        nat_services: input.nat_services + seq![nat_service],
        ..input
    };
    lemma_rows_alone_differ(input, with_nat_service);
    assert(with_nat_service.listing_notices() =~= input.listing_notices()
        + input.nat_service_notices(nat_service.0, nat_service.1));
    let with_public_ip = InputView { public_ips: seq![public_ip] + input.public_ips, ..input };
    lemma_rows_alone_differ(input, with_public_ip);
    let notice = input.public_ip_notice(public_ip.0, public_ip.1);
    if input.volumes.len() == 0 {
        if notice is None {
            assert(with_public_ip.listing_notices() =~= input.listing_notices());
        } else {
            assert(with_public_ip.listing_notices() =~= seq![notice->0] + input.listing_notices());
        }
    }
    if input.volumes.len() == 0 && input.public_ips.len() == 0 && input.nat_services.len() == 0 {
        assert(input.listing_notices() =~= input.snapshot_notices());
    }
}

/// Inventories that differ in their volumes, public IPs and NAT services alone notice a
/// row in the same way.
proof fn lemma_rows_alone_differ(one: InputView, other: InputView)
    requires
        one.catalog == other.catalog,
        one.vms == other.vms,
    ensures
        flat_map(other.volumes, other.volume_row_notices()) == flat_map(
            other.volumes,
            one.volume_row_notices(),
        ),
        flat_map(other.public_ips, other.public_ip_row_notices()) == flat_map(
            other.public_ips,
            one.public_ip_row_notices(),
        ),
        flat_map(other.nat_services, other.nat_service_row_notices()) == flat_map(
            other.nat_services,
            one.nat_service_row_notices(),
        ),
        other.snapshot_notices() == one.snapshot_notices(),
{
    lemma_same_map(other.volumes, other.volume_row_notices(), one.volume_row_notices());
    lemma_same_map(other.public_ips, other.public_ip_row_notices(), one.public_ip_row_notices());
    lemma_same_map(
        other.nat_services,
        other.nat_service_row_notices(),
        one.nat_service_row_notices(),
    );
}

} // verus!
