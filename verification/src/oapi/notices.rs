//! What is worth a warning: what an answer lacks, and why something is not listed
//! or not priced.
use vstd::prelude::*;

use super::fetch::{Event, Stage};
use super::fill::{filter_map, lemma_filter_map_take};
use super::pricing::fcu;
use super::{Input, InputView};
use crate::model::{
    contents, entry_id, forge_entry_id, Catalog, CatalogEntry, NatService, PublicIp, Volume,
};
use crate::notice::{noticed, Notice, NoticeView};
use crate::table::lookup;

verus! {

/// What `f` makes of each of `items`, one after the other.
pub open spec fn flat_map<A, B>(items: Seq<A>, f: spec_fn(A) -> Seq<B>) -> Seq<B>
    decreases items.len(),
{
    if items.len() == 0 {
        Seq::empty()
    } else {
        flat_map(items.drop_last(), f) + f(items.last())
    }
}

proof fn lemma_flat_map_take<A, B>(items: Seq<A>, at: int, f: spec_fn(A) -> Seq<B>)
    requires
        0 <= at < items.len(),
    ensures
        flat_map(items.take(at + 1), f) == flat_map(items.take(at), f) + f(items[at]),
{
    assert(items.take(at + 1).drop_last() =~= items.take(at));
}

/// The notice, if there is one.
pub open spec fn at_most_one(notice: Option<NoticeView>) -> Seq<NoticeView> {
    match notice {
        Some(notice) => seq![notice],
        None => Seq::empty(),
    }
}

/// What a catalog entry lacks first, if it lacks a part of its identifier.
pub open spec fn entry_notice(entry: CatalogEntry) -> Option<NoticeView> {
    if entry._type is None {
        Some(NoticeView::EntryWithoutType)
    } else if entry.service is None {
        Some(NoticeView::EntryWithoutService)
    } else if entry.operation is None {
        Some(NoticeView::EntryWithoutOperation)
    } else {
        None
    }
}

/// What a catalog that was read lacks.
pub open spec fn catalog_notices(answer: Option<Catalog>) -> Seq<NoticeView> {
    match answer {
        None => seq![NoticeView::NoCatalog],
        Some(catalog) => match catalog.entries {
            None => seq![NoticeView::NoCatalogEntries],
            Some(entries) => filter_map(entries@, |entry: CatalogEntry| entry_notice(entry)),
        },
    }
}

/// That a public IP lacks its identifier.
pub open spec fn public_ip_id_notice(public_ip: PublicIp) -> Option<NoticeView> {
    if public_ip.public_ip_id is None {
        Some(NoticeView::PublicIpWithoutId)
    } else {
        None
    }
}

/// What a list of public IPs that was read lacks.
pub open spec fn public_ips_notices(answer: Option<Vec<PublicIp>>) -> Seq<NoticeView> {
    match answer {
        None => seq![NoticeView::NoPublicIps],
        Some(public_ips) => filter_map(
            public_ips@,
            |public_ip: PublicIp| public_ip_id_notice(public_ip),
        ),
    }
}

/// What a list lacks of which the first item is kept.
pub open spec fn first_notices<T>(
    answer: Option<Vec<T>>,
    missing: NoticeView,
    empty: NoticeView,
) -> Seq<NoticeView> {
    match answer {
        None => seq![missing],
        Some(items) => if items@.len() == 0 {
            seq![empty]
        } else {
            Seq::empty()
        },
    }
}

/// That a list is missing.
pub open spec fn list_notices<T>(answer: Option<Vec<T>>, missing: NoticeView) -> Seq<NoticeView> {
    match answer {
        None => seq![missing],
        Some(_) => Seq::empty(),
    }
}

impl InputView {
    /// What is worth a warning about an event of a fetch: what an answer lacks.
    pub open spec fn fetch_notices<E>(self, event: Event<E>) -> Seq<NoticeView> {
        match event {
            Event::Catalog(Ok(answer)) => catalog_notices(answer),
            Event::Accounts(Ok(answer)) => first_notices(
                answer,
                NoticeView::NoAccounts,
                NoticeView::EmptyAccounts,
            ),
            Event::Subregions(Ok(answer)) => first_notices(
                answer,
                NoticeView::NoSubregions,
                NoticeView::EmptySubregions,
            ),
            Event::Volumes(Ok(answer)) => list_notices(answer, NoticeView::NoVolumes),
            Event::NatServices(Ok(answer)) => list_notices(answer, NoticeView::NoNatServices),
            Event::PublicIps(Ok(answer)) => public_ips_notices(answer),
            Event::Snapshots(Ok(answer)) => list_notices(answer, NoticeView::NoSnapshots),
            _ => Seq::empty(),
        }
    }

    /// Why the stage that comes after an event of a fetch is passed over, if that is
    /// worth a warning: the snapshots, which come after the public IPs, are not read
    /// without an account.
    pub open spec fn skip_notice<E>(self, event: Event<E>) -> Option<NoticeView> {
        if event matches Event::PublicIps(Ok(_)) && self.account_id() is None {
            Some(NoticeView::NoAccountId)
        } else {
            None
        }
    }

    /// Why the price of an operation is not known, if it is not.
    pub open spec fn price_notice(
        self,
        service: Seq<char>,
        type_: Seq<char>,
        operation: Seq<char>,
    ) -> Option<NoticeView> {
        let id = entry_id(service, type_, operation);
        match lookup(self.catalog, id) {
            Some(entry) => if entry.unit_price is None {
                Some(NoticeView::NoPrice(id))
            } else {
                None
            },
            None => Some(NoticeView::NoCatalogEntry(id)),
        }
    }

    /// What is worth a warning about a volume: that its type is missing, or else the
    /// IOPS that it is charged for, and after that its size, or else its price, or
    /// else the price of its IOPS.
    pub open spec fn volume_notices(self, volume: Volume) -> Seq<NoticeView> {
        match volume.volume_type {
            None => seq![NoticeView::VolumeWithoutType],
            Some(volume_type) => {
                let charged = volume_type@ == "io1"@;
                let iops = at_most_one(
                    if charged && volume.iops is None {
                        Some(NoticeView::VolumeWithoutIops)
                    } else {
                        None
                    },
                );
                let gb_price = self.price_notice(
                    fcu(),
                    "BSU:VolumeUsage:"@ + volume_type@,
                    "CreateVolume"@,
                );
                iops + at_most_one(
                    if volume.size is None {
                        Some(NoticeView::VolumeWithoutSize)
                    } else if gb_price is Some {
                        gb_price
                    } else if charged {
                        self.price_notice(
                            fcu(),
                            "BSU:VolumeIOPS:"@ + volume_type@,
                            "CreateVolume"@,
                        )
                    } else {
                        None
                    },
                )
            },
        }
    }

    /// What is worth a warning about a NAT service: that its price is not known, and
    /// that it has no identifier.
    pub open spec fn nat_service_notices(self, key: Seq<char>, nat_service: NatService) -> Seq<
        NoticeView,
    > {
        at_most_one(self.price_notice(fcu(), "NatGatewayUsage"@, "CreateNatGateway"@))
            + at_most_one(
            if nat_service.nat_service_id is None {
                Some(NoticeView::NatServiceWithoutId(key))
            } else {
                None
            },
        )
    }

    /// Why a public IP is not listed, if it is not.
    pub open spec fn public_ip_notice(self, id: Seq<char>, public_ip: PublicIp) -> Option<
        NoticeView,
    > {
        match (public_ip.public_ip, public_ip.vm_id) {
            (None, _) => Some(NoticeView::PublicIpWithoutAddress(id)),
            (Some(_), None) => self.price_notice(
                fcu(),
                "ElasticIP:IdleAddress"@,
                "AssociateAddressVPC"@,
            ),
            (Some(address), Some(vm_id)) => match lookup(self.vms, vm_id@) {
                None => Some(NoticeView::UnknownVm(vm_id@, address@, id)),
                Some(vm) => match vm.public_ip {
                    None => Some(NoticeView::VmWithoutAddress(vm_id@, address@)),
                    Some(vm_address) => if vm_address@ == address@ {
                        None
                    } else {
                        self.price_notice(
                            fcu(),
                            "ElasticIP:AdditionalAddress"@,
                            "AssociateAddressVPC"@,
                        )
                    },
                },
            },
        }
    }

    /// Why the snapshots are not listed, if they are not.
    pub open spec fn snapshot_notices(self) -> Seq<NoticeView> {
        match self.price_notice(fcu(), "Snapshot:Usage"@, "Snapshot"@) {
            Some(notice) => seq![notice, NoticeView::NoSnapshotPrice],
            None => Seq::empty(),
        }
    }

    /// The notices about a row of the volumes.
    pub open spec fn volume_row_notices(self) -> spec_fn((Seq<char>, Volume)) -> Seq<NoticeView> {
        |row: (Seq<char>, Volume)| self.volume_notices(row.1)
    }

    /// The notices about a row of the public IPs.
    pub open spec fn public_ip_row_notices(self) -> spec_fn((Seq<char>, PublicIp)) -> Seq<
        NoticeView,
    > {
        |row: (Seq<char>, PublicIp)| at_most_one(self.public_ip_notice(row.0, row.1))
    }

    /// The notices about a row of the NAT services.
    pub open spec fn nat_service_row_notices(self) -> spec_fn((Seq<char>, NatService)) -> Seq<
        NoticeView,
    > {
        |row: (Seq<char>, NatService)| self.nat_service_notices(row.0, row.1)
    }

    /// What is worth a warning about a listing, in the order of the listing: the
    /// volumes, the public IPs, the snapshots, the NAT services.
    pub open spec fn listing_notices(self) -> Seq<NoticeView> {
        flat_map(self.volumes, self.volume_row_notices()) + flat_map(
            self.public_ips,
            self.public_ip_row_notices(),
        ) + self.snapshot_notices() + flat_map(self.nat_services, self.nat_service_row_notices())
    }
}

/// A list of `first`, if there is one.
fn optional(first: Option<Notice>) -> (notices: Vec<Notice>)
    ensures
        noticed(notices@) == at_most_one(contents(first)),
{
    let mut notices: Vec<Notice> = Vec::new();
    if let Some(notice) = first {
        notices.push(notice);
    }
    assert(noticed(notices@) =~= at_most_one(contents(first)));
    notices
}

/// Adds `more` to `notices`.
fn extend(notices: &mut Vec<Notice>, more: Vec<Notice>)
    ensures
        noticed(final(notices)@) == noticed(old(notices)@) + noticed(more@),
{
    let ghost added = more@;
    let mut more = more;
    notices.append(&mut more);
    assert(noticed(notices@) =~= noticed(old(notices)@) + noticed(added));
}

/// What catalog entries lack of their identifiers.
fn entry_notices(items: &Vec<CatalogEntry>) -> (notices: Vec<Notice>)
    ensures
        noticed(notices@) == filter_map(items@, |item: CatalogEntry| entry_notice(item)),
{
    let ghost f = |item: CatalogEntry| entry_notice(item);
    let mut notices: Vec<Notice> = Vec::new();
    assert(noticed(notices@) =~= filter_map(items@.take(0), f));
    let mut at: usize = 0;
    while at < items.len()
        invariant
            at <= items@.len(),
            f == (|item: CatalogEntry| entry_notice(item)),
            noticed(notices@) == filter_map(items@.take(at as int), f),
        decreases items@.len() - at,
    {
        proof {
            lemma_filter_map_take(items@, at as int, f);
        }
        let ghost earlier = notices@;
        let item = &items[at];
        if item._type.is_none() {
            notices.push(Notice::EntryWithoutType);
        } else if item.service.is_none() {
            notices.push(Notice::EntryWithoutService);
        } else if item.operation.is_none() {
            notices.push(Notice::EntryWithoutOperation);
        }
        assert(f(items@[at as int]) is Some ==> noticed(notices@) =~= noticed(earlier).push(
            f(items@[at as int])->0,
        ));
        at = at + 1;
    }
    assert(items@.take(items@.len() as int) =~= items@);
    notices
}

/// Which public IPs lack their identifiers.
fn public_ip_id_notices(items: &Vec<PublicIp>) -> (notices: Vec<Notice>)
    ensures
        noticed(notices@) == filter_map(items@, |item: PublicIp| public_ip_id_notice(item)),
{
    let ghost f = |item: PublicIp| public_ip_id_notice(item);
    let mut notices: Vec<Notice> = Vec::new();
    assert(noticed(notices@) =~= filter_map(items@.take(0), f));
    let mut at: usize = 0;
    while at < items.len()
        invariant
            at <= items@.len(),
            f == (|item: PublicIp| public_ip_id_notice(item)),
            noticed(notices@) == filter_map(items@.take(at as int), f),
        decreases items@.len() - at,
    {
        proof {
            lemma_filter_map_take(items@, at as int, f);
        }
        let ghost earlier = notices@;
        let item = &items[at];
        if item.public_ip_id.is_none() {
            notices.push(Notice::PublicIpWithoutId);
        }
        assert(f(items@[at as int]) is Some ==> noticed(notices@) =~= noticed(earlier).push(
            f(items@[at as int])->0,
        ));
        at = at + 1;
    }
    assert(items@.take(items@.len() as int) =~= items@);
    notices
}

/// What a list lacks of which the first item is kept.
fn first_items_notices<T>(answer: &Option<Vec<T>>, missing: Notice, empty: Notice) -> (notices: Vec<
    Notice,
>)
    ensures
        noticed(notices@) == first_notices(*answer, missing@, empty@),
{
    match answer {
        None => optional(Some(missing)),
        Some(items) => if items.len() == 0 {
            optional(Some(empty))
        } else {
            optional(None)
        },
    }
}

/// That a list is missing.
fn missing_list_notices<T>(answer: &Option<Vec<T>>, missing: Notice) -> (notices: Vec<Notice>)
    ensures
        noticed(notices@) == list_notices(*answer, missing@),
{
    match answer {
        None => optional(Some(missing)),
        Some(_) => optional(None),
    }
}

impl<E> Event<E> {
    /// The stage whose answer holds something to be taken in: a list, or, of the
    /// accounts and the subregions, one that is not empty.
    pub open spec fn spec_taken_in(self) -> Option<Stage> {
        match self {
            Event::Catalog(Ok(Some(catalog))) => if catalog.entries is Some {
                Some(Stage::Catalog)
            } else {
                None
            },
            Event::Accounts(Ok(Some(accounts))) => if accounts@.len() > 0 {
                Some(Stage::Account)
            } else {
                None
            },
            Event::Subregions(Ok(Some(subregions))) => if subregions@.len() > 0 {
                Some(Stage::Region)
            } else {
                None
            },
            Event::Volumes(Ok(Some(_))) => Some(Stage::Volumes),
            Event::NatServices(Ok(Some(_))) => Some(Stage::NatServices),
            Event::PublicIps(Ok(Some(_))) => Some(Stage::PublicIps),
            Event::Snapshots(Ok(Some(_))) => Some(Stage::Snapshots),
            _ => None,
        }
    }

    /// The stage whose answer holds something to be taken in.
    pub fn taken_in(&self) -> (stage: Option<Stage>)
        ensures
            stage == self.spec_taken_in(),
    {
        match self {
            Event::Catalog(Ok(Some(catalog))) => if catalog.entries.is_some() {
                Some(Stage::Catalog)
            } else {
                None
            },
            Event::Accounts(Ok(Some(accounts))) => if accounts.len() > 0 {
                Some(Stage::Account)
            } else {
                None
            },
            Event::Subregions(Ok(Some(subregions))) => if subregions.len() > 0 {
                Some(Stage::Region)
            } else {
                None
            },
            Event::Volumes(Ok(Some(_))) => Some(Stage::Volumes),
            Event::NatServices(Ok(Some(_))) => Some(Stage::NatServices),
            Event::PublicIps(Ok(Some(_))) => Some(Stage::PublicIps),
            Event::Snapshots(Ok(Some(_))) => Some(Stage::Snapshots),
            _ => None,
        }
    }
}

impl Input {
    /// What is worth a warning about an event of a fetch.
    pub fn fetch_notices<E>(&self, event: &Event<E>) -> (notices: Vec<Notice>)
        ensures
            noticed(notices@) == self@.fetch_notices(*event),
    {
        match event {
            Event::Catalog(Ok(answer)) => match answer {
                None => optional(Some(Notice::NoCatalog)),
                Some(catalog) => match &catalog.entries {
                    None => optional(Some(Notice::NoCatalogEntries)),
                    Some(entries) => entry_notices(entries),
                },
            },
            Event::Accounts(Ok(answer)) => first_items_notices(
                answer,
                Notice::NoAccounts,
                Notice::EmptyAccounts,
            ),
            Event::Subregions(Ok(answer)) => first_items_notices(
                answer,
                Notice::NoSubregions,
                Notice::EmptySubregions,
            ),
            Event::Volumes(Ok(answer)) => missing_list_notices(answer, Notice::NoVolumes),
            Event::NatServices(Ok(answer)) => missing_list_notices(answer, Notice::NoNatServices),
            Event::PublicIps(Ok(answer)) => match answer {
                None => optional(Some(Notice::NoPublicIps)),
                Some(public_ips) => public_ip_id_notices(public_ips),
            },
            Event::Snapshots(Ok(answer)) => missing_list_notices(answer, Notice::NoSnapshots),
            _ => optional(None),
        }
    }

    /// Why the stage that comes after an event of a fetch is passed over, if that is
    /// worth a warning.
    pub fn skip_notice<E>(&self, event: &Event<E>) -> (notice: Option<Notice>)
        ensures
            contents(notice) == self@.skip_notice(*event),
    {
        match event {
            Event::PublicIps(Ok(_)) => if self.account_id().is_none() {
                Some(Notice::NoAccountId)
            } else {
                None
            },
            _ => None,
        }
    }

    /// Why the price of an operation is not known, if it is not.
    pub fn price_notice(&self, service: &str, type_: &str, operation: &str) -> (notice: Option<
        Notice,
    >)
        ensures
            contents(notice) == self@.price_notice(service@, type_@, operation@),
    {
        let id = forge_entry_id(service, type_, operation);
        match self.catalog.get(id.as_str()) {
            Some(entry) => if entry.unit_price.is_none() {
                Some(Notice::NoPrice(id))
            } else {
                None
            },
            None => Some(Notice::NoCatalogEntry(id)),
        }
    }

    /// What is worth a warning about a volume.
    pub fn volume_notices(&self, volume: &Volume) -> (notices: Vec<Notice>)
        ensures
            noticed(notices@) == self@.volume_notices(*volume),
    {
        let volume_type = match &volume.volume_type {
            Some(volume_type) => volume_type,
            None => return optional(Some(Notice::VolumeWithoutType)),
        };
        let charged = volume_type.eq(&"io1".to_owned());
        let mut notices = if charged && volume.iops.is_none() {
            optional(Some(Notice::VolumeWithoutIops))
        } else {
            optional(None)
        };
        if volume.size.is_none() {
            extend(&mut notices, optional(Some(Notice::VolumeWithoutSize)));
            return notices;
        }
        let usage = "BSU:VolumeUsage:".to_owned().concat(volume_type.as_str());
        let gb_price = self.price_notice("TinaOS-FCU", usage.as_str(), "CreateVolume");
        if gb_price.is_some() || !charged {
            extend(&mut notices, optional(gb_price));
        } else {
            let provisioned = "BSU:VolumeIOPS:".to_owned().concat(volume_type.as_str());
            let iops_price = self.price_notice("TinaOS-FCU", provisioned.as_str(), "CreateVolume");
            extend(&mut notices, optional(iops_price));
        }
        notices
    }

    /// What is worth a warning about a NAT service.
    pub fn nat_service_notices(&self, key: &String, nat_service: &NatService) -> (notices: Vec<
        Notice,
    >)
        ensures
            noticed(notices@) == self@.nat_service_notices(key@, *nat_service),
    {
        let mut notices = optional(
            self.price_notice("TinaOS-FCU", "NatGatewayUsage", "CreateNatGateway"),
        );
        let unidentified = if nat_service.nat_service_id.is_none() {
            Some(Notice::NatServiceWithoutId(key.clone()))
        } else {
            None
        };
        extend(&mut notices, optional(unidentified));
        notices
    }

    /// Why a public IP is not listed, if it is not.
    pub fn public_ip_notice(&self, id: &String, public_ip: &PublicIp) -> (notice: Option<Notice>)
        ensures
            contents(notice) == self@.public_ip_notice(id@, *public_ip),
    {
        let address = match &public_ip.public_ip {
            Some(address) => address,
            None => return Some(Notice::PublicIpWithoutAddress(id.clone())),
        };
        match &public_ip.vm_id {
            None => self.price_notice("TinaOS-FCU", "ElasticIP:IdleAddress", "AssociateAddressVPC"),
            Some(vm_id) => match self.vms.get(vm_id.as_str()) {
                None => Some(Notice::UnknownVm(vm_id.clone(), address.clone(), id.clone())),
                Some(vm) => match &vm.public_ip {
                    None => Some(Notice::VmWithoutAddress(vm_id.clone(), address.clone())),
                    Some(vm_address) => if vm_address.eq(address) {
                        None
                    } else {
                        self.price_notice(
                            "TinaOS-FCU",
                            "ElasticIP:AdditionalAddress",
                            "AssociateAddressVPC",
                        )
                    },
                },
            },
        }
    }

    /// Why the snapshots are not listed, if they are not.
    pub fn snapshot_notices(&self) -> (notices: Vec<Notice>)
        ensures
            noticed(notices@) == self@.snapshot_notices(),
    {
        let mut notices: Vec<Notice> = Vec::new();
        if let Some(notice) = self.price_notice("TinaOS-FCU", "Snapshot:Usage", "Snapshot") {
            notices.push(notice);
            notices.push(Notice::NoSnapshotPrice);
        }
        assert(noticed(notices@) =~= self@.snapshot_notices());
        notices
    }

    /// What is worth a warning about the volumes.
    fn volumes_notices(&self) -> (notices: Vec<Notice>)
        ensures
            noticed(notices@) == flat_map(self@.volumes, self@.volume_row_notices()),
    {
        let ghost f = self@.volume_row_notices();
        let ghost rows = self.volumes@;
        let mut notices: Vec<Notice> = Vec::new();
        assert(noticed(notices@) =~= flat_map(rows.take(0), f));
        let mut at: usize = 0;
        while at < self.volumes.len()
            invariant
                at <= rows.len(),
                rows == self.volumes@,
                f == self@.volume_row_notices(),
                noticed(notices@) == flat_map(rows.take(at as int), f),
            decreases rows.len() - at,
        {
            proof {
                lemma_flat_map_take(rows, at as int, f);
            }
            let (_, volume) = self.volumes.row(at);
            extend(&mut notices, self.volume_notices(volume));
            at = at + 1;
        }
        assert(rows.take(rows.len() as int) =~= rows);
        notices
    }

    /// What is worth a warning about the public IPs.
    fn listed_public_ips_notices(&self) -> (notices: Vec<Notice>)
        ensures
            noticed(notices@) == flat_map(self@.public_ips, self@.public_ip_row_notices()),
    {
        let ghost f = self@.public_ip_row_notices();
        let ghost rows = self.public_ips@;
        let mut notices: Vec<Notice> = Vec::new();
        assert(noticed(notices@) =~= flat_map(rows.take(0), f));
        let mut at: usize = 0;
        while at < self.public_ips.len()
            invariant
                at <= rows.len(),
                rows == self.public_ips@,
                f == self@.public_ip_row_notices(),
                noticed(notices@) == flat_map(rows.take(at as int), f),
            decreases rows.len() - at,
        {
            proof {
                lemma_flat_map_take(rows, at as int, f);
            }
            let (id, public_ip) = self.public_ips.row(at);
            extend(&mut notices, optional(self.public_ip_notice(id, public_ip)));
            at = at + 1;
        }
        assert(rows.take(rows.len() as int) =~= rows);
        notices
    }

    /// What is worth a warning about the NAT services.
    fn nat_services_notices(&self) -> (notices: Vec<Notice>)
        ensures
            noticed(notices@) == flat_map(self@.nat_services, self@.nat_service_row_notices()),
    {
        let ghost f = self@.nat_service_row_notices();
        let ghost rows = self.nat_services@;
        let mut notices: Vec<Notice> = Vec::new();
        assert(noticed(notices@) =~= flat_map(rows.take(0), f));
        let mut at: usize = 0;
        while at < self.nat_services.len()
            invariant
                at <= rows.len(),
                rows == self.nat_services@,
                f == self@.nat_service_row_notices(),
                noticed(notices@) == flat_map(rows.take(at as int), f),
            decreases rows.len() - at,
        {
            proof {
                lemma_flat_map_take(rows, at as int, f);
            }
            let (key, nat_service) = self.nat_services.row(at);
            extend(&mut notices, self.nat_service_notices(key, nat_service));
            at = at + 1;
        }
        assert(rows.take(rows.len() as int) =~= rows);
        notices
    }

    /// What is worth a warning about a listing.
    pub fn listing_notices(&self) -> (notices: Vec<Notice>)
        ensures
            noticed(notices@) == self@.listing_notices(),
    {
        let mut notices = self.volumes_notices();
        extend(&mut notices, self.listed_public_ips_notices());
        extend(&mut notices, self.snapshot_notices());
        extend(&mut notices, self.nat_services_notices());
        notices
    }
}

} // verus!
