//! How the inventory turns into priced resources.
use vstd::prelude::*;

use super::pricing::{fcu, PublicIpCharge, VolumeSpecs};
use super::{Input, InputView};
use crate::model;
use crate::model::{contents, copy_text, Price};
use crate::resource;
use crate::resource::{other_resources, Resource, ResourceView, Resources};
use crate::VERSION;

verus! {

/// What `f` makes of each of `items`, in order, without those of which it makes
/// nothing.
pub open spec fn filter_map<A, B>(items: Seq<A>, f: spec_fn(A) -> Option<B>) -> Seq<B>
    decreases items.len(),
{
    if items.len() == 0 {
        Seq::empty()
    } else {
        let earlier = filter_map(items.drop_last(), f);
        match f(items.last()) {
            Some(made) => earlier.push(made),
            None => earlier,
        }
    }
}

/// What `f` makes of one item more comes last.
pub(crate) proof fn lemma_filter_map_take<A, B>(items: Seq<A>, at: int, f: spec_fn(A) -> Option<B>)
    requires
        0 <= at < items.len(),
    ensures
        filter_map(items.take(at + 1), f) == match f(items[at]) {
            Some(made) => filter_map(items.take(at), f).push(made),
            None => filter_map(items.take(at), f),
        },
{
    assert(items.take(at + 1).drop_last() =~= items.take(at));
}

impl InputView {
    /// The text of the date at which the inventory was read.
    pub open spec fn read_date(self) -> Option<Seq<char>> {
        match self.fetch_date {
            Some(date) => Some(date.spec_rfc3339()),
            None => None,
        }
    }

    /// What a volume is listed as, where its prices are known.
    pub open spec fn volume_resource(
        self,
        read_date: Option<Seq<char>>,
        id: Seq<char>,
        volume: model::Volume,
    ) -> Option<resource::VolumeView> {
        match self.volume_specs(volume) {
            Some(specs) => Some(
                resource::VolumeView {
                    osc_cost_version: Some(VERSION@),
                    account_id: self.account_id(),
                    read_date_rfc3339: read_date,
                    region: contents(self.region),
                    resource_id: Some(id),
                    price_per_hour: None,
                    price_per_month: None,
                    volume_type: Some(specs.volume_type),
                    volume_iops: Some(specs.iops),
                    volume_size: Some(specs.size),
                    price_gb_per_month: specs.price_gb_per_month,
                    price_iops_per_month: specs.price_iops_per_month,
                },
            ),
            None => None,
        }
    }

    /// How a row of the volumes is listed.
    pub open spec fn volume_row<X>(self, read_date: Option<Seq<char>>) -> spec_fn(
        (Seq<char>, model::Volume),
    ) -> Option<ResourceView<X>> {
        |row: (Seq<char>, model::Volume)|
            match self.volume_resource(read_date, row.0, row.1) {
                Some(volume) => Some(ResourceView::Volume(volume)),
                None => None,
            }
    }

    /// What the volumes are listed as.
    pub open spec fn volume_resources<X>(self, read_date: Option<Seq<char>>) -> Seq<
        ResourceView<X>,
    > {
        filter_map(self.volumes, self.volume_row(read_date))
    }

    /// What a NAT service is listed as, where it has an identifier of its own. An
    /// unknown price is listed as such.
    pub open spec fn nat_service_resource(
        self,
        read_date: Option<Seq<char>>,
        nat_service: model::NatService,
    ) -> Option<resource::NatServicesView> {
        match nat_service.nat_service_id {
            Some(id) => Some(
                resource::NatServicesView {
                    osc_cost_version: Some(VERSION@),
                    account_id: self.account_id(),
                    read_date_rfc3339: read_date,
                    region: contents(self.region),
                    resource_id: Some(id@),
                    price_per_hour: None,
                    price_per_month: None,
                    price_product_per_nat_service_per_hour: self.price(
                        fcu(),
                        "NatGatewayUsage"@,
                        "CreateNatGateway"@,
                    ),
                },
            ),
            None => None,
        }
    }

    /// How a row of the NAT services is listed.
    pub open spec fn nat_service_row<X>(self, read_date: Option<Seq<char>>) -> spec_fn(
        (Seq<char>, model::NatService),
    ) -> Option<ResourceView<X>> {
        |row: (Seq<char>, model::NatService)|
            match self.nat_service_resource(read_date, row.1) {
                Some(nat_service) => Some(ResourceView::NatServices(nat_service)),
                None => None,
            }
    }

    /// What the NAT services are listed as.
    pub open spec fn nat_service_resources<X>(self, read_date: Option<Seq<char>>) -> Seq<
        ResourceView<X>,
    > {
        filter_map(self.nat_services, self.nat_service_row(read_date))
    }

    /// What a public IP is listed as, where it is known what it is charged by.
    pub open spec fn public_ip_resource(
        self,
        read_date: Option<Seq<char>>,
        id: Seq<char>,
        public_ip: model::PublicIp,
    ) -> Option<resource::PublicIpView> {
        match self.public_ip_charge(public_ip) {
            Some(charge) => Some(
                resource::PublicIpView {
                    osc_cost_version: Some(VERSION@),
                    account_id: self.account_id(),
                    read_date_rfc3339: read_date,
                    region: contents(self.region),
                    resource_id: Some(id),
                    price_per_hour: None,
                    price_per_month: None,
                    price_non_attached: match charge {
                        PublicIpCharge::NonAttached(price) => Some(price),
                        _ => None,
                    },
                    price_first_ip: match charge {
                        PublicIpCharge::FirstIp => Some(Price::spec_zero()),
                        _ => None,
                    },
                    price_next_ips: match charge {
                        PublicIpCharge::NextIp(price) => Some(price),
                        _ => None,
                    },
                },
            ),
            None => None,
        }
    }

    /// How a row of the public IPs is listed.
    pub open spec fn public_ip_row<X>(self, read_date: Option<Seq<char>>) -> spec_fn(
        (Seq<char>, model::PublicIp),
    ) -> Option<ResourceView<X>> {
        |row: (Seq<char>, model::PublicIp)|
            match self.public_ip_resource(read_date, row.0, row.1) {
                Some(public_ip) => Some(ResourceView::PublicIp(public_ip)),
                None => None,
            }
    }

    /// What the public IPs are listed as.
    pub open spec fn public_ip_resources<X>(self, read_date: Option<Seq<char>>) -> Seq<
        ResourceView<X>,
    > {
        filter_map(self.public_ips, self.public_ip_row(read_date))
    }

    /// What a snapshot is listed as, at the price `price_gb_per_month`.
    pub open spec fn snapshot_resource(
        self,
        read_date: Option<Seq<char>>,
        price_gb_per_month: Price,
        id: Seq<char>,
        snapshot: model::Snapshot,
    ) -> resource::SnapshotView {
        resource::SnapshotView {
            osc_cost_version: Some(VERSION@),
            account_id: self.account_id(),
            read_date_rfc3339: read_date,
            region: contents(self.region),
            resource_id: Some(id),
            price_per_hour: None,
            price_per_month: None,
            volume_size_gib: snapshot.volume_size,
            price_gb_per_month,
        }
    }

    /// What the snapshots are listed as: none of them where their price is not
    /// known, all of them otherwise.
    pub open spec fn snapshot_resources<X>(self, read_date: Option<Seq<char>>) -> Seq<
        ResourceView<X>,
    > {
        match self.snapshot_price() {
            Some(price) => self.snapshots.map_values(
                |row: (Seq<char>, model::Snapshot)|
                    ResourceView::Snapshot(self.snapshot_resource(read_date, price, row.0, row.1)),
            ),
            None => Seq::empty(),
        }
    }
}

impl Input {
    /// The text of the date at which the inventory was read.
    pub fn read_date(&self) -> (read_date: Option<String>)
        ensures
            contents(read_date) == self@.read_date(),
    {
        match &self.fetch_date {
            Some(date) => Some(date.to_rfc3339()),
            None => None,
        }
    }

    /// What a volume is listed as.
    pub fn volume_resource(
        &self,
        read_date: &Option<String>,
        id: &String,
        volume: &model::Volume,
    ) -> (listed: Option<resource::Volume>)
        ensures
            contents(listed) == self@.volume_resource(contents(*read_date), id@, *volume),
    {
        let specs = match VolumeSpecs::new(volume, self) {
            Some(specs) => specs,
            None => return None,
        };
        Some(resource::Volume {
            osc_cost_version: Some(VERSION.to_owned()),
            account_id: self.account_id(),
            read_date_rfc3339: copy_text(read_date),
            region: copy_text(&self.region),
            resource_id: Some(id.clone()),
            price_per_hour: None,
            price_per_month: None,
            volume_type: Some(specs.volume_type),
            volume_iops: Some(specs.iops),
            volume_size: Some(specs.size),
            price_gb_per_month: specs.price_gb_per_month,
            price_iops_per_month: specs.price_iops_per_month,
        })
    }

    /// What a NAT service is listed as.
    pub fn nat_service_resource(
        &self,
        read_date: &Option<String>,
        nat_service: &model::NatService,
    ) -> (listed: Option<resource::NatServices>)
        ensures
            contents(listed) == self@.nat_service_resource(contents(*read_date), *nat_service),
    {
        let price_product_per_nat_service_per_hour = self.catalog_entry(
            "TinaOS-FCU",
            "NatGatewayUsage",
            "CreateNatGateway",
        );
        let nat_service_id = match &nat_service.nat_service_id {
            Some(nat_service_id) => nat_service_id,
            None => return None,
        };
        Some(resource::NatServices {
            osc_cost_version: Some(VERSION.to_owned()),
            account_id: self.account_id(),
            read_date_rfc3339: copy_text(read_date),
            region: copy_text(&self.region),
            resource_id: Some(nat_service_id.clone()),
            price_per_hour: None,
            price_per_month: None,
            price_product_per_nat_service_per_hour,
        })
    }

    /// What a public IP is listed as.
    pub fn public_ip_resource(
        &self,
        read_date: &Option<String>,
        id: &String,
        public_ip: &model::PublicIp,
    ) -> (listed: Option<resource::PublicIp>)
        ensures
            contents(listed) == self@.public_ip_resource(contents(*read_date), id@, *public_ip),
    {
        let charge = match self.public_ip_charge(public_ip) {
            Some(charge) => charge,
            None => return None,
        };
        let mut price_non_attached: Option<Price> = None;
        let mut price_first_ip: Option<Price> = None;
        let mut price_next_ips: Option<Price> = None;
        match charge {
            PublicIpCharge::NonAttached(price) => price_non_attached = Some(price),
            PublicIpCharge::FirstIp => price_first_ip = Some(Price::zero()),
            PublicIpCharge::NextIp(price) => price_next_ips = Some(price),
        }
        Some(resource::PublicIp {
            osc_cost_version: Some(VERSION.to_owned()),
            account_id: self.account_id(),
            read_date_rfc3339: copy_text(read_date),
            region: copy_text(&self.region),
            resource_id: Some(id.clone()),
            price_per_hour: None,
            price_per_month: None,
            price_non_attached,
            price_first_ip,
            price_next_ips,
        })
    }

    /// What a snapshot is listed as, at the price `price_gb_per_month`.
    pub fn snapshot_resource(
        &self,
        read_date: &Option<String>,
        price_gb_per_month: Price,
        id: &String,
        snapshot: &model::Snapshot,
    ) -> (listed: resource::Snapshot)
        ensures
            listed@ == self@.snapshot_resource(
                contents(*read_date),
                price_gb_per_month,
                id@,
                *snapshot,
            ),
    {
        resource::Snapshot {
            osc_cost_version: Some(VERSION.to_owned()),
            account_id: self.account_id(),
            read_date_rfc3339: copy_text(read_date),
            region: copy_text(&self.region),
            resource_id: Some(id.clone()),
            price_per_hour: None,
            price_per_month: None,
            volume_size_gib: snapshot.volume_size,
            price_gb_per_month,
        }
    }

    /// Lists the volumes, as read at the date `read_date`.
    pub fn fill_resource_volume_at<X>(
        &self,
        read_date: &Option<String>,
        resources: &mut Resources<X>,
    )
        ensures
            final(resources)@ == old(resources)@ + self@.volume_resources(contents(*read_date)),
    {
        let ghost before = resources@;
        let ghost f = self@.volume_row::<X>(contents(*read_date));
        let ghost rows = self.volumes@;
        assert(filter_map(rows.take(0), f) =~= Seq::empty());
        let mut at: usize = 0;
        while at < self.volumes.len()
            invariant
                at <= rows.len(),
                rows == self.volumes@,
                f == self@.volume_row::<X>(contents(*read_date)),
                resources@ == before + filter_map(rows.take(at as int), f),
            decreases rows.len() - at,
        {
            proof {
                lemma_filter_map_take(rows, at as int, f);
            }
            let (id, item) = self.volumes.row(at);
            match self.volume_resource(read_date, id, item) {
                Some(listed) => resources.push(Resource::Volume(listed)),
                None => {},
            }
            at = at + 1;
        }
        assert(rows.take(rows.len() as int) =~= rows);
    }

    /// Lists the volumes.
    pub fn fill_resource_volume<X>(&self, resources: &mut Resources<X>)
        ensures
            final(resources)@ == old(resources)@ + self@.volume_resources(self@.read_date()),
    {
        let read_date = self.read_date();
        self.fill_resource_volume_at(&read_date, resources);
    }

    /// Lists the NAT services, as read at the date `read_date`.
    pub fn fill_resource_nat_service_at<X>(
        &self,
        read_date: &Option<String>,
        resources: &mut Resources<X>,
    )
        ensures
            final(resources)@ == old(resources)@ + self@.nat_service_resources(contents(*read_date)),
    {
        let ghost before = resources@;
        let ghost f = self@.nat_service_row::<X>(contents(*read_date));
        let ghost rows = self.nat_services@;
        assert(filter_map(rows.take(0), f) =~= Seq::empty());
        let mut at: usize = 0;
        while at < self.nat_services.len()
            invariant
                at <= rows.len(),
                rows == self.nat_services@,
                f == self@.nat_service_row::<X>(contents(*read_date)),
                resources@ == before + filter_map(rows.take(at as int), f),
            decreases rows.len() - at,
        {
            proof {
                lemma_filter_map_take(rows, at as int, f);
            }
            let (_, item) = self.nat_services.row(at);
            match self.nat_service_resource(read_date, item) {
                Some(listed) => resources.push(Resource::NatServices(listed)),
                None => {},
            }
            at = at + 1;
        }
        assert(rows.take(rows.len() as int) =~= rows);
    }

    /// Lists the NAT services.
    pub fn fill_resource_nat_service<X>(&self, resources: &mut Resources<X>)
        ensures
            final(resources)@ == old(resources)@ + self@.nat_service_resources(self@.read_date()),
    {
        let read_date = self.read_date();
        self.fill_resource_nat_service_at(&read_date, resources);
    }

    /// Lists the public IPs, as read at the date `read_date`.
    pub fn fill_resource_public_ip_at<X>(
        &self,
        read_date: &Option<String>,
        resources: &mut Resources<X>,
    )
        ensures
            final(resources)@ == old(resources)@ + self@.public_ip_resources(contents(*read_date)),
    {
        let ghost before = resources@;
        let ghost f = self@.public_ip_row::<X>(contents(*read_date));
        let ghost rows = self.public_ips@;
        assert(filter_map(rows.take(0), f) =~= Seq::empty());
        let mut at: usize = 0;
        while at < self.public_ips.len()
            invariant
                at <= rows.len(),
                rows == self.public_ips@,
                f == self@.public_ip_row::<X>(contents(*read_date)),
                resources@ == before + filter_map(rows.take(at as int), f),
            decreases rows.len() - at,
        {
            proof {
                lemma_filter_map_take(rows, at as int, f);
            }
            let (id, item) = self.public_ips.row(at);
            match self.public_ip_resource(read_date, id, item) {
                Some(listed) => resources.push(Resource::PublicIp(listed)),
                None => {},
            }
            at = at + 1;
        }
        assert(rows.take(rows.len() as int) =~= rows);
    }

    /// Lists the public IPs.
    pub fn fill_resource_public_ip<X>(&self, resources: &mut Resources<X>)
        ensures
            final(resources)@ == old(resources)@ + self@.public_ip_resources(self@.read_date()),
    {
        let read_date = self.read_date();
        self.fill_resource_public_ip_at(&read_date, resources);
    }

    /// Lists the snapshots, as read at the date `read_date`.
    pub fn fill_resource_snapshot_at<X>(
        &self,
        read_date: &Option<String>,
        resources: &mut Resources<X>,
    )
        ensures
            final(resources)@ == old(resources)@ + self@.snapshot_resources(contents(*read_date)),
    {
        let ghost before = resources@;
        let price = match self.catalog_entry("TinaOS-FCU", "Snapshot:Usage", "Snapshot") {
            Some(price) => price,
            None => {
                assert(before + Seq::<ResourceView<X>>::empty() =~= before);
                return;
            },
        };
        let ghost listed = self@.snapshot_resources::<X>(contents(*read_date));
        let mut at: usize = 0;
        while at < self.snapshots.len()
            invariant
                at <= listed.len(),
                listed == self@.snapshot_resources::<X>(contents(*read_date)),
                self@.snapshot_price() == Some(price),
                resources@ == before + listed.take(at as int),
            decreases listed.len() - at,
        {
            let (id, snapshot) = self.snapshots.row(at);
            assert(before + listed.take(at + 1) =~= (before + listed.take(at as int)).push(
                listed[at as int],
            ));
            resources.push(
                Resource::Snapshot(self.snapshot_resource(read_date, price, id, snapshot)),
            );
            at = at + 1;
        }
        assert(listed.take(listed.len() as int) =~= listed);
    }

    /// Lists the snapshots.
    pub fn fill_resource_snapshot<X>(&self, resources: &mut Resources<X>)
        ensures
            final(resources)@ == old(resources)@ + self@.snapshot_resources(self@.read_date()),
    {
        let read_date = self.read_date();
        self.fill_resource_snapshot_at(&read_date, resources);
    }
}

/// The resources that are priced elsewhere, by kind.
#[derive(Debug, PartialEq)]
pub struct OtherResources<X> {
    pub vms: Vec<X>,
    pub flexible_gpus: Vec<X>,
    pub load_balancers: Vec<X>,
    pub vpns: Vec<X>,
    pub oos: Vec<X>,
}

impl InputView {
    /// What the inventory is listed as: the VMs, then the volumes, the public
    /// IPs, the snapshots and the NAT services, then the flexible GPUs, the load
    /// balancers, the VPNs and the buckets.
    pub open spec fn resources<X>(
        self,
        read_date: Option<Seq<char>>,
        others: OtherResources<X>,
    ) -> Seq<ResourceView<X>> {
        other_resources(others.vms@) + self.volume_resources(read_date) + self.public_ip_resources(
            read_date,
        ) + self.snapshot_resources(read_date) + self.nat_service_resources(read_date)
            + other_resources(others.flexible_gpus@) + other_resources(others.load_balancers@)
            + other_resources(others.vpns@) + other_resources(others.oos@)
    }
}

impl<X> Resources<X> {
    /// Lists an inventory, as read at the date `read_date`, together with the
    /// resources that are priced elsewhere.
    pub fn from_at(
        input: &Input,
        read_date: &Option<String>,
        others: OtherResources<X>,
    ) -> (resources: Resources<X>)
        ensures
            resources@ == input@.resources(contents(*read_date), others),
    {
        let mut resources = Resources::new();
        resources.push_others(others.vms);
        assert(resources@ =~= other_resources(others.vms@));
        input.fill_resource_volume_at(read_date, &mut resources);
        input.fill_resource_public_ip_at(read_date, &mut resources);
        input.fill_resource_snapshot_at(read_date, &mut resources);
        input.fill_resource_nat_service_at(read_date, &mut resources);
        resources.push_others(others.flexible_gpus);
        resources.push_others(others.load_balancers);
        resources.push_others(others.vpns);
        resources.push_others(others.oos);
        resources
    }

    /// Lists an inventory together with the resources that are priced elsewhere.
    pub fn from(input: Input, others: OtherResources<X>) -> (resources: Resources<X>)
        ensures
            resources@ == input@.resources(input@.read_date(), others),
    {
        let read_date = input.read_date();
        Resources::from_at(&input, &read_date, others)
    }
}

} // verus!
