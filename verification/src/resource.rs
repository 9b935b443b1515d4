//! The priced resources that an inventory turns into.
use vstd::prelude::*;

use crate::model::{contents, Price};

verus! {

/// A block storage volume.
#[derive(Debug, PartialEq)]
pub struct Volume {
    pub osc_cost_version: Option<String>,
    pub account_id: Option<String>,
    pub read_date_rfc3339: Option<String>,
    pub region: Option<String>,
    pub resource_id: Option<String>,
    pub price_per_hour: Option<Price>,
    pub price_per_month: Option<Price>,
    pub volume_type: Option<String>,
    pub volume_iops: Option<i32>,
    pub volume_size: Option<i32>,
    pub price_gb_per_month: Price,
    pub price_iops_per_month: Price,
}

/// The contents of a [`Volume`].
#[verifier::ext_equal]
pub struct VolumeView {
    pub osc_cost_version: Option<Seq<char>>,
    pub account_id: Option<Seq<char>>,
    pub read_date_rfc3339: Option<Seq<char>>,
    pub region: Option<Seq<char>>,
    pub resource_id: Option<Seq<char>>,
    pub price_per_hour: Option<Price>,
    pub price_per_month: Option<Price>,
    pub volume_type: Option<Seq<char>>,
    pub volume_iops: Option<i32>,
    pub volume_size: Option<i32>,
    pub price_gb_per_month: Price,
    pub price_iops_per_month: Price,
}

impl View for Volume {
    type V = VolumeView;

    open spec fn view(&self) -> VolumeView {
        VolumeView {
            osc_cost_version: contents(self.osc_cost_version),
            account_id: contents(self.account_id),
            read_date_rfc3339: contents(self.read_date_rfc3339),
            region: contents(self.region),
            resource_id: contents(self.resource_id),
            price_per_hour: self.price_per_hour,
            price_per_month: self.price_per_month,
            volume_type: contents(self.volume_type),
            volume_iops: self.volume_iops,
            volume_size: self.volume_size,
            price_gb_per_month: self.price_gb_per_month,
            price_iops_per_month: self.price_iops_per_month,
        }
    }
}

/// A NAT service.
#[derive(Debug, PartialEq)]
pub struct NatServices {
    pub osc_cost_version: Option<String>,
    pub account_id: Option<String>,
    pub read_date_rfc3339: Option<String>,
    pub region: Option<String>,
    pub resource_id: Option<String>,
    pub price_per_hour: Option<Price>,
    pub price_per_month: Option<Price>,
    pub price_product_per_nat_service_per_hour: Option<Price>,
}

/// The contents of a [`NatServices`].
#[verifier::ext_equal]
pub struct NatServicesView {
    pub osc_cost_version: Option<Seq<char>>,
    pub account_id: Option<Seq<char>>,
    pub read_date_rfc3339: Option<Seq<char>>,
    pub region: Option<Seq<char>>,
    pub resource_id: Option<Seq<char>>,
    pub price_per_hour: Option<Price>,
    pub price_per_month: Option<Price>,
    pub price_product_per_nat_service_per_hour: Option<Price>,
}

impl View for NatServices {
    type V = NatServicesView;

    open spec fn view(&self) -> NatServicesView {
        NatServicesView {
            osc_cost_version: contents(self.osc_cost_version),
            account_id: contents(self.account_id),
            read_date_rfc3339: contents(self.read_date_rfc3339),
            region: contents(self.region),
            resource_id: contents(self.resource_id),
            price_per_hour: self.price_per_hour,
            price_per_month: self.price_per_month,
            price_product_per_nat_service_per_hour: self.price_product_per_nat_service_per_hour,
        }
    }
}

/// A public IP address, with the price of the one case that it is in.
#[derive(Debug, PartialEq)]
pub struct PublicIp {
    pub osc_cost_version: Option<String>,
    pub account_id: Option<String>,
    pub read_date_rfc3339: Option<String>,
    pub region: Option<String>,
    pub resource_id: Option<String>,
    pub price_per_hour: Option<Price>,
    pub price_per_month: Option<Price>,
    pub price_non_attached: Option<Price>,
    pub price_first_ip: Option<Price>,
    pub price_next_ips: Option<Price>,
}

/// The contents of a [`PublicIp`].
#[verifier::ext_equal]
pub struct PublicIpView {
    pub osc_cost_version: Option<Seq<char>>,
    pub account_id: Option<Seq<char>>,
    pub read_date_rfc3339: Option<Seq<char>>,
    pub region: Option<Seq<char>>,
    pub resource_id: Option<Seq<char>>,
    pub price_per_hour: Option<Price>,
    pub price_per_month: Option<Price>,
    pub price_non_attached: Option<Price>,
    pub price_first_ip: Option<Price>,
    pub price_next_ips: Option<Price>,
}

impl View for PublicIp {
    type V = PublicIpView;

    open spec fn view(&self) -> PublicIpView {
        PublicIpView {
            osc_cost_version: contents(self.osc_cost_version),
            account_id: contents(self.account_id),
            read_date_rfc3339: contents(self.read_date_rfc3339),
            region: contents(self.region),
            resource_id: contents(self.resource_id),
            price_per_hour: self.price_per_hour,
            price_per_month: self.price_per_month,
            price_non_attached: self.price_non_attached,
            price_first_ip: self.price_first_ip,
            price_next_ips: self.price_next_ips,
        }
    }
}

/// A snapshot of a volume.
#[derive(Debug, PartialEq)]
pub struct Snapshot {
    pub osc_cost_version: Option<String>,
    pub account_id: Option<String>,
    pub read_date_rfc3339: Option<String>,
    pub region: Option<String>,
    pub resource_id: Option<String>,
    pub price_per_hour: Option<Price>,
    pub price_per_month: Option<Price>,
    pub volume_size_gib: Option<i32>,
    pub price_gb_per_month: Price,
}

/// The contents of a [`Snapshot`].
#[verifier::ext_equal]
pub struct SnapshotView {
    pub osc_cost_version: Option<Seq<char>>,
    pub account_id: Option<Seq<char>>,
    pub read_date_rfc3339: Option<Seq<char>>,
    pub region: Option<Seq<char>>,
    pub resource_id: Option<Seq<char>>,
    pub price_per_hour: Option<Price>,
    pub price_per_month: Option<Price>,
    pub volume_size_gib: Option<i32>,
    pub price_gb_per_month: Price,
}

impl View for Snapshot {
    type V = SnapshotView;

    open spec fn view(&self) -> SnapshotView {
        SnapshotView {
            osc_cost_version: contents(self.osc_cost_version),
            account_id: contents(self.account_id),
            read_date_rfc3339: contents(self.read_date_rfc3339),
            region: contents(self.region),
            resource_id: contents(self.resource_id),
            price_per_hour: self.price_per_hour,
            price_per_month: self.price_per_month,
            volume_size_gib: self.volume_size_gib,
            price_gb_per_month: self.price_gb_per_month,
        }
    }
}

/// A priced resource. The kinds that are priced elsewhere are carried along as
/// `Other`.
#[derive(Debug, PartialEq)]
pub enum Resource<X> {
    Volume(Volume),
    NatServices(NatServices),
    PublicIp(PublicIp),
    Snapshot(Snapshot),
    Other(X),
}

/// The contents of a [`Resource`].
#[verifier::ext_equal]
pub enum ResourceView<X> {
    Volume(VolumeView),
    NatServices(NatServicesView),
    PublicIp(PublicIpView),
    Snapshot(SnapshotView),
    Other(X),
}

impl<X> View for Resource<X> {
    type V = ResourceView<X>;

    open spec fn view(&self) -> ResourceView<X> {
        match self {
            Resource::Volume(volume) => ResourceView::Volume(volume@),
            Resource::NatServices(nat_service) => ResourceView::NatServices(nat_service@),
            Resource::PublicIp(public_ip) => ResourceView::PublicIp(public_ip@),
            Resource::Snapshot(snapshot) => ResourceView::Snapshot(snapshot@),
            Resource::Other(other) => ResourceView::Other(*other),
        }
    }
}

/// The priced resources of an account, in the order in which they were listed.
#[derive(Debug, PartialEq)]
pub struct Resources<X> {
    pub resources: Vec<Resource<X>>,
}

impl<X> View for Resources<X> {
    type V = Seq<ResourceView<X>>;

    open spec fn view(&self) -> Seq<ResourceView<X>> {
        self.resources@.map_values(|resource: Resource<X>| resource@)
    }
}

/// The resources of `others`, as listed resources.
pub open spec fn other_resources<X>(others: Seq<X>) -> Seq<ResourceView<X>> {
    others.map_values(|other: X| ResourceView::Other(other))
}

impl<X> Resources<X> {
    /// No resource.
    pub fn new() -> (resources: Self)
        ensures
            resources@ == Seq::<ResourceView<X>>::empty(),
    {
        let resources = Resources { resources: Vec::new() };
        assert(resources@ =~= Seq::<ResourceView<X>>::empty());
        resources
    }

    /// Lists `resource` last.
    pub fn push(&mut self, resource: Resource<X>)
        ensures
            final(self)@ == old(self)@.push(resource@),
    {
        self.resources.push(resource);
        assert(self@ =~= old(self)@.push(resource@));
    }

    /// Lists the resources that were priced elsewhere, in order.
    pub fn push_others(&mut self, others: Vec<X>)
        ensures
            final(self)@ == old(self)@ + other_resources(others@),
    {
        let ghost before = self@;
        let ghost all = others@;
        assert(before =~= before + other_resources(all.take(0)));
        for other in it: others
            invariant
                it.seq() == all,
                self@ == before + other_resources(all.take(it.index())),
        {
            proof {
                assert(other_resources(all.take(it.index() + 1)) =~= other_resources(
                    all.take(it.index()),
                ).push(ResourceView::Other(other)));
                assert(before + other_resources(all.take(it.index() + 1)) =~= (before
                    + other_resources(all.take(it.index()))).push(ResourceView::Other(other)));
            }
            self.push(Resource::Other(other));
        }
        assert(all.take(all.len() as int) =~= all);
    }
}

} // verus!
