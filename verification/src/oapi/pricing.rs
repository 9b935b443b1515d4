//! The prices that apply to a resource.
use vstd::prelude::*;

use super::{Input, InputView};
use crate::model::{contents, Price, PublicIp, Volume};
use crate::table::lookup;

verus! {

/// The service that prices the resources listed here.
pub open spec fn fcu() -> Seq<char> {
    "TinaOS-FCU"@
}

/// A volume and the prices that apply to it.
#[derive(Debug, PartialEq)]
pub struct VolumeSpecs {
    pub volume_type: String,
    pub size: i32,
    pub iops: i32,
    pub price_gb_per_month: Price,
    pub price_iops_per_month: Price,
}

/// The contents of a [`VolumeSpecs`].
#[verifier::ext_equal]
pub struct VolumeSpecsView {
    pub volume_type: Seq<char>,
    pub size: i32,
    pub iops: i32,
    pub price_gb_per_month: Price,
    pub price_iops_per_month: Price,
}

impl View for VolumeSpecs {
    type V = VolumeSpecsView;

    open spec fn view(&self) -> VolumeSpecsView {
        VolumeSpecsView {
            volume_type: self.volume_type@,
            size: self.size,
            iops: self.iops,
            price_gb_per_month: self.price_gb_per_month,
            price_iops_per_month: self.price_iops_per_month,
        }
    }
}

impl InputView {
    /// The monthly price of a GiB on volumes of a type.
    pub open spec fn volume_gb_price(self, volume_type: Seq<char>) -> Option<Price> {
        self.price(fcu(), "BSU:VolumeUsage:"@ + volume_type, "CreateVolume"@)
    }

    /// The monthly price of an IOPS on volumes of a type: the type `io1` has one
    /// in the catalog, any other type keeps the price `otherwise`.
    pub open spec fn volume_iops_price(self, volume_type: Seq<char>, otherwise: Price) -> Option<
        Price,
    > {
        if volume_type == "io1"@ {
            self.price(fcu(), "BSU:VolumeIOPS:"@ + volume_type, "CreateVolume"@)
        } else {
            Some(otherwise)
        }
    }

    /// A volume and the prices that apply to it, where its type, its size and
    /// all of these prices are known. An unknown number of IOPS counts as none,
    /// and IOPS that are not charged for are free.
    pub open spec fn volume_specs(self, volume: Volume) -> Option<VolumeSpecsView> {
        match (volume.volume_type, volume.size) {
            (Some(volume_type), Some(size)) => match (
                self.volume_gb_price(volume_type@),
                self.volume_iops_price(volume_type@, Price::spec_zero()),
            ) {
                (Some(price_gb_per_month), Some(price_iops_per_month)) => Some(
                    VolumeSpecsView {
                        volume_type: volume_type@,
                        size,
                        iops: match volume.iops {
                            Some(iops) => iops,
                            None => 0,
                        },
                        price_gb_per_month,
                        price_iops_per_month,
                    },
                ),
                _ => None,
            },
            _ => None,
        }
    }
}

impl VolumeSpecs {
    /// Finds the prices that apply to a volume.
    pub fn new(volume: &Volume, input: &Input) -> (specs: Option<VolumeSpecs>)
        ensures
            contents(specs) == input@.volume_specs(*volume),
    {
        let volume_type = match &volume.volume_type {
            Some(volume_type) => volume_type,
            None => return None,
        };
        let iops = match volume.iops {
            Some(iops) => iops,
            None => 0,
        };
        let size = match volume.size {
            Some(size) => size,
            None => return None,
        };
        let out = VolumeSpecs {
            volume_type: volume_type.clone(),
            iops,
            size,
            price_gb_per_month: Price::zero(),
            price_iops_per_month: Price::zero(),
        };
        out.parse_volume_prices(input)
    }

    /// Fills in the prices that apply to the type of volume, where they are known.
    pub fn parse_volume_prices(self, input: &Input) -> (specs: Option<VolumeSpecs>)
        ensures
            match (
                input@.volume_gb_price(self.volume_type@),
                input@.volume_iops_price(self.volume_type@, self.price_iops_per_month),
            ) {
                (Some(price_gb_per_month), Some(price_iops_per_month)) => {
                    &&& specs is Some
                    &&& specs->0@ == VolumeSpecsView {
                        price_gb_per_month,
                        price_iops_per_month,
                        ..self@
                    }
                },
                _ => specs is None,
            },
    {
        let mut specs = self;
        let usage = "BSU:VolumeUsage:".to_owned().concat(specs.volume_type.as_str());
        let price_gb_per_month = match input.catalog_entry(
            "TinaOS-FCU",
            usage.as_str(),
            "CreateVolume",
        ) {
            Some(price) => price,
            None => return None,
        };
        if specs.volume_type.eq(&"io1".to_owned()) {
            let provisioned = "BSU:VolumeIOPS:".to_owned().concat(specs.volume_type.as_str());
            specs.price_iops_per_month =
            match input.catalog_entry("TinaOS-FCU", provisioned.as_str(), "CreateVolume") {
                Some(price) => price,
                None => return None,
            };
        }
        specs.price_gb_per_month = price_gb_per_month;
        Some(specs)
    }
}

/// The one case that a public IP is charged by.
#[derive(Clone, Copy, Debug, PartialEq, Eq, Structural)]
pub enum PublicIpCharge {
    /// It is attached to no VM.
    NonAttached(Price),
    /// It is the address of its VM, which is free.
    FirstIp,
    /// It is one more address of its VM.
    NextIp(Price),
}

impl InputView {
    /// What a public IP is charged by, where its address is known, its price is
    /// and, if it is attached, its VM and the address of that VM are.
    pub open spec fn public_ip_charge(self, public_ip: PublicIp) -> Option<PublicIpCharge> {
        match (public_ip.public_ip, public_ip.vm_id) {
            (None, _) => None,
            (Some(_), None) => match self.price(
                fcu(),
                "ElasticIP:IdleAddress"@,
                "AssociateAddressVPC"@,
            ) {
                Some(price) => Some(PublicIpCharge::NonAttached(price)),
                None => None,
            },
            (Some(address), Some(vm_id)) => match lookup(self.vms, vm_id@) {
                Some(vm) => match vm.public_ip {
                    Some(vm_address) => if vm_address@ == address@ {
                        Some(PublicIpCharge::FirstIp)
                    } else {
                        match self.price(
                            fcu(),
                            "ElasticIP:AdditionalAddress"@,
                            "AssociateAddressVPC"@,
                        ) {
                            Some(price) => Some(PublicIpCharge::NextIp(price)),
                            None => None,
                        }
                    },
                    None => None,
                },
                None => None,
            },
        }
    }

    /// The monthly price of a GiB of snapshot.
    pub open spec fn snapshot_price(self) -> Option<Price> {
        self.price(fcu(), "Snapshot:Usage"@, "Snapshot"@)
    }
}

impl Input {
    /// What a public IP is charged by.
    pub fn public_ip_charge(&self, public_ip: &PublicIp) -> (charge: Option<PublicIpCharge>)
        ensures
            charge == self@.public_ip_charge(*public_ip),
    {
        let address = match &public_ip.public_ip {
            Some(address) => address,
            None => return None,
        };
        match &public_ip.vm_id {
            None => match self.catalog_entry(
                "TinaOS-FCU",
                "ElasticIP:IdleAddress",
                "AssociateAddressVPC",
            ) {
                Some(price) => Some(PublicIpCharge::NonAttached(price)),
                None => None,
            },
            Some(vm_id) => match self.vms.get(vm_id.as_str()) {
                Some(vm) => match &vm.public_ip {
                    Some(vm_address) => {
                        if vm_address.eq(address) {
                            return Some(PublicIpCharge::FirstIp);
                        }
                        match self.catalog_entry(
                            "TinaOS-FCU",
                            "ElasticIP:AdditionalAddress",
                            "AssociateAddressVPC",
                        ) {
                            Some(price) => Some(PublicIpCharge::NextIp(price)),
                            None => None,
                        }
                    },
                    None => None,
                },
                None => None,
            },
        }
    }
}

} // verus!
