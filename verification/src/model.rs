//! The objects that the API answers with, reduced to what pricing reads.
use vstd::prelude::*;

use crate::table::Identified;

verus! {

/// A price as it is quoted: the bit pattern of an IEEE 754 single-precision
/// number. Prices are looked up, compared and passed on, never computed with.
#[derive(Clone, Copy, Debug, PartialEq, Eq, Structural)]
pub struct Price {
    pub bits: u32,
}

impl Price {
    /// The price of what is free: positive zero, whose bit pattern is zero.
    pub open spec fn spec_zero() -> Price {
        Price { bits: 0 }
    }

    /// The price of what is free.
    pub fn zero() -> (price: Price)
        ensures
            price == Price::spec_zero(),
    {
        Price { bits: 0 }
    }
}

/// The contents of an optional value.
pub open spec fn contents<T: View>(value: Option<T>) -> Option<T::V> {
    match value {
        Some(value) => Some(value@),
        None => None,
    }
}

/// A copy of an optional string.
pub fn copy_text(value: &Option<String>) -> (copy: Option<String>)
    ensures
        copy == *value,
{
    match value {
        Some(value) => Some(value.clone()),
        None => None,
    }
}

/// The text of an optional identifier, empty where there is none.
pub open spec fn id_or_empty(id: Option<String>) -> Seq<char> {
    match id {
        Some(id) => id@,
        None => Seq::empty(),
    }
}

fn copy_id_or_empty(id: &Option<String>) -> (copy: String)
    ensures
        copy@ == id_or_empty(*id),
{
    match id {
        Some(id) => id.clone(),
        None => String::new(),
    }
}

/// The identifier of a catalog entry: service, type and operation, with a slash
/// between them.
pub open spec fn entry_id(service: Seq<char>, type_: Seq<char>, operation: Seq<char>) -> Seq<char> {
    service + "/"@ + type_ + "/"@ + operation
}

/// Forges the identifier of a catalog entry.
pub fn forge_entry_id(service: &str, type_: &str, operation: &str) -> (id: String)
    ensures
        id@ == entry_id(service@, type_@, operation@),
{
    service.to_owned().concat("/").concat(type_).concat("/").concat(operation)
}

/// An entry of the price catalog.
#[derive(Debug, PartialEq)]
pub struct CatalogEntry {
    pub _type: Option<String>,
    pub service: Option<String>,
    pub operation: Option<String>,
    pub unit_price: Option<Price>,
}

impl Identified for CatalogEntry {
    /// An entry without a type, a service or an operation has no key.
    open spec fn spec_key(self) -> Option<Seq<char>> {
        match (self._type, self.service, self.operation) {
            (Some(type_), Some(service), Some(operation)) => Some(
                entry_id(service@, type_@, operation@),
            ),
            _ => None,
        }
    }

    fn key(&self) -> (key: Option<String>) {
        let type_ = match &self._type {
            Some(type_) => type_,
            None => return None,
        };
        let service = match &self.service {
            Some(service) => service,
            None => return None,
        };
        let operation = match &self.operation {
            Some(operation) => operation,
            None => return None,
        };
        Some(forge_entry_id(service.as_str(), type_.as_str(), operation.as_str()))
    }
}

/// The price catalog.
#[derive(Debug, PartialEq)]
pub struct Catalog {
    pub entries: Option<Vec<CatalogEntry>>,
}

/// A virtual machine.
#[derive(Debug, PartialEq)]
pub struct Vm {
    pub public_ip: Option<String>,
}

/// The image of a virtual machine.
#[derive(Debug, PartialEq)]
pub struct Image {
    pub image_id: Option<String>,
}

/// A type of virtual machine.
#[derive(Debug, PartialEq)]
pub struct VmType {
    pub vm_type_name: Option<String>,
}

/// A flexible GPU.
#[derive(Debug, PartialEq)]
pub struct FlexibleGpu {
    pub flexible_gpu_id: Option<String>,
}

/// A bucket of the object storage.
#[derive(Debug, PartialEq)]
pub struct OosBucket {
    pub name: Option<String>,
}

/// A customer account.
#[derive(Debug, PartialEq)]
pub struct Account {
    pub account_id: Option<String>,
}

/// A subregion of the region that the API serves.
#[derive(Debug, PartialEq)]
pub struct Subregion {
    pub region_name: Option<String>,
}

/// A block storage volume.
#[derive(Debug, PartialEq)]
pub struct Volume {
    pub volume_id: Option<String>,
    pub volume_type: Option<String>,
    pub iops: Option<i32>,
    pub size: Option<i32>,
}

impl Identified for Volume {
    /// A volume without an identifier is stored under the empty key.
    open spec fn spec_key(self) -> Option<Seq<char>> {
        Some(id_or_empty(self.volume_id))
    }

    fn key(&self) -> (key: Option<String>) {
        Some(copy_id_or_empty(&self.volume_id))
    }
}

/// A NAT service.
#[derive(Debug, PartialEq)]
pub struct NatService {
    pub nat_service_id: Option<String>,
}

impl Identified for NatService {
    /// A NAT service without an identifier is stored under the empty key.
    open spec fn spec_key(self) -> Option<Seq<char>> {
        Some(id_or_empty(self.nat_service_id))
    }

    fn key(&self) -> (key: Option<String>) {
        Some(copy_id_or_empty(&self.nat_service_id))
    }
}

/// A public IP address.
#[derive(Debug, PartialEq)]
pub struct PublicIp {
    pub public_ip_id: Option<String>,
    pub public_ip: Option<String>,
    pub vm_id: Option<String>,
}

impl Identified for PublicIp {
    /// A public IP without an identifier has no key.
    open spec fn spec_key(self) -> Option<Seq<char>> {
        contents(self.public_ip_id)
    }

    fn key(&self) -> (key: Option<String>) {
        copy_text(&self.public_ip_id)
    }
}

/// A snapshot of a volume.
#[derive(Debug, PartialEq)]
pub struct Snapshot {
    pub snapshot_id: Option<String>,
    pub volume_size: Option<i32>,
}

impl Identified for Snapshot {
    /// A snapshot without an identifier is stored under the empty key.
    open spec fn spec_key(self) -> Option<Seq<char>> {
        Some(id_or_empty(self.snapshot_id))
    }

    fn key(&self) -> (key: Option<String>) {
        Some(copy_id_or_empty(&self.snapshot_id))
    }
}

/// The tags by which the user narrows down what is read.
#[derive(Debug, PartialEq)]
pub struct Filter {
    pub filter_tag_key: Vec<String>,
    pub filter_tag_value: Vec<String>,
    pub filter_tag: Vec<String>,
}

} // verus!
