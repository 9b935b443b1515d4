//! What is worth a warning while an inventory is read and listed.
use vstd::prelude::*;

verus! {

/// Something that is worth a warning.
#[derive(Debug, PartialEq)]
pub enum Notice {
    /// The answer holds no catalog.
    NoCatalog,
    /// The catalog holds no list of entries.
    NoCatalogEntries,
    /// A catalog entry has no type.
    EntryWithoutType,
    /// A catalog entry has no service.
    EntryWithoutService,
    /// A catalog entry has no operation.
    EntryWithoutOperation,
    /// The answer holds no list of accounts.
    NoAccounts,
    /// The list of accounts is empty.
    EmptyAccounts,
    /// The answer holds no list of subregions.
    NoSubregions,
    /// The list of subregions is empty.
    EmptySubregions,
    /// The answer holds no list of volumes.
    NoVolumes,
    /// The answer holds no list of NAT services.
    NoNatServices,
    /// The answer holds no list of public IPs.
    NoPublicIps,
    /// A public IP has no identifier.
    PublicIpWithoutId,
    /// The snapshots are passed over without an account.
    NoAccountId,
    /// The answer holds no list of snapshots.
    NoSnapshots,
    /// The price of snapshots is not known.
    NoSnapshotPrice,
    /// A volume has no type.
    VolumeWithoutType,
    /// A volume that is charged for its IOPS has none.
    VolumeWithoutIops,
    /// A volume has no size.
    VolumeWithoutSize,
    /// The catalog entry of this identifier has no price.
    NoPrice(String),
    /// The catalog has no entry of this identifier.
    NoCatalogEntry(String),
    /// The NAT service under this key has no identifier.
    NatServiceWithoutId(String),
    /// The public IP of this identifier has no address.
    PublicIpWithoutAddress(String),
    /// This VM, to which this address is attached, has no address.
    VmWithoutAddress(String, String),
    /// This VM, to which this address of this public IP is attached, is not known.
    UnknownVm(String, String, String),
}

/// The contents of a [`Notice`].
#[verifier::ext_equal]
pub enum NoticeView {
    /// The answer holds no catalog.
    NoCatalog,
    /// The catalog holds no list of entries.
    NoCatalogEntries,
    /// A catalog entry has no type.
    EntryWithoutType,
    /// A catalog entry has no service.
    EntryWithoutService,
    /// A catalog entry has no operation.
    EntryWithoutOperation,
    /// The answer holds no list of accounts.
    NoAccounts,
    /// The list of accounts is empty.
    EmptyAccounts,
    /// The answer holds no list of subregions.
    NoSubregions,
    /// The list of subregions is empty.
    EmptySubregions,
    /// The answer holds no list of volumes.
    NoVolumes,
    /// The answer holds no list of NAT services.
    NoNatServices,
    /// The answer holds no list of public IPs.
    NoPublicIps,
    /// A public IP has no identifier.
    PublicIpWithoutId,
    /// The snapshots are passed over without an account.
    NoAccountId,
    /// The answer holds no list of snapshots.
    NoSnapshots,
    /// The price of snapshots is not known.
    NoSnapshotPrice,
    /// A volume has no type.
    VolumeWithoutType,
    /// A volume that is charged for its IOPS has none.
    VolumeWithoutIops,
    /// A volume has no size.
    VolumeWithoutSize,
    /// The catalog entry of this identifier has no price.
    NoPrice(Seq<char>),
    /// The catalog has no entry of this identifier.
    NoCatalogEntry(Seq<char>),
    /// The NAT service under this key has no identifier.
    NatServiceWithoutId(Seq<char>),
    /// The public IP of this identifier has no address.
    PublicIpWithoutAddress(Seq<char>),
    /// This VM, to which this address is attached, has no address.
    VmWithoutAddress(Seq<char>, Seq<char>),
    /// This VM, to which this address of this public IP is attached, is not known.
    UnknownVm(Seq<char>, Seq<char>, Seq<char>),
}

impl View for Notice {
    type V = NoticeView;

    open spec fn view(&self) -> NoticeView {
        match self {
            Notice::NoCatalog => NoticeView::NoCatalog,
            Notice::NoCatalogEntries => NoticeView::NoCatalogEntries,
            Notice::EntryWithoutType => NoticeView::EntryWithoutType,
            Notice::EntryWithoutService => NoticeView::EntryWithoutService,
            Notice::EntryWithoutOperation => NoticeView::EntryWithoutOperation,
            Notice::NoAccounts => NoticeView::NoAccounts,
            Notice::EmptyAccounts => NoticeView::EmptyAccounts,
            Notice::NoSubregions => NoticeView::NoSubregions,
            Notice::EmptySubregions => NoticeView::EmptySubregions,
            Notice::NoVolumes => NoticeView::NoVolumes,
            Notice::NoNatServices => NoticeView::NoNatServices,
            Notice::NoPublicIps => NoticeView::NoPublicIps,
            Notice::PublicIpWithoutId => NoticeView::PublicIpWithoutId,
            Notice::NoAccountId => NoticeView::NoAccountId,
            Notice::NoSnapshots => NoticeView::NoSnapshots,
            Notice::NoSnapshotPrice => NoticeView::NoSnapshotPrice,
            Notice::VolumeWithoutType => NoticeView::VolumeWithoutType,
            Notice::VolumeWithoutIops => NoticeView::VolumeWithoutIops,
            Notice::VolumeWithoutSize => NoticeView::VolumeWithoutSize,
            Notice::NoPrice(entry_id) => NoticeView::NoPrice(entry_id@),
            Notice::NoCatalogEntry(entry_id) => NoticeView::NoCatalogEntry(entry_id@),
            Notice::NatServiceWithoutId(key) => NoticeView::NatServiceWithoutId(key@),
            Notice::PublicIpWithoutAddress(id) => NoticeView::PublicIpWithoutAddress(id@),
            Notice::VmWithoutAddress(vm_id, address) => NoticeView::VmWithoutAddress(
                vm_id@,
                address@,
            ),
            Notice::UnknownVm(vm_id, address, id) => NoticeView::UnknownVm(vm_id@, address@, id@),
        }
    }
}

impl NoticeView {
    /// The text of a notice.
    pub open spec fn message(self) -> Seq<char> {
        match self {
            NoticeView::NoCatalog => "no catalog provided"@,
            NoticeView::NoCatalogEntries => "no catalog entries provided"@,
            NoticeView::EntryWithoutType => "catalog entry as no type"@,
            NoticeView::EntryWithoutService => "catalog entry as no service"@,
            NoticeView::EntryWithoutOperation => "catalog entry as no operation"@,
            NoticeView::NoAccounts => "no account available"@,
            NoticeView::EmptyAccounts => "no account in account list"@,
            NoticeView::NoSubregions => "no region available"@,
            NoticeView::EmptySubregions => "no subregion in region list"@,
            NoticeView::NoVolumes => "no volume available"@,
            NoticeView::NoNatServices => "no nat_service available!"@,
            NoticeView::NoPublicIps => "no public ip list provided"@,
            NoticeView::PublicIpWithoutId => "public ip has no id"@,
            NoticeView::NoAccountId => "warning: no account_id available... skipping"@,
            NoticeView::NoSnapshots => "warning: no snapshot available"@,
            NoticeView::NoSnapshotPrice => "gib price is not defined for snapshot"@,
            NoticeView::VolumeWithoutType => "warning: cannot get volume type in volume details"@,
            NoticeView::VolumeWithoutIops => "cannot get iops in volume details"@,
            NoticeView::VolumeWithoutSize => "cannot get size in volume details"@,
            NoticeView::NoPrice(entry_id) => "cannot find price for "@ + entry_id,
            NoticeView::NoCatalogEntry(entry_id) => "cannot find catalog entry for "@ + entry_id,
            NoticeView::NatServiceWithoutId(key) => "cannot get nat_service_id content for "@ + key,
            NoticeView::PublicIpWithoutAddress(id) => "cannot get public ip content for "@ + id,
            NoticeView::VmWithoutAddress(vm_id, address) => "vm "@ + vm_id
                + " does not seem to have any ip, should at least have "@ + address,
            NoticeView::UnknownVm(vm_id, address, id) => "cannot find vm id "@ + vm_id + " for public ip "@
                + address + " ("@ + id + ")"@,
        }
    }
}

impl Notice {
    /// The text of this notice.
    pub fn message(&self) -> (message: String)
        ensures
            message@ == self@.message(),
    {
        match self {
            Notice::NoCatalog => "no catalog provided".to_owned(),
            Notice::NoCatalogEntries => "no catalog entries provided".to_owned(),
            Notice::EntryWithoutType => "catalog entry as no type".to_owned(),
            Notice::EntryWithoutService => "catalog entry as no service".to_owned(),
            Notice::EntryWithoutOperation => "catalog entry as no operation".to_owned(),
            Notice::NoAccounts => "no account available".to_owned(),
            Notice::EmptyAccounts => "no account in account list".to_owned(),
            Notice::NoSubregions => "no region available".to_owned(),
            Notice::EmptySubregions => "no subregion in region list".to_owned(),
            Notice::NoVolumes => "no volume available".to_owned(),
            Notice::NoNatServices => "no nat_service available!".to_owned(),
            Notice::NoPublicIps => "no public ip list provided".to_owned(),
            Notice::PublicIpWithoutId => "public ip has no id".to_owned(),
            Notice::NoAccountId => "warning: no account_id available... skipping".to_owned(),
            Notice::NoSnapshots => "warning: no snapshot available".to_owned(),
            Notice::NoSnapshotPrice => "gib price is not defined for snapshot".to_owned(),
            Notice::VolumeWithoutType => "warning: cannot get volume type in volume details".to_owned(),
            Notice::VolumeWithoutIops => "cannot get iops in volume details".to_owned(),
            Notice::VolumeWithoutSize => "cannot get size in volume details".to_owned(),
            Notice::NoPrice(entry_id) => "cannot find price for ".to_owned()
                .concat(entry_id.as_str()),
            Notice::NoCatalogEntry(entry_id) => "cannot find catalog entry for ".to_owned()
                .concat(entry_id.as_str()),
            Notice::NatServiceWithoutId(key) => "cannot get nat_service_id content for ".to_owned()
                .concat(key.as_str()),
            Notice::PublicIpWithoutAddress(id) => "cannot get public ip content for ".to_owned()
                .concat(id.as_str()),
            Notice::VmWithoutAddress(vm_id, address) => "vm ".to_owned()
                .concat(vm_id.as_str())
                .concat(" does not seem to have any ip, should at least have ")
                .concat(address.as_str()),
            Notice::UnknownVm(vm_id, address, id) => "cannot find vm id ".to_owned()
                .concat(vm_id.as_str())
                .concat(" for public ip ")
                .concat(address.as_str())
                .concat(" (")
                .concat(id.as_str())
                .concat(")"),
        }
    }
}

/// The contents of a list of notices.
pub open spec fn noticed(notices: Seq<Notice>) -> Seq<NoticeView> {
    notices.map_values(|notice: Notice| notice@)
}

} // verus!
