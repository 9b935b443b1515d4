//! Contents: what stands for a value in contracts holds all of the value, as it is.
use aws_config::SdkConfig;
use outscale_api::apis::configuration::Configuration;
use vstd::prelude::*;

use super::terms::{account_text, spells, text};
use crate::model::contents;
use crate::notice::{noticed, Notice, NoticeView};
use crate::oapi::fetch::{
    optional_texts, texts, Sibling, SnapshotFilters, TagFilters, Task, TaskView,
};
use crate::oapi::pricing::VolumeSpecs;
use crate::oapi::{Input, InputView};
use crate::resource::{
    other_resources, NatServices, PublicIp, Resource, ResourceView, Resources, Snapshot, Volume,
};

verus! {

/// An optional value has the contents of the value that is there, or none.
pub proof fn law_optional_contents_are_those_of_the_value<T: View>(value: T)
    ensures
        contents(Some(value)) == Some(value@),
        contents(None::<T>) is None,
{
}

/// Every field of a listed volume counts.
pub proof fn law_volume_contents_are_its_fields(volume: Volume)
    ensures
        volume@.osc_cost_version == text(volume.osc_cost_version),
        volume@.account_id == text(volume.account_id),
        volume@.read_date_rfc3339 == text(volume.read_date_rfc3339),
        volume@.region == text(volume.region),
        volume@.resource_id == text(volume.resource_id),
        volume@.volume_type == text(volume.volume_type),
        volume@.price_per_hour == volume.price_per_hour,
        volume@.price_per_month == volume.price_per_month,
        volume@.volume_iops == volume.volume_iops,
        volume@.volume_size == volume.volume_size,
        volume@.price_gb_per_month == volume.price_gb_per_month,
        volume@.price_iops_per_month == volume.price_iops_per_month,
{
}

/// Every field of a listed NAT service counts.
pub proof fn law_nat_service_contents_are_its_fields(nat_service: NatServices)
    ensures
        nat_service@.osc_cost_version == text(nat_service.osc_cost_version),
        nat_service@.account_id == text(nat_service.account_id),
        nat_service@.read_date_rfc3339 == text(nat_service.read_date_rfc3339),
        nat_service@.region == text(nat_service.region),
        nat_service@.resource_id == text(nat_service.resource_id),
        nat_service@.price_per_hour == nat_service.price_per_hour,
        nat_service@.price_per_month == nat_service.price_per_month,
        nat_service@.price_product_per_nat_service_per_hour
            == nat_service.price_product_per_nat_service_per_hour,
{
}

/// Every field of a listed public IP counts.
pub proof fn law_public_ip_contents_are_its_fields(public_ip: PublicIp)
    ensures
        public_ip@.osc_cost_version == text(public_ip.osc_cost_version),
        public_ip@.account_id == text(public_ip.account_id),
        public_ip@.read_date_rfc3339 == text(public_ip.read_date_rfc3339),
        public_ip@.region == text(public_ip.region),
        public_ip@.resource_id == text(public_ip.resource_id),
        public_ip@.price_per_hour == public_ip.price_per_hour,
        public_ip@.price_per_month == public_ip.price_per_month,
        public_ip@.price_non_attached == public_ip.price_non_attached,
        public_ip@.price_first_ip == public_ip.price_first_ip,
        public_ip@.price_next_ips == public_ip.price_next_ips,
{
}

/// Every field of a listed snapshot counts.
pub proof fn law_snapshot_contents_are_its_fields(snapshot: Snapshot)
    ensures
        snapshot@.osc_cost_version == text(snapshot.osc_cost_version),
        snapshot@.account_id == text(snapshot.account_id),
        snapshot@.read_date_rfc3339 == text(snapshot.read_date_rfc3339),
        snapshot@.region == text(snapshot.region),
        snapshot@.resource_id == text(snapshot.resource_id),
        snapshot@.price_per_hour == snapshot.price_per_hour,
        snapshot@.price_per_month == snapshot.price_per_month,
        snapshot@.volume_size_gib == snapshot.volume_size_gib,
        snapshot@.price_gb_per_month == snapshot.price_gb_per_month,
{
}

/// A listed resource keeps its kind, and a listing all of its resources, in order.
pub proof fn law_listing_contents_are_its_resources<X>(resources: Resources<X>, others: Seq<X>)
    ensures
        resources@.len() == resources.resources@.len(),
        forall|i: int|
            0 <= i < resources.resources@.len() ==> match resources.resources@[i] {
                Resource::Volume(volume) => #[trigger] resources@[i] == ResourceView::<X>::Volume(
                    volume@,
                ),
                Resource::NatServices(nat_service) => resources@[i]
                    == ResourceView::<X>::NatServices(nat_service@),
                Resource::PublicIp(public_ip) => resources@[i] == ResourceView::<X>::PublicIp(
                    public_ip@,
                ),
                Resource::Snapshot(snapshot) => resources@[i] == ResourceView::<X>::Snapshot(
                    snapshot@,
                ),
                Resource::Other(other) => resources@[i] == ResourceView::Other(other),
            },
        other_resources(others).len() == others.len(),
        forall|i: int|
            0 <= i < others.len() ==> #[trigger] other_resources(others)[i] == ResourceView::Other(
                others[i],
            ),
{
}

/// Every field of a volume with its prices counts.
pub proof fn law_volume_specs_contents_are_the_fields(specs: VolumeSpecs)
    ensures
        specs@.volume_type == specs.volume_type@,
        specs@.size == specs.size,
        specs@.iops == specs.iops,
        specs@.price_gb_per_month == specs.price_gb_per_month,
        specs@.price_iops_per_month == specs.price_iops_per_month,
{
}

/// Every string of a list counts.
pub proof fn law_texts_spell_the_strings(strings: Vec<String>)
    ensures
        spells(strings@, texts(strings@)),
        optional_texts(Some(strings)) == Some(texts(strings@)),
        optional_texts(None) is None,
{
}

/// A task is told by its kind and by every filter that it comes with.
pub proof fn law_task_contents_are_its_filters(
    sibling: Sibling,
    tags: TagFilters,
    snapshots: SnapshotFilters,
)
    ensures
        tags@.tag_keys == optional_texts(tags.tag_keys),
        tags@.tag_values == optional_texts(tags.tag_values),
        tags@.tags == optional_texts(tags.tags),
        spells(snapshots.account_ids@, snapshots@.account_ids),
        snapshots@.tags == snapshots.tags@,
        Task::Sibling(sibling)@ == TaskView::Sibling(sibling),
        Task::ReadCatalog@ == TaskView::ReadCatalog,
        Task::ReadAccounts@ == TaskView::ReadAccounts,
        Task::ReadSubregions@ == TaskView::ReadSubregions,
        Task::ReadVolumes(tags)@ == TaskView::ReadVolumes(tags@),
        Task::ReadNatServices(tags)@ == TaskView::ReadNatServices(tags@),
        Task::ReadPublicIps(tags)@ == TaskView::ReadPublicIps(tags@),
        Task::ReadSnapshots(snapshots)@ == TaskView::ReadSnapshots(snapshots@),
        Task::Finish@ == TaskView::Finish,
{
}

/// Everything in an inventory counts but its random number generator.
pub proof fn law_inventory_contents_are_its_fields(input: Input)
    ensures
        input@.config == input.config,
        input@.aws_config == input.aws_config,
        input@.vms == input.vms@,
        input@.vms_images == input.vms_images@,
        input@.catalog == input.catalog@,
        input@.need_vm_types_fetch == input.need_vm_types_fetch,
        input@.vm_types == input.vm_types@,
        input@.account == input.account,
        input@.region == input.region,
        input@.nat_services == input.nat_services@,
        input@.volumes == input.volumes@,
        input@.snapshots == input.snapshots@,
        input@.fetch_date == input.fetch_date,
        input@.public_ips == input.public_ips@,
        input@.filters == input.filters,
        input@.flexible_gpus == input.flexible_gpus@,
        input@.load_balancers == input.load_balancers@,
        input@.vpns == input.vpns@,
        input@.buckets == input.buckets@,
{
}

/// A new inventory holds the access that it was given, and nothing else.
pub proof fn law_new_inventory_holds_its_access_alone(
    config: Configuration,
    aws_config: SdkConfig,
)
    ensures
        ({
            let input = InputView::empty(config, aws_config);
            &&& input.config == config
            &&& input.aws_config == aws_config
            &&& input.vms.len() == 0
            &&& input.vms_images.len() == 0
            &&& input.catalog.len() == 0
            &&& !input.need_vm_types_fetch
            &&& input.vm_types.len() == 0
            &&& input.account is None
            &&& input.region is None
            &&& input.nat_services.len() == 0
            &&& input.volumes.len() == 0
            &&& input.snapshots.len() == 0
            &&& input.fetch_date is None
            &&& input.public_ips.len() == 0
            &&& input.filters is None
            &&& input.flexible_gpus.len() == 0
            &&& input.load_balancers.len() == 0
            &&& input.vpns.len() == 0
            &&& input.buckets.len() == 0
        }),
{
}

/// The identifier of the account is that of the account that was read.
pub proof fn law_account_id_is_that_of_the_account(input: InputView)
    ensures
        input.account_id() == account_text(input),
{
}

/// A list of notices keeps all of them, in order.
pub proof fn law_notices_are_all_kept(notices: Seq<Notice>)
    ensures
        noticed(notices).len() == notices.len(),
        forall|i: int| 0 <= i < notices.len() ==> #[trigger] noticed(notices)[i] == notices[i]@,
{
}

/// A notice is told by its kind and by the texts that it comes with.
pub proof fn law_notice_contents_are_its_texts(one: String, two: String, three: String)
    ensures
        Notice::NoCatalog@ == NoticeView::NoCatalog,
        Notice::NoCatalogEntries@ == NoticeView::NoCatalogEntries,
        Notice::EntryWithoutType@ == NoticeView::EntryWithoutType,
        Notice::EntryWithoutService@ == NoticeView::EntryWithoutService,
        Notice::EntryWithoutOperation@ == NoticeView::EntryWithoutOperation,
        Notice::NoAccounts@ == NoticeView::NoAccounts,
        Notice::EmptyAccounts@ == NoticeView::EmptyAccounts,
        Notice::NoSubregions@ == NoticeView::NoSubregions,
        Notice::EmptySubregions@ == NoticeView::EmptySubregions,
        Notice::NoVolumes@ == NoticeView::NoVolumes,
        Notice::NoNatServices@ == NoticeView::NoNatServices,
        Notice::NoPublicIps@ == NoticeView::NoPublicIps,
        Notice::PublicIpWithoutId@ == NoticeView::PublicIpWithoutId,
        Notice::NoAccountId@ == NoticeView::NoAccountId,
        Notice::NoSnapshots@ == NoticeView::NoSnapshots,
        Notice::NoSnapshotPrice@ == NoticeView::NoSnapshotPrice,
        Notice::VolumeWithoutType@ == NoticeView::VolumeWithoutType,
        Notice::VolumeWithoutIops@ == NoticeView::VolumeWithoutIops,
        Notice::VolumeWithoutSize@ == NoticeView::VolumeWithoutSize,
        Notice::NoPrice(one)@ == NoticeView::NoPrice(one@),
        Notice::NoCatalogEntry(one)@ == NoticeView::NoCatalogEntry(one@),
        Notice::NatServiceWithoutId(one)@ == NoticeView::NatServiceWithoutId(one@),
        Notice::PublicIpWithoutAddress(one)@ == NoticeView::PublicIpWithoutAddress(one@),
        Notice::VmWithoutAddress(one, two)@ == NoticeView::VmWithoutAddress(one@, two@),
        Notice::UnknownVm(one, two, three)@ == NoticeView::UnknownVm(one@, two@, three@),
{
}

/// A notice says what it is about, with every text that it comes with in full.
pub proof fn law_messages_say_what_they_are_about(
    one: Seq<char>,
    two: Seq<char>,
    three: Seq<char>,
)
    ensures
        NoticeView::NoCatalog.message() == "no catalog provided"@,
        NoticeView::NoCatalogEntries.message() == "no catalog entries provided"@,
        NoticeView::EntryWithoutType.message() == "catalog entry as no type"@,
        NoticeView::EntryWithoutService.message() == "catalog entry as no service"@,
        NoticeView::EntryWithoutOperation.message() == "catalog entry as no operation"@,
        NoticeView::NoAccounts.message() == "no account available"@,
        NoticeView::EmptyAccounts.message() == "no account in account list"@,
        NoticeView::NoSubregions.message() == "no region available"@,
        NoticeView::EmptySubregions.message() == "no subregion in region list"@,
        NoticeView::NoVolumes.message() == "no volume available"@,
        NoticeView::NoNatServices.message() == "no nat_service available!"@,
        NoticeView::NoPublicIps.message() == "no public ip list provided"@,
        NoticeView::PublicIpWithoutId.message() == "public ip has no id"@,
        NoticeView::NoAccountId.message() == "warning: no account_id available... skipping"@,
        NoticeView::NoSnapshots.message() == "warning: no snapshot available"@,
        NoticeView::NoSnapshotPrice.message() == "gib price is not defined for snapshot"@,
        NoticeView::VolumeWithoutType.message()
            == "warning: cannot get volume type in volume details"@,
        NoticeView::VolumeWithoutIops.message() == "cannot get iops in volume details"@,
        NoticeView::VolumeWithoutSize.message() == "cannot get size in volume details"@,
        NoticeView::NoPrice(one).message() == "cannot find price for "@ + one,
        NoticeView::NoCatalogEntry(one).message() == "cannot find catalog entry for "@ + one,
        NoticeView::NatServiceWithoutId(one).message()
            == "cannot get nat_service_id content for "@ + one,
        NoticeView::PublicIpWithoutAddress(one).message()
            == "cannot get public ip content for "@ + one,
        NoticeView::VmWithoutAddress(one, two).message() == "vm "@ + one
            + " does not seem to have any ip, should at least have "@ + two,
        NoticeView::UnknownVm(one, two, three).message() == "cannot find vm id "@ + one
            + " for public ip "@ + two + " ("@ + three + ")"@,
{
}

} // verus!
