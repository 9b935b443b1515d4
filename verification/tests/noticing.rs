use osc_cost::config::build_aws_config;
use osc_cost::model::{
    Account, Catalog, CatalogEntry, NatService, Price, PublicIp, Snapshot, Subregion, Vm, Volume,
};
use osc_cost::notice::Notice;
use osc_cost::oapi::fetch::{Event, Sibling, Stage};
use osc_cost::oapi::Input;
use osc_cost::throttle::ApiError;
use outscale_api::apis::configuration::Configuration;

fn text(value: &str) -> Option<String> {
    Some(value.to_string())
}

fn input() -> Input {
    let keys = build_aws_config("AK".to_string(), "SK".to_string(), "eu-west-2".to_string());
    Input::new::<String>(Ok((Configuration::new(), keys))).unwrap()
}

fn entry(type_: &str, operation: &str, unit_price: Option<Price>) -> CatalogEntry {
    CatalogEntry {
        _type: text(type_),
        service: text("TinaOS-FCU"),
        operation: text(operation),
        unit_price,
    }
}

fn no_entry(id: &str) -> Notice {
    Notice::NoCatalogEntry(id.to_string())
}

fn notices(event: Event<String>) -> Vec<Notice> {
    let mut input = input();
    input.account = Some(Account { account_id: text("123") });
    input.fetch_notices(&event)
}

#[test]
fn an_answer_that_lacks_something_is_noticed() {
    assert_eq!(notices(Event::Catalog(Ok(None))), vec![Notice::NoCatalog]);
    let listless = Catalog { entries: None };
    assert_eq!(notices(Event::Catalog(Ok(Some(listless)))), vec![Notice::NoCatalogEntries]);
    assert_eq!(notices(Event::Accounts(Ok(None))), vec![Notice::NoAccounts]);
    assert_eq!(notices(Event::Accounts(Ok(Some(vec![])))), vec![Notice::EmptyAccounts]);
    assert_eq!(notices(Event::Subregions(Ok(None))), vec![Notice::NoSubregions]);
    assert_eq!(notices(Event::Subregions(Ok(Some(vec![])))), vec![Notice::EmptySubregions]);
    assert_eq!(notices(Event::Volumes(Ok(None))), vec![Notice::NoVolumes]);
    assert_eq!(notices(Event::NatServices(Ok(None))), vec![Notice::NoNatServices]);
    assert_eq!(notices(Event::PublicIps(Ok(None))), vec![Notice::NoPublicIps]);
    assert_eq!(notices(Event::Snapshots(Ok(None))), vec![Notice::NoSnapshots]);
}

#[test]
fn a_full_answer_and_a_failure_are_not_noticed() {
    let account = Account { account_id: None };
    assert_eq!(notices(Event::Accounts(Ok(Some(vec![account])))), vec![]);
    assert_eq!(notices(Event::Volumes(Ok(Some(vec![])))), vec![]);
    let failure = ApiError { status: Some(503), error: "busy".to_string() };
    assert_eq!(notices(Event::Volumes(Err(failure))), vec![]);
    assert_eq!(notices(Event::Start), vec![]);
    assert_eq!(notices(Event::Sibling(Sibling::Vms, Ok(()))), vec![]);
}

#[test]
fn every_entry_without_an_identifier_is_noticed() {
    let entries = vec![
        CatalogEntry { _type: None, service: None, ..entry("", "O", None) },
        entry("T", "O", None),
        CatalogEntry { service: None, operation: None, ..entry("T", "", None) },
        CatalogEntry { operation: None, ..entry("T", "", None) },
    ];
    assert_eq!(
        notices(Event::Catalog(Ok(Some(Catalog { entries: Some(entries) })))),
        vec![Notice::EntryWithoutType, Notice::EntryWithoutService, Notice::EntryWithoutOperation]
    );
}

#[test]
fn a_public_ip_without_an_identifier_and_a_missing_account_are_noticed() {
    let unnamed = || PublicIp { public_ip_id: None, public_ip: None, vm_id: None };
    let named = PublicIp { public_ip_id: text("p"), public_ip: None, vm_id: None };
    let event = Event::<String>::PublicIps(Ok(Some(vec![unnamed(), named, unnamed()])));
    let mut input = input();
    assert_eq!(
        input.fetch_notices(&event),
        vec![Notice::PublicIpWithoutId, Notice::PublicIpWithoutId]
    );
    assert_eq!(input.skip_notice(&event), Some(Notice::NoAccountId));
    assert_eq!(input.skip_notice(&Event::<String>::Volumes(Ok(None))), None);
    let failure = ApiError { status: None, error: "lost".to_string() };
    assert_eq!(input.skip_notice(&Event::<String>::PublicIps(Err(failure))), None);
    input.account = Some(Account { account_id: text("123") });
    assert_eq!(input.skip_notice(&event), None);
}

#[test]
fn an_unknown_price_is_noticed() {
    let mut input = input();
    let known = entry("A", "O", Some(Price { bits: 1 }));
    input.catalog.insert_all(vec![known, entry("B", "O", None)]);
    assert_eq!(input.price_notice("TinaOS-FCU", "A", "O"), None);
    let unpriced = Notice::NoPrice("TinaOS-FCU/B/O".to_string());
    assert_eq!(input.price_notice("TinaOS-FCU", "B", "O"), Some(unpriced));
    assert_eq!(input.price_notice("TinaOS-FCU", "C", "O"), Some(no_entry("TinaOS-FCU/C/O")));
}

#[test]
fn what_a_volume_lacks_is_noticed() {
    let mut input = input();
    let volume = |type_: Option<&str>, iops, size| Volume {
        volume_id: text("v"),
        volume_type: type_.map(String::from),
        iops,
        size,
    };
    assert_eq!(input.volume_notices(&volume(None, None, None)), vec![Notice::VolumeWithoutType]);
    assert_eq!(
        input.volume_notices(&volume(Some("io1"), None, None)),
        vec![Notice::VolumeWithoutIops, Notice::VolumeWithoutSize]
    );
    assert_eq!(
        input.volume_notices(&volume(Some("gp2"), None, Some(1))),
        vec![no_entry("TinaOS-FCU/BSU:VolumeUsage:gp2/CreateVolume")]
    );
    let price = Some(Price { bits: 1 });
    input.catalog.insert_all(vec![
        entry("BSU:VolumeUsage:gp2", "CreateVolume", price),
        entry("BSU:VolumeUsage:io1", "CreateVolume", price),
    ]);
    assert_eq!(input.volume_notices(&volume(Some("gp2"), None, Some(1))), vec![]);
    assert_eq!(
        input.volume_notices(&volume(Some("io1"), Some(5), Some(1))),
        vec![no_entry("TinaOS-FCU/BSU:VolumeIOPS:io1/CreateVolume")]
    );
}

#[test]
fn why_a_public_ip_is_not_listed_is_noticed() {
    let mut input = input();
    input.vms.insert("vm".to_string(), Vm { public_ip: text("1.1.1.1") });
    input.vms.insert("bare".to_string(), Vm { public_ip: None });
    let id = "p".to_string();
    let notice = |address: Option<&str>, vm_id: Option<&str>| {
        let public_ip = PublicIp {
            public_ip_id: text("p"),
            public_ip: address.map(String::from),
            vm_id: vm_id.map(String::from),
        };
        input.public_ip_notice(&id, &public_ip)
    };
    assert_eq!(notice(None, None), Some(Notice::PublicIpWithoutAddress("p".to_string())));
    assert_eq!(
        notice(Some("9.9.9.9"), None),
        Some(no_entry("TinaOS-FCU/ElasticIP:IdleAddress/AssociateAddressVPC"))
    );
    assert_eq!(notice(Some("1.1.1.1"), Some("vm")), None);
    assert_eq!(
        notice(Some("2.2.2.2"), Some("vm")),
        Some(no_entry("TinaOS-FCU/ElasticIP:AdditionalAddress/AssociateAddressVPC"))
    );
    assert_eq!(
        notice(Some("2.2.2.2"), Some("bare")).map(|notice| notice.message()),
        text("vm bare does not seem to have any ip, should at least have 2.2.2.2")
    );
    assert_eq!(
        notice(Some("2.2.2.2"), Some("gone")).map(|notice| notice.message()),
        text("cannot find vm id gone for public ip 2.2.2.2 (p)")
    );
}

#[test]
fn the_notices_of_a_listing_come_in_its_order() {
    let mut input = input();
    input.nat_services.insert_all(vec![NatService { nat_service_id: None }]);
    input.snapshots.insert_all(vec![Snapshot { snapshot_id: text("s"), volume_size: None }]);
    let address = PublicIp { public_ip_id: text("p"), public_ip: None, vm_id: None };
    input.public_ips.insert_all(vec![address]);
    let untyped = Volume { volume_id: text("v"), volume_type: None, iops: None, size: None };
    input.volumes.insert_all(vec![untyped]);
    assert_eq!(
        input.listing_notices(),
        vec![
            Notice::VolumeWithoutType,
            Notice::PublicIpWithoutAddress("p".to_string()),
            no_entry("TinaOS-FCU/Snapshot:Usage/Snapshot"),
            Notice::NoSnapshotPrice,
            no_entry("TinaOS-FCU/NatGatewayUsage/CreateNatGateway"),
            Notice::NatServiceWithoutId("".to_string()),
        ]
    );
}

#[test]
fn a_notice_has_a_text() {
    assert_eq!(Notice::NoCatalog.message(), "no catalog provided");
    assert_eq!(Notice::NoCatalogEntries.message(), "no catalog entries provided");
    assert_eq!(Notice::EntryWithoutType.message(), "catalog entry as no type");
    assert_eq!(Notice::EntryWithoutService.message(), "catalog entry as no service");
    assert_eq!(Notice::EntryWithoutOperation.message(), "catalog entry as no operation");
    assert_eq!(Notice::NoAccounts.message(), "no account available");
    assert_eq!(Notice::EmptyAccounts.message(), "no account in account list");
    assert_eq!(Notice::NoSubregions.message(), "no region available");
    assert_eq!(Notice::EmptySubregions.message(), "no subregion in region list");
    assert_eq!(Notice::NoVolumes.message(), "no volume available");
    assert_eq!(Notice::NoNatServices.message(), "no nat_service available!");
    assert_eq!(Notice::NoPublicIps.message(), "no public ip list provided");
    assert_eq!(Notice::PublicIpWithoutId.message(), "public ip has no id");
    assert_eq!(Notice::NoAccountId.message(), "warning: no account_id available... skipping");
    assert_eq!(Notice::NoSnapshots.message(), "warning: no snapshot available");
    assert_eq!(Notice::NoSnapshotPrice.message(), "gib price is not defined for snapshot");
    assert_eq!(
        Notice::VolumeWithoutType.message(),
        "warning: cannot get volume type in volume details"
    );
    assert_eq!(Notice::VolumeWithoutIops.message(), "cannot get iops in volume details");
    assert_eq!(Notice::VolumeWithoutSize.message(), "cannot get size in volume details");
    assert_eq!(Notice::NoPrice("a/b/c".to_string()).message(), "cannot find price for a/b/c");
    assert_eq!(no_entry("a/b/c").message(), "cannot find catalog entry for a/b/c");
    assert_eq!(
        Notice::NatServiceWithoutId("k".to_string()).message(),
        "cannot get nat_service_id content for k"
    );
    assert_eq!(
        Notice::PublicIpWithoutAddress("p".to_string()).message(),
        "cannot get public ip content for p"
    );
}

#[test]
fn an_answer_tells_whether_it_is_taken_in() {
    let taken_in = |event: Event<String>| event.taken_in();
    let entries = Catalog { entries: Some(vec![]) };
    assert_eq!(taken_in(Event::Catalog(Ok(Some(entries)))), Some(Stage::Catalog));
    assert_eq!(taken_in(Event::Catalog(Ok(Some(Catalog { entries: None })))), None);
    assert_eq!(taken_in(Event::Accounts(Ok(Some(vec![])))), None);
    let account = Account { account_id: None };
    assert_eq!(taken_in(Event::Accounts(Ok(Some(vec![account])))), Some(Stage::Account));
    let subregion = Subregion { region_name: None };
    assert_eq!(taken_in(Event::Subregions(Ok(Some(vec![subregion])))), Some(Stage::Region));
    assert_eq!(taken_in(Event::Volumes(Ok(Some(vec![])))), Some(Stage::Volumes));
    assert_eq!(taken_in(Event::NatServices(Ok(Some(vec![])))), Some(Stage::NatServices));
    assert_eq!(taken_in(Event::PublicIps(Ok(Some(vec![])))), Some(Stage::PublicIps));
    assert_eq!(taken_in(Event::Snapshots(Ok(Some(vec![])))), Some(Stage::Snapshots));
    assert_eq!(taken_in(Event::Snapshots(Ok(None))), None);
    assert_eq!(taken_in(Event::Start), None);
}
