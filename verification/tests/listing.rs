use osc_cost::clock::Timestamp;
use osc_cost::config::build_aws_config;
use osc_cost::model;
use osc_cost::model::{Account, CatalogEntry, Price, Vm};
use osc_cost::oapi::fill::OtherResources;
use osc_cost::oapi::pricing::{PublicIpCharge, VolumeSpecs};
use osc_cost::oapi::Input;
use osc_cost::resource::{NatServices, PublicIp, Resource, Resources, Snapshot, Volume};
use osc_cost::VERSION;
use outscale_api::apis::configuration::Configuration;

fn text(value: &str) -> Option<String> {
    Some(value.to_string())
}

fn price(value: f32) -> Price {
    Price { bits: value.to_bits() }
}

fn add_price(input: &mut Input, type_: &str, operation: &str, value: f32) {
    let entry = CatalogEntry {
        _type: text(type_),
        service: text("TinaOS-FCU"),
        operation: text(operation),
        unit_price: Some(price(value)),
    };
    input.catalog.insert_all(vec![entry]);
}

fn input() -> Input {
    let keys = build_aws_config("AK".to_string(), "SK".to_string(), "eu-west-2".to_string());
    let mut input = Input::new::<String>(Ok((Configuration::new(), keys))).unwrap();
    input.account = Some(Account { account_id: text("123") });
    input.region = text("eu-west-2");
    input.fetch_date = Timestamp::new(0, 0);
    input
}

fn volume(id: &str, type_: &str, iops: Option<i32>, size: Option<i32>) -> model::Volume {
    model::Volume { volume_id: text(id), volume_type: text(type_), iops, size }
}

fn public_ip(id: &str, address: Option<&str>, vm_id: Option<&str>) -> model::PublicIp {
    model::PublicIp {
        public_ip_id: text(id),
        public_ip: address.map(String::from),
        vm_id: vm_id.map(String::from),
    }
}

fn listed_volume(id: &str, type_: &str, iops: i32, size: i32, gb: f32, per_iops: f32) -> Volume {
    Volume {
        osc_cost_version: text(VERSION),
        account_id: text("123"),
        read_date_rfc3339: text("1970-01-01T00:00:00+00:00"),
        region: text("eu-west-2"),
        resource_id: text(id),
        price_per_hour: None,
        price_per_month: None,
        volume_type: text(type_),
        volume_iops: Some(iops),
        volume_size: Some(size),
        price_gb_per_month: price(gb),
        price_iops_per_month: price(per_iops),
    }
}

fn listed_public_ip(
    id: &str,
    non_attached: Option<f32>,
    first_ip: Option<f32>,
    next_ips: Option<f32>,
) -> PublicIp {
    PublicIp {
        osc_cost_version: text(VERSION),
        account_id: text("123"),
        read_date_rfc3339: text("1970-01-01T00:00:00+00:00"),
        region: text("eu-west-2"),
        resource_id: text(id),
        price_per_hour: None,
        price_per_month: None,
        price_non_attached: non_attached.map(price),
        price_first_ip: first_ip.map(price),
        price_next_ips: next_ips.map(price),
    }
}

fn listed_nat_service(id: &str, per_hour: Option<f32>) -> NatServices {
    NatServices {
        osc_cost_version: text(VERSION),
        account_id: text("123"),
        read_date_rfc3339: text("1970-01-01T00:00:00+00:00"),
        region: text("eu-west-2"),
        resource_id: text(id),
        price_per_hour: None,
        price_per_month: None,
        price_product_per_nat_service_per_hour: per_hour.map(price),
    }
}

fn listed_snapshot(id: &str, size: Option<i32>, gb: f32) -> Snapshot {
    Snapshot {
        osc_cost_version: text(VERSION),
        account_id: text("123"),
        read_date_rfc3339: text("1970-01-01T00:00:00+00:00"),
        region: text("eu-west-2"),
        resource_id: text(id),
        price_per_hour: None,
        price_per_month: None,
        volume_size_gib: size,
        price_gb_per_month: price(gb),
    }
}

fn none() -> OtherResources<&'static str> {
    OtherResources {
        vms: vec![],
        flexible_gpus: vec![],
        load_balancers: vec![],
        vpns: vec![],
        oos: vec![],
    }
}

#[test]
fn free_is_zero() {
    assert_eq!(Price::zero(), price(0_f32));
}

#[test]
fn a_standard_volume_is_listed_at_its_price() {
    let mut input = input();
    add_price(&mut input, "BSU:VolumeUsage:standard", "CreateVolume", 0.04);
    input.volumes.insert_all(vec![volume("v", "standard", None, Some(10))]);
    let mut resources: Resources<u8> = Resources::new();
    input.fill_resource_volume(&mut resources);
    let expected = listed_volume("v", "standard", 0, 10, 0.04, 0.0);
    assert_eq!(resources.resources, vec![Resource::Volume(expected)]);
}

#[test]
fn an_io1_volume_is_charged_for_its_iops() {
    let mut input = input();
    input.volumes.insert_all(vec![volume("v", "io1", Some(100), Some(10))]);
    add_price(&mut input, "BSU:VolumeUsage:io1", "CreateVolume", 0.13);
    let mut resources: Resources<u8> = Resources::new();
    input.fill_resource_volume(&mut resources);
    assert_eq!(resources.resources, vec![]);
    add_price(&mut input, "BSU:VolumeIOPS:io1", "CreateVolume", 0.01);
    input.fill_resource_volume(&mut resources);
    let expected = listed_volume("v", "io1", 100, 10, 0.13, 0.01);
    assert_eq!(resources.resources, vec![Resource::Volume(expected)]);
}

#[test]
fn a_volume_without_type_size_or_price_is_left_out() {
    let mut input = input();
    add_price(&mut input, "BSU:VolumeUsage:gp2", "CreateVolume", 0.11);
    assert_eq!(VolumeSpecs::new(&volume("v", "gp2", None, None), &input), None);
    let untyped = model::Volume { volume_type: None, ..volume("v", "", None, Some(1)) };
    assert_eq!(VolumeSpecs::new(&untyped, &input), None);
    assert_eq!(VolumeSpecs::new(&volume("v", "gp3", None, Some(1)), &input), None);
    let specs = VolumeSpecs {
        volume_type: "gp2".to_string(),
        size: 1,
        iops: 3,
        price_gb_per_month: price(0.11),
        price_iops_per_month: price(0.0),
    };
    assert_eq!(VolumeSpecs::new(&volume("v", "gp2", Some(3), Some(1)), &input), Some(specs));
}

#[test]
fn a_nat_service_is_listed_under_its_own_identifier() {
    let mut input = input();
    let unnamed = model::NatService { nat_service_id: None };
    let named = model::NatService { nat_service_id: text("nat-1") };
    input.nat_services.insert_all(vec![unnamed, named]);
    assert_eq!(input.nat_services.len(), 2);
    let mut resources: Resources<u8> = Resources::new();
    input.fill_resource_nat_service(&mut resources);
    let unpriced = listed_nat_service("nat-1", None);
    assert_eq!(resources.resources, vec![Resource::NatServices(unpriced)]);
    add_price(&mut input, "NatGatewayUsage", "CreateNatGateway", 0.05);
    let mut resources: Resources<u8> = Resources::new();
    input.fill_resource_nat_service(&mut resources);
    let priced = listed_nat_service("nat-1", Some(0.05));
    assert_eq!(resources.resources, vec![Resource::NatServices(priced)]);
}

#[test]
fn a_public_ip_is_charged_by_what_it_is_attached_to() {
    let mut input = input();
    input.vms.insert("vm".to_string(), Vm { public_ip: text("1.1.1.1") });
    input.vms.insert("bare".to_string(), Vm { public_ip: None });
    let idle = public_ip("a", Some("9.9.9.9"), None);
    let first = public_ip("b", Some("1.1.1.1"), Some("vm"));
    let next = public_ip("c", Some("2.2.2.2"), Some("vm"));
    let on_bare = public_ip("d", Some("3.3.3.3"), Some("bare"));
    let on_unknown = public_ip("e", Some("4.4.4.4"), Some("gone"));
    let unaddressed = public_ip("f", None, None);
    assert_eq!(input.public_ip_charge(&idle), None);
    assert_eq!(input.public_ip_charge(&next), None);
    add_price(&mut input, "ElasticIP:IdleAddress", "AssociateAddressVPC", 0.005);
    add_price(&mut input, "ElasticIP:AdditionalAddress", "AssociateAddressVPC", 0.006);
    assert_eq!(input.public_ip_charge(&idle), Some(PublicIpCharge::NonAttached(price(0.005))));
    assert_eq!(input.public_ip_charge(&first), Some(PublicIpCharge::FirstIp));
    assert_eq!(input.public_ip_charge(&next), Some(PublicIpCharge::NextIp(price(0.006))));
    assert_eq!(input.public_ip_charge(&on_bare), None);
    assert_eq!(input.public_ip_charge(&on_unknown), None);
    assert_eq!(input.public_ip_charge(&unaddressed), None);
    input.public_ips.insert_all(vec![idle, first, next, on_bare, on_unknown, unaddressed]);
    let mut resources: Resources<u8> = Resources::new();
    input.fill_resource_public_ip(&mut resources);
    assert_eq!(
        resources.resources,
        vec![
            Resource::PublicIp(listed_public_ip("a", Some(0.005), None, None)),
            Resource::PublicIp(listed_public_ip("b", None, Some(0.0), None)),
            Resource::PublicIp(listed_public_ip("c", None, None, Some(0.006))),
        ]
    );
}

#[test]
fn the_first_address_of_a_vm_is_free_without_a_catalog() {
    let mut input = input();
    input.vms.insert("vm".to_string(), Vm { public_ip: text("1.1.1.1") });
    let first = public_ip("b", Some("1.1.1.1"), Some("vm"));
    assert_eq!(input.public_ip_charge(&first), Some(PublicIpCharge::FirstIp));
}

#[test]
fn snapshots_are_listed_all_or_none() {
    let mut input = input();
    let sized = model::Snapshot { snapshot_id: text("s1"), volume_size: Some(8) };
    let unsized_ = model::Snapshot { snapshot_id: None, volume_size: None };
    input.snapshots.insert_all(vec![sized, unsized_]);
    let mut resources: Resources<u8> = Resources::new();
    input.fill_resource_snapshot(&mut resources);
    assert_eq!(resources.resources, vec![]);
    add_price(&mut input, "Snapshot:Usage", "Snapshot", 0.07);
    input.fill_resource_snapshot(&mut resources);
    assert_eq!(
        resources.resources,
        vec![
            Resource::Snapshot(listed_snapshot("s1", Some(8), 0.07)),
            Resource::Snapshot(listed_snapshot("", None, 0.07)),
        ]
    );
}

#[test]
fn a_listing_has_its_kinds_in_order() {
    let mut input = input();
    add_price(&mut input, "BSU:VolumeUsage:gp2", "CreateVolume", 0.11);
    add_price(&mut input, "ElasticIP:IdleAddress", "AssociateAddressVPC", 0.005);
    add_price(&mut input, "Snapshot:Usage", "Snapshot", 0.07);
    input.nat_services.insert_all(vec![model::NatService { nat_service_id: text("n") }]);
    let snapshot = model::Snapshot { snapshot_id: text("s"), volume_size: Some(8) };
    input.snapshots.insert_all(vec![snapshot]);
    input.public_ips.insert_all(vec![public_ip("p", Some("9.9.9.9"), None)]);
    input.volumes.insert_all(vec![volume("v", "gp2", None, Some(2))]);
    let others = OtherResources {
        vms: vec!["vm-1", "vm-2"],
        flexible_gpus: vec!["gpu"],
        load_balancers: vec!["lb"],
        vpns: vec!["vpn"],
        oos: vec!["bucket"],
    };
    let resources = Resources::from(input, others);
    assert_eq!(
        resources.resources,
        vec![
            Resource::Other("vm-1"),
            Resource::Other("vm-2"),
            Resource::Volume(listed_volume("v", "gp2", 0, 2, 0.11, 0.0)),
            Resource::PublicIp(listed_public_ip("p", Some(0.005), None, None)),
            Resource::Snapshot(listed_snapshot("s", Some(8), 0.07)),
            Resource::NatServices(listed_nat_service("n", None)),
            Resource::Other("gpu"),
            Resource::Other("lb"),
            Resource::Other("vpn"),
            Resource::Other("bucket"),
        ]
    );
}

#[test]
fn an_inventory_that_was_not_read_has_no_date() {
    let mut input = input();
    assert_eq!(input.read_date(), text("1970-01-01T00:00:00+00:00"));
    input.fetch_date = None;
    assert_eq!(input.read_date(), None);
    input.account = None;
    input.region = None;
    input.nat_services.insert_all(vec![model::NatService { nat_service_id: text("n") }]);
    let resources = Resources::from(input, none());
    match &resources.resources[..] {
        [Resource::NatServices(nat_service)] => {
            assert_eq!(nat_service.read_date_rfc3339, None);
            assert_eq!(nat_service.account_id, None);
            assert_eq!(nat_service.region, None);
            assert_eq!(nat_service.osc_cost_version, text(VERSION));
        }
        _ => panic!("the NAT service is listed"),
    }
}

#[test]
fn a_given_date_is_carried_as_it_is() {
    let mut input = input();
    input.nat_services.insert_all(vec![model::NatService { nat_service_id: text("n") }]);
    let resources = Resources::from_at(&input, &text("yesterday"), none());
    match &resources.resources[..] {
        [Resource::NatServices(nat_service)] => {
            assert_eq!(nat_service.read_date_rfc3339, text("yesterday"));
        }
        _ => panic!("the NAT service is listed"),
    }
}

#[test]
fn what_is_read_is_listed_once_at_its_price() {
    let mut input = input();
    add_price(&mut input, "BSU:VolumeUsage:gp2", "CreateVolume", 0.11);
    add_price(&mut input, "Snapshot:Usage", "Snapshot", 0.07);
    let answer = || vec![volume("v", "gp2", None, Some(1)), volume("v", "gp2", Some(4), Some(2))];
    assert!(input.fetch_volumes::<u8>(Ok(Some(answer()))).is_ok());
    assert!(input.fetch_volumes::<u8>(Ok(Some(answer()))).is_ok());
    let snapshot = || model::Snapshot { snapshot_id: text("s"), volume_size: Some(8) };
    assert!(input.fetch_snapshots::<u8>(Ok(Some(vec![snapshot(), snapshot()]))).is_ok());
    let nat_service = || model::NatService { nat_service_id: text("n") };
    assert!(input.fetch_nat_services::<u8>(Ok(Some(vec![nat_service(), nat_service()]))).is_ok());
    let resources = Resources::from(input, none());
    assert_eq!(
        resources.resources,
        vec![
            Resource::Volume(listed_volume("v", "gp2", 4, 2, 0.11, 0.0)),
            Resource::Snapshot(listed_snapshot("s", Some(8), 0.07)),
            Resource::NatServices(listed_nat_service("n", None)),
        ]
    );
}
