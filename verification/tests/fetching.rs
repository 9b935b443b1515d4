use chrono::{DateTime, Utc};
use osc_cost::config::build_aws_config;
use osc_cost::model::{
    Account, Catalog, CatalogEntry, Filter, NatService, Price, PublicIp, Snapshot, Subregion,
    Volume,
};
use osc_cost::oapi::fetch::{Action, Event, Handled, Sibling, Stage, TagFilters, Task};
use osc_cost::oapi::Input;
use osc_cost::throttle::ApiError;
use outscale_api::apis::configuration::Configuration;

fn text(value: &str) -> Option<String> {
    Some(value.to_string())
}

fn texts(values: &[&str]) -> Vec<String> {
    values.iter().map(|value| value.to_string()).collect()
}

fn input() -> Input {
    let keys = build_aws_config("AK".to_string(), "SK".to_string(), "eu-west-2".to_string());
    Input::new::<String>(Ok((Configuration::new(), keys))).unwrap()
}

fn entry(service: &str, type_: &str, operation: &str, bits: u32) -> CatalogEntry {
    CatalogEntry {
        _type: text(type_),
        service: text(service),
        operation: text(operation),
        unit_price: Some(Price { bits }),
    }
}

fn catalog(entries: Vec<CatalogEntry>) -> Event<String> {
    Event::Catalog(Ok(Some(Catalog { entries: Some(entries) })))
}

fn no_tags() -> TagFilters {
    TagFilters { tag_keys: None, tag_values: None, tags: None }
}

fn throttled() -> ApiError<String> {
    ApiError { status: Some(503), error: "busy".to_string() }
}

fn at_once(task: Task) -> Result<Action, String> {
    Ok(Action { pause_ms: None, task })
}

#[test]
fn a_new_inventory_is_empty() {
    let input = input();
    assert_eq!(input.aws_config.endpoint_url(), Some("https://oos.eu-west-2.outscale.com"));
    assert_eq!(input.config.base_path, Configuration::new().base_path);
    assert_eq!(input.vms.len(), 0);
    assert_eq!(input.vms_images.len(), 0);
    assert_eq!(input.vm_types.len(), 0);
    assert_eq!(input.flexible_gpus.len(), 0);
    assert!(input.load_balancers.is_empty());
    assert!(input.vpns.is_empty());
    assert_eq!(input.buckets.len(), 0);
    assert_eq!(input.catalog.len(), 0);
    assert!(!input.need_vm_types_fetch);
    assert_eq!(input.account, None);
    assert_eq!(input.region, None);
    assert_eq!(input.nat_services.len(), 0);
    assert_eq!(input.volumes.len(), 0);
    assert_eq!(input.snapshots.len(), 0);
    assert_eq!(input.fetch_date, None);
    assert_eq!(input.public_ips.len(), 0);
    assert_eq!(input.filters, None);
}

#[test]
fn without_access_there_is_no_inventory() {
    assert_eq!(Input::new(Err("no access")).err(), Some("no access"));
}

#[test]
fn a_fetch_goes_through_its_stages() {
    let mut input = input();
    let before = Utc::now();
    assert_eq!(input.fetch::<String>(Event::Start), at_once(Task::Sibling(Sibling::Vms)));
    let date = input.fetch_date.unwrap().to_rfc3339();
    let date = DateTime::parse_from_rfc3339(&date).unwrap();
    assert!(before <= date && date <= Utc::now());
    assert!(date.timestamp_subsec_nanos() < 1_000_000_000);
    let done = |sibling| Event::<String>::Sibling(sibling, Ok(()));
    assert_eq!(input.fetch(done(Sibling::Vms)), at_once(Task::Sibling(Sibling::VmsImages)));
    assert_eq!(input.fetch(done(Sibling::VmsImages)), at_once(Task::ReadCatalog));
    assert_eq!(input.fetch(catalog(vec![])), at_once(Task::ReadAccounts));
    let account = vec![Account { account_id: text("123") }];
    assert_eq!(
        input.fetch::<String>(Event::Accounts(Ok(Some(account)))),
        at_once(Task::ReadSubregions)
    );
    let subregion = vec![Subregion { region_name: text("eu-west-2") }];
    assert_eq!(
        input.fetch::<String>(Event::Subregions(Ok(Some(subregion)))),
        at_once(Task::ReadVolumes(no_tags()))
    );
    assert_eq!(
        input.fetch::<String>(Event::Volumes(Ok(None))),
        at_once(Task::ReadNatServices(no_tags()))
    );
    assert_eq!(
        input.fetch::<String>(Event::NatServices(Ok(None))),
        at_once(Task::ReadPublicIps(no_tags()))
    );
    match input.fetch::<String>(Event::PublicIps(Ok(None))) {
        Ok(Action { pause_ms: None, task: Task::ReadSnapshots(filters) }) => {
            assert_eq!(filters.account_ids, texts(&["123"]));
            assert_eq!(filters.tags, no_tags());
        }
        _ => panic!("the snapshots come next"),
    }
    assert_eq!(
        input.fetch::<String>(Event::Snapshots(Ok(None))),
        at_once(Task::Sibling(Sibling::FlexibleGpus))
    );
    assert_eq!(
        input.fetch(done(Sibling::FlexibleGpus)),
        at_once(Task::Sibling(Sibling::LoadBalancers))
    );
    assert_eq!(input.fetch(done(Sibling::LoadBalancers)), at_once(Task::Sibling(Sibling::Vpns)));
    assert_eq!(input.fetch(done(Sibling::Vpns)), at_once(Task::Sibling(Sibling::Buckets)));
    assert_eq!(input.fetch(done(Sibling::Buckets)), at_once(Task::Finish));
}

#[test]
fn the_vm_types_are_read_when_they_are_needed() {
    let mut input = input();
    input.need_vm_types_fetch = true;
    assert_eq!(input.fetch(catalog(vec![])), at_once(Task::Sibling(Sibling::VmTypes)));
    assert_eq!(
        input.fetch::<String>(Event::Sibling(Sibling::VmTypes, Ok(()))),
        at_once(Task::ReadAccounts)
    );
}

#[test]
fn the_snapshots_are_passed_over_without_an_account() {
    let mut input = input();
    assert_eq!(
        input.fetch::<String>(Event::PublicIps(Ok(None))),
        at_once(Task::Sibling(Sibling::FlexibleGpus))
    );
    input.account = Some(Account { account_id: None });
    assert_eq!(
        input.fetch::<String>(Event::PublicIps(Ok(None))),
        at_once(Task::Sibling(Sibling::FlexibleGpus))
    );
    assert!(input.snapshot_filters().is_none());
}

#[test]
fn the_tags_of_the_user_narrow_down_the_calls() {
    let mut input = input();
    input.account = Some(Account { account_id: text("123") });
    input.filters = Some(Filter {
        filter_tag_key: texts(&["k"]),
        filter_tag_value: texts(&["v", "w"]),
        filter_tag: texts(&["k=v"]),
    });
    let tags = || TagFilters {
        tag_keys: Some(texts(&["k"])),
        tag_values: Some(texts(&["v", "w"])),
        tags: Some(texts(&["k=v"])),
    };
    assert_eq!(input.task_at(Stage::Volumes), Task::ReadVolumes(tags()));
    assert_eq!(input.task_at(Stage::NatServices), Task::ReadNatServices(tags()));
    assert_eq!(input.task_at(Stage::PublicIps), Task::ReadPublicIps(tags()));
    match input.task_at(Stage::Snapshots) {
        Task::ReadSnapshots(filters) => {
            assert_eq!(filters.account_ids, texts(&["123"]));
            assert_eq!(filters.tags, tags());
        }
        _ => panic!("the snapshots are read"),
    }
}

#[test]
fn a_throttled_call_is_repeated_after_a_pause() {
    let mut input = input();
    match input.fetch(Event::Volumes(Err(throttled()))) {
        Ok(Action { pause_ms: Some(ms), task }) => {
            assert!((1000..10000).contains(&ms));
            assert_eq!(task, Task::ReadVolumes(no_tags()));
        }
        _ => panic!("a throttled call is repeated"),
    }
    assert_eq!(input.volumes.len(), 0);
}

#[test]
fn a_failure_ends_the_fetch() {
    let mut input = input();
    let failure = |status| ApiError { status, error: "broken".to_string() };
    assert_eq!(input.fetch(Event::Catalog(Err(failure(Some(500))))), Err("broken".to_string()));
    assert_eq!(input.fetch(Event::Accounts(Err(failure(None)))), Err("broken".to_string()));
    assert_eq!(
        input.fetch(Event::Sibling(Sibling::Vms, Err("broken".to_string()))),
        Err("broken".to_string())
    );
}

#[test]
fn every_kind_of_reply_is_settled() {
    let mut input = input();
    assert!(matches!(input.fetch_catalog(Err(throttled())), Ok(Handled::Retry(_))));
    assert!(matches!(input.fetch_account(Err(throttled())), Ok(Handled::Retry(_))));
    assert!(matches!(input.fetch_region(Err(throttled())), Ok(Handled::Retry(_))));
    assert!(matches!(input.fetch_volumes(Err(throttled())), Ok(Handled::Retry(_))));
    assert!(matches!(input.fetch_nat_services(Err(throttled())), Ok(Handled::Retry(_))));
    assert!(matches!(input.fetch_public_ips(Err(throttled())), Ok(Handled::Retry(_))));
    assert!(matches!(input.fetch_snapshots(Err(throttled())), Ok(Handled::Retry(_))));
    let failure = || ApiError { status: Some(400), error: 7 };
    assert_eq!(input.fetch_region(Err(failure())), Err(7));
    assert_eq!(input.fetch_snapshots(Err(failure())), Err(7));
    assert_eq!(input.fetch_volumes::<u8>(Ok(None)), Ok(Handled::Stored));
}

#[test]
fn the_catalog_keeps_entries_with_an_identifier() {
    let mut input = input();
    let mut entries = vec![entry("S", "T", "O", 5), entry("S", "T2", "O", 6)];
    entries.push(CatalogEntry { _type: None, ..entry("S", "", "O", 1) });
    entries.push(CatalogEntry { service: None, ..entry("", "T", "O", 1) });
    entries.push(CatalogEntry { operation: None, ..entry("S", "T", "", 1) });
    entries.push(CatalogEntry { unit_price: None, ..entry("S", "T3", "O", 1) });
    assert!(input.fetch(catalog(entries)).is_ok());
    assert_eq!(input.catalog.len(), 3);
    assert_eq!(input.catalog_entry("S", "T", "O"), Some(Price { bits: 5 }));
    assert_eq!(input.catalog_entry("S", "T2", "O"), Some(Price { bits: 6 }));
    assert_eq!(input.catalog_entry("S", "T3", "O"), None);
    assert_eq!(input.catalog_entry("S", "T", "X"), None);
    assert!(input.catalog.get("S/T/O").is_some());
}

#[test]
fn the_last_price_of_an_entry_counts() {
    let mut input = input();
    assert!(input.fetch(catalog(vec![entry("S", "T", "O", 5), entry("S", "T", "O", 9)])).is_ok());
    assert_eq!(input.catalog_entry("S", "T", "O"), Some(Price { bits: 9 }));
    assert!(input.fetch(catalog(vec![entry("S", "T", "O", 4)])).is_ok());
    assert_eq!(input.catalog_entry("S", "T", "O"), Some(Price { bits: 4 }));
    assert!(input.fetch(catalog(vec![])).is_ok());
    assert!(input.fetch::<String>(Event::Catalog(Ok(None))).is_ok());
    assert!(input.fetch::<String>(Event::Catalog(Ok(Some(Catalog { entries: None })))).is_ok());
    assert_eq!(input.catalog_entry("S", "T", "O"), Some(Price { bits: 4 }));
}

#[test]
fn the_first_account_and_region_are_kept() {
    let mut input = input();
    let accounts = vec![Account { account_id: text("1") }, Account { account_id: text("2") }];
    assert_eq!(input.fetch_account::<u8>(Ok(Some(accounts))), Ok(Handled::Stored));
    assert_eq!(input.account_id(), text("1"));
    assert_eq!(input.fetch_account::<u8>(Ok(Some(vec![]))), Ok(Handled::Stored));
    assert_eq!(input.fetch_account::<u8>(Ok(None)), Ok(Handled::Stored));
    assert_eq!(input.account_id(), text("1"));
    let regions = vec![Subregion { region_name: text("r") }, Subregion { region_name: None }];
    assert_eq!(input.fetch_region::<u8>(Ok(Some(regions))), Ok(Handled::Stored));
    assert_eq!(input.region, text("r"));
    assert_eq!(input.fetch_region::<u8>(Ok(Some(vec![]))), Ok(Handled::Stored));
    assert_eq!(input.region, text("r"));
    let nameless = vec![Subregion { region_name: None }];
    assert_eq!(input.fetch_region::<u8>(Ok(Some(nameless))), Ok(Handled::Stored));
    assert_eq!(input.region, None);
}

#[test]
fn what_is_read_is_kept() {
    let mut input = input();
    let volume = Volume { volume_id: text("v"), volume_type: None, iops: None, size: Some(1) };
    assert_eq!(input.fetch_volumes::<u8>(Ok(Some(vec![volume]))), Ok(Handled::Stored));
    assert_eq!(input.volumes.get("v").unwrap().size, Some(1));
    let nat_service = NatService { nat_service_id: text("n") };
    assert_eq!(input.fetch_nat_services::<u8>(Ok(Some(vec![nat_service]))), Ok(Handled::Stored));
    assert!(input.nat_services.get("n").is_some());
    let public_ip = PublicIp { public_ip_id: text("p"), public_ip: None, vm_id: text("vm") };
    assert_eq!(input.fetch_public_ips::<u8>(Ok(Some(vec![public_ip]))), Ok(Handled::Stored));
    assert_eq!(input.public_ips.get("p").unwrap().vm_id, text("vm"));
    let snapshot = Snapshot { snapshot_id: text("s"), volume_size: Some(4) };
    assert_eq!(input.fetch_snapshots::<u8>(Ok(Some(vec![snapshot]))), Ok(Handled::Stored));
    assert_eq!(input.snapshots.get("s").unwrap().volume_size, Some(4));
}

#[test]
fn entries_without_a_slash_are_told_apart() {
    let mut input = input();
    let entries = vec![entry("a", "b", "c", 1), entry("a", "c", "b", 2), entry("ab", "", "c", 3)];
    assert!(input.fetch(catalog(entries)).is_ok());
    assert_eq!(input.catalog_entry("a", "b", "c"), Some(Price { bits: 1 }));
    assert_eq!(input.catalog_entry("a", "c", "b"), Some(Price { bits: 2 }));
    assert_eq!(input.catalog_entry("ab", "", "c"), Some(Price { bits: 3 }));
    assert!(input.fetch(catalog(vec![entry("a/b", "c", "d", 4)])).is_ok());
    assert_eq!(input.catalog_entry("a", "b/c", "d"), Some(Price { bits: 4 }));
}

#[test]
fn a_stage_is_taken_up_again_with_the_same_task() {
    let mut input = input();
    input.account = Some(Account { account_id: text("123") });
    for (stage, event) in [
        (Stage::Catalog, Event::Catalog(Err(throttled()))),
        (Stage::Account, Event::Accounts(Err(throttled()))),
        (Stage::Region, Event::Subregions(Err(throttled()))),
        (Stage::NatServices, Event::NatServices(Err(throttled()))),
        (Stage::PublicIps, Event::PublicIps(Err(throttled()))),
        (Stage::Snapshots, Event::Snapshots(Err(throttled()))),
    ] {
        let task = input.task_at(stage);
        assert_eq!(input.fetch(event).unwrap().task, task);
    }
}
