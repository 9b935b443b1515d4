use osc_cost::model::{NatService, PublicIp, Volume};
use osc_cost::table::Table;

fn volume(id: Option<&str>, size: i32) -> Volume {
    Volume { volume_id: id.map(String::from), volume_type: None, iops: None, size: Some(size) }
}

#[test]
fn a_new_table_is_empty() {
    let table: Table<u32> = Table::new();
    assert_eq!(table.len(), 0);
    assert_eq!(table.get(""), None);
}

#[test]
fn a_stored_value_is_found_and_others_stay() {
    let mut table: Table<u32> = Table::new();
    table.insert("a".to_string(), 1);
    table.insert("b".to_string(), 2);
    assert_eq!(table.get("a"), Some(&1));
    assert_eq!(table.get("b"), Some(&2));
    assert_eq!(table.get("c"), None);
    assert_eq!(table.len(), 2);
}

#[test]
fn a_new_value_takes_the_place_of_the_old_one() {
    let mut table: Table<u32> = Table::new();
    table.insert("a".to_string(), 1);
    table.insert("b".to_string(), 2);
    table.insert("a".to_string(), 3);
    assert_eq!(table.len(), 2);
    assert_eq!(table.row(0), (&"a".to_string(), &3));
    assert_eq!(table.row(1), (&"b".to_string(), &2));
}

#[test]
fn the_last_item_of_a_key_stays() {
    let mut table = Table::new();
    table.insert_all(vec![volume(Some("v"), 1), volume(Some("w"), 2), volume(Some("v"), 3)]);
    assert_eq!(table.len(), 2);
    assert_eq!(table.get("v"), Some(&volume(Some("v"), 3)));
    assert_eq!(table.row(0).0, "v");
}

#[test]
fn the_same_answer_again_changes_nothing() {
    let answer = || vec![volume(Some("v"), 1), volume(None, 2), volume(Some("v"), 3)];
    let mut table = Table::new();
    table.insert_all(answer());
    table.insert_all(answer());
    assert_eq!(table.len(), 2);
    assert_eq!(table.row(0), (&"v".to_string(), &volume(Some("v"), 3)));
    assert_eq!(table.row(1), (&"".to_string(), &volume(None, 2)));
}

#[test]
fn a_volume_without_an_identifier_has_the_empty_key() {
    let mut table = Table::new();
    table.insert_all(vec![volume(None, 1), volume(None, 2)]);
    assert_eq!(table.len(), 1);
    assert_eq!(table.get(""), Some(&volume(None, 2)));
}

#[test]
fn a_nat_service_without_an_identifier_has_the_empty_key() {
    let mut table = Table::new();
    table.insert_all(vec![NatService { nat_service_id: None }]);
    assert_eq!(table.get(""), Some(&NatService { nat_service_id: None }));
}

#[test]
fn a_public_ip_without_an_identifier_is_left_out() {
    let mut table = Table::new();
    let address = Some("1.2.3.4".to_string());
    table.insert_all(vec![PublicIp { public_ip_id: None, public_ip: address, vm_id: None }]);
    assert_eq!(table.len(), 0);
}
