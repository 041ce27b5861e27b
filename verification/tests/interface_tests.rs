use emulator::error::ErrorKind;
use emulator::interfaces::{
    get_over_interface_by_locator, get_over_interface_by_name, get_over_interfaces,
    get_over_locators, is_text, InterfaceTable,
};

fn registry() -> InterfaceTable {
    let mut table = InterfaceTable::new();
    table.insert("multi0".to_string(), 0xAA, 0xff02_0000_0000_0001_0000_0000_0000_00AA);
    table.insert("multi1".to_string(), 0xBB, 0xff02_0000_0000_0001_0000_0000_0000_00BB);
    table.insert("dns".to_string(), 0x53535353, 0xff02_0000_0000_0001_0000_0000_5353_5353);
    table.insert("log".to_string(), 0x10001, 0xff02_0000_0000_0001_0000_0000_0001_0001);
    table
}

#[test]
fn new_registry_is_empty() {
    let table = InterfaceTable::new();
    assert!(table.entries.is_empty());
    assert!(get_over_interfaces(&table).is_empty());
    assert!(get_over_locators(&table).is_empty());
}

#[test]
fn interface_is_found_by_name() {
    let table = registry();
    assert_eq!(
        get_over_interface_by_name(&table, &"multi1".to_string()),
        Ok((0xBB, 0xff02_0000_0000_0001_0000_0000_0000_00BB))
    );
    assert_eq!(
        get_over_interface_by_name(&table, &"dns".to_string()),
        Ok((0x53535353, 0xff02_0000_0000_0001_0000_0000_5353_5353))
    );
}

#[test]
fn missing_interface_name_is_a_config_error() {
    let table = registry();
    assert_eq!(
        get_over_interface_by_name(&table, &"multi7".to_string()),
        Err(ErrorKind::ConfigError)
    );
    assert_eq!(
        get_over_interface_by_name(&InterfaceTable::new(), &"dns".to_string()),
        Err(ErrorKind::ConfigError)
    );
}

#[test]
fn interface_is_found_by_locator() {
    let table = registry();
    assert_eq!(get_over_interface_by_locator(&table, &0xAA), Ok("multi0".to_string()));
    assert_eq!(get_over_interface_by_locator(&table, &0xBB), Ok("multi1".to_string()));
    assert_eq!(get_over_interface_by_locator(&table, &0x53535353), Ok("dns".to_string()));
}

#[test]
fn first_interface_on_a_locator_wins() {
    let mut table = InterfaceTable::new();
    table.insert("multi0".to_string(), 0xAA, 1);
    table.insert("multi1".to_string(), 0xAA, 2);
    assert_eq!(get_over_interface_by_locator(&table, &0xAA), Ok("multi0".to_string()));
}

#[test]
fn missing_locator_is_a_config_error() {
    assert_eq!(get_over_interface_by_locator(&registry(), &0xCC), Err(ErrorKind::ConfigError));
}

#[test]
fn network_interfaces_leave_out_dns_and_log() {
    assert_eq!(
        get_over_interfaces(&registry()),
        vec![
            ("multi0".to_string(), (0xAAu64, 0xff02_0000_0000_0001_0000_0000_0000_00AAu128)),
            ("multi1".to_string(), (0xBBu64, 0xff02_0000_0000_0001_0000_0000_0000_00BBu128)),
        ]
    );
}

#[test]
fn listened_locators_leave_out_log_only() {
    assert_eq!(get_over_locators(&registry()), vec![0xAA, 0xBB, 0x53535353]);
}

#[test]
fn inserting_a_known_name_replaces_it_in_place() {
    let mut table = registry();
    table.insert("multi0".to_string(), 0xCC, 9);
    assert_eq!(table.entries.len(), 4);
    assert_eq!(table.entries[0], ("multi0".to_string(), (0xCC, 9)));
    assert_eq!(get_over_interface_by_name(&table, &"multi0".to_string()), Ok((0xCC, 9)));
    assert_eq!(get_over_interface_by_locator(&table, &0xAA), Err(ErrorKind::ConfigError));
}

#[test]
fn text_comparison_is_exact() {
    assert!(is_text(&"dns".to_string(), "dns"));
    assert!(!is_text(&"dns0".to_string(), "dns"));
    assert!(!is_text(&"".to_string(), "dns"));
}
