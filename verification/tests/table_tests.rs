use emulator::error::ErrorKind;
use emulator::tables::{
    best_route, insert_into_forwarding_table, insert_into_name_ilv_table,
    insert_into_nid_ilv_table, lookup_forwarding_table, lookup_forwarding_table_route,
    lookup_name_ilv_table, lookup_nid_ilv_table, select_bindings, select_names, BindingTable,
    ForwardingTable, NameTable, NeighbourTable, MAX_TTL_S,
};
use std::time::{Duration, Instant};

fn let_time_pass(millis: u64) {
    let start = Instant::now();
    while start.elapsed() < Duration::from_millis(millis) {
        std::hint::spin_loop();
    }
}

fn route(next_hop: u64, target: u64, interface: &str, hops: u8) -> (u64, u64, String, u8) {
    (next_hop, target, interface.to_string(), hops)
}

#[test]
fn neighbour_is_found_after_insert() {
    let mut table = NeighbourTable::new(4);
    assert_eq!(table.lookup(2), None);
    assert_eq!(table.insert(2, ("multi0".to_string(), 0xfe80, 5000), 30), Ok(()));
    assert_eq!(table.lookup(2), Some(("multi0".to_string(), 0xfe80, 5000)));
    assert_eq!(table.lookup(3), None);
}

#[test]
fn later_neighbour_entry_replaces_earlier() {
    let mut table = NeighbourTable::new(4);
    table.insert(2, ("multi0".to_string(), 0xfe80, 5000), 30).unwrap();
    table.insert(2, ("multi1".to_string(), 0xfe81, 5001), 30).unwrap();
    assert_eq!(table.lookup(2), Some(("multi1".to_string(), 0xfe81, 5001)));
}

#[test]
fn neighbour_entry_expires() {
    let mut table = NeighbourTable::new(4);
    table.insert(2, ("multi0".to_string(), 0xfe80, 5000), 1).unwrap();
    assert!(table.lookup(2).is_some());
    let_time_pass(1200);
    assert_eq!(table.lookup(2), None);
}

#[test]
fn table_without_room_stores_nothing() {
    let mut table = NeighbourTable::new(0);
    assert_eq!(table.insert(2, ("multi0".to_string(), 1, 1), 30), Ok(()));
    assert_eq!(table.lookup(2), None);
}

#[test]
fn full_table_drops_the_oldest() {
    let mut table = NeighbourTable::new(2);
    table.insert(1, ("a".to_string(), 1, 1), 30).unwrap();
    table.insert(2, ("b".to_string(), 2, 2), 30).unwrap();
    table.insert(3, ("c".to_string(), 3, 3), 30).unwrap();
    assert_eq!(table.lookup(1), None);
    assert_eq!(table.lookup(2), Some(("b".to_string(), 2, 2)));
    assert_eq!(table.lookup(3), Some(("c".to_string(), 3, 3)));
}

#[test]
fn lifetime_beyond_the_limit_is_refused() {
    let mut neighbours = NeighbourTable::new(2);
    assert_eq!(
        neighbours.insert(1, ("a".to_string(), 1, 1), MAX_TTL_S + 1),
        Err(ErrorKind::ConfigError)
    );
    assert_eq!(neighbours.lookup(1), None);
    let mut names = NameTable::new(2);
    assert_eq!(
        insert_into_name_ilv_table(&mut names, ("n".to_string(), 1, 2), u64::MAX),
        Err(ErrorKind::ConfigError)
    );
    assert!(lookup_name_ilv_table(&names, &"n".to_string()).is_empty());
    let mut bindings = BindingTable::new(2);
    assert_eq!(
        insert_into_nid_ilv_table(&mut bindings, (1, 2), MAX_TTL_S + 1),
        Err(ErrorKind::ConfigError)
    );
    assert!(lookup_nid_ilv_table(&bindings, &1).is_empty());
    let mut routes = ForwardingTable::new(2);
    assert_eq!(
        insert_into_forwarding_table(&mut routes, route(1, 2, "multi0", 1), MAX_TTL_S + 1),
        Err(ErrorKind::ConfigError)
    );
    assert_eq!(lookup_forwarding_table_route(&routes, &2), Err(ErrorKind::ResolutionFailure));
}

#[test]
fn longest_lifetime_is_accepted() {
    let mut bindings = BindingTable::new(2);
    assert_eq!(insert_into_nid_ilv_table(&mut bindings, (1, 2), MAX_TTL_S), Ok(()));
    assert_eq!(lookup_nid_ilv_table(&bindings, &1), vec![(1, 2)]);
}

#[test]
fn names_are_looked_up_by_name() {
    let mut table = NameTable::new(8);
    insert_into_name_ilv_table(&mut table, ("node2".to_string(), 2, 0xAA), 30).unwrap();
    insert_into_name_ilv_table(&mut table, ("node3".to_string(), 3, 0xAA), 30).unwrap();
    insert_into_name_ilv_table(&mut table, ("node2".to_string(), 2, 0xBB), 30).unwrap();
    assert_eq!(
        lookup_name_ilv_table(&table, &"node2".to_string()),
        vec![("node2".to_string(), 2, 0xAA), ("node2".to_string(), 2, 0xBB)]
    );
    assert_eq!(
        lookup_name_ilv_table(&table, &"node3".to_string()),
        vec![("node3".to_string(), 3, 0xAA)]
    );
    assert!(lookup_name_ilv_table(&table, &"node4".to_string()).is_empty());
}

#[test]
fn name_entry_is_unique_by_identifier_and_locator() {
    let mut table = NameTable::new(8);
    insert_into_name_ilv_table(&mut table, ("old".to_string(), 2, 0xAA), 30).unwrap();
    insert_into_name_ilv_table(&mut table, ("new".to_string(), 2, 0xAA), 30).unwrap();
    assert!(lookup_name_ilv_table(&table, &"old".to_string()).is_empty());
    assert_eq!(
        lookup_name_ilv_table(&table, &"new".to_string()),
        vec![("new".to_string(), 2, 0xAA)]
    );
}

#[test]
fn name_entry_expires() {
    let mut table = NameTable::new(8);
    insert_into_name_ilv_table(&mut table, ("node2".to_string(), 2, 0xAA), 1).unwrap();
    assert_eq!(lookup_name_ilv_table(&table, &"node2".to_string()).len(), 1);
    let_time_pass(1200);
    assert!(lookup_name_ilv_table(&table, &"node2".to_string()).is_empty());
}

#[test]
fn bindings_are_looked_up_by_identifier() {
    let mut table = BindingTable::new(8);
    insert_into_nid_ilv_table(&mut table, (2, 0xAA), 30).unwrap();
    insert_into_nid_ilv_table(&mut table, (3, 0xAA), 30).unwrap();
    insert_into_nid_ilv_table(&mut table, (2, 0xBB), 30).unwrap();
    insert_into_nid_ilv_table(&mut table, (2, 0xAA), 30).unwrap();
    assert_eq!(lookup_nid_ilv_table(&table, &2), vec![(2, 0xBB), (2, 0xAA)]);
    assert_eq!(lookup_nid_ilv_table(&table, &3), vec![(3, 0xAA)]);
    assert!(lookup_nid_ilv_table(&table, &4).is_empty());
}

#[test]
fn route_is_looked_up_by_next_hop_and_target() {
    let mut table = ForwardingTable::new(8);
    insert_into_forwarding_table(&mut table, route(10, 0xBB, "multi0", 2), 30).unwrap();
    insert_into_forwarding_table(&mut table, route(11, 0xBB, "multi1", 3), 30).unwrap();
    assert_eq!(lookup_forwarding_table(&table, &10, &0xBB), Ok(route(10, 0xBB, "multi0", 2)));
    assert_eq!(lookup_forwarding_table(&table, &11, &0xBB), Ok(route(11, 0xBB, "multi1", 3)));
    assert_eq!(lookup_forwarding_table(&table, &10, &0xCC), Err(ErrorKind::ResolutionFailure));
    assert_eq!(lookup_forwarding_table(&table, &12, &0xBB), Err(ErrorKind::ResolutionFailure));
}

#[test]
fn route_with_zero_identifier_or_locator_is_found() {
    let mut table = ForwardingTable::new(8);
    insert_into_forwarding_table(&mut table, route(0, 0, "multi0", 4), 30).unwrap();
    assert_eq!(lookup_forwarding_table_route(&table, &0), Ok(route(0, 0, "multi0", 4)));
    assert_eq!(lookup_forwarding_table(&table, &0, &0), Ok(route(0, 0, "multi0", 4)));
}

#[test]
fn best_route_has_fewest_hops_in_either_order() {
    let mut first = ForwardingTable::new(8);
    insert_into_forwarding_table(&mut first, route(10, 0xBB, "multi0", 2), 30).unwrap();
    insert_into_forwarding_table(&mut first, route(11, 0xBB, "multi1", 3), 30).unwrap();
    assert_eq!(lookup_forwarding_table_route(&first, &0xBB), Ok(route(10, 0xBB, "multi0", 2)));
    let mut second = ForwardingTable::new(8);
    insert_into_forwarding_table(&mut second, route(11, 0xBB, "multi1", 3), 30).unwrap();
    insert_into_forwarding_table(&mut second, route(10, 0xBB, "multi0", 2), 30).unwrap();
    assert_eq!(lookup_forwarding_table_route(&second, &0xBB), Ok(route(10, 0xBB, "multi0", 2)));
}

#[test]
fn best_route_ignores_other_targets() {
    let mut table = ForwardingTable::new(8);
    insert_into_forwarding_table(&mut table, route(10, 0xCC, "multi0", 1), 30).unwrap();
    insert_into_forwarding_table(&mut table, route(11, 0xBB, "multi1", 5), 30).unwrap();
    assert_eq!(lookup_forwarding_table_route(&table, &0xBB), Ok(route(11, 0xBB, "multi1", 5)));
    assert_eq!(lookup_forwarding_table_route(&table, &0xDD), Err(ErrorKind::ResolutionFailure));
}

#[test]
fn route_expires() {
    let mut table = ForwardingTable::new(8);
    insert_into_forwarding_table(&mut table, route(10, 0xBB, "multi0", 2), 1).unwrap();
    assert!(lookup_forwarding_table_route(&table, &0xBB).is_ok());
    assert!(lookup_forwarding_table(&table, &10, &0xBB).is_ok());
    let_time_pass(1200);
    assert_eq!(lookup_forwarding_table_route(&table, &0xBB), Err(ErrorKind::ResolutionFailure));
    assert_eq!(lookup_forwarding_table(&table, &10, &0xBB), Err(ErrorKind::ResolutionFailure));
}

#[test]
fn best_route_prefers_the_earlier_of_equals() {
    let live = vec![
        route(1, 0xBB, "multi0", 3),
        route(2, 0xBB, "multi1", 2),
        route(3, 0xBB, "multi2", 2),
        route(4, 0xCC, "multi3", 1),
    ];
    assert_eq!(best_route(&live, 0xBB), Some(route(2, 0xBB, "multi1", 2)));
    assert_eq!(best_route(&live, 0xCC), Some(route(4, 0xCC, "multi3", 1)));
    assert_eq!(best_route(&live, 0xDD), None);
    assert_eq!(best_route(&Vec::new(), 0xBB), None);
}

#[test]
fn selection_keeps_order() {
    let names = vec![
        ("a".to_string(), 1, 10),
        ("b".to_string(), 2, 20),
        ("a".to_string(), 3, 30),
    ];
    assert_eq!(
        select_names(&names, &"a".to_string()),
        vec![("a".to_string(), 1, 10), ("a".to_string(), 3, 30)]
    );
    assert!(select_names(&names, &"c".to_string()).is_empty());
    let bindings = vec![(1, 10), (2, 20), (1, 30)];
    assert_eq!(select_bindings(&bindings, 1), vec![(1, 10), (1, 30)]);
    assert!(select_bindings(&bindings, 3).is_empty());
}
