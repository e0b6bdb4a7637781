use hass_mqtt::mqtt::router::{Router, RouterEntry};

fn insert(router: &mut Router, route: &str, data: u64, value: u64) -> (usize, u64) {
    match router.entry(route.to_string()) {
        RouterEntry::Occupied(e) => e.insert(value),
        RouterEntry::Vacant(e) => e.insert(data, value),
    }
}

fn values(router: &Router, route: &str) -> Vec<u64> {
    router.matches(route).iter().map(|m| m.value()).collect()
}

#[test]
fn router_matches_in_insertion_order() {
    let mut router = Router::new();
    let r1 = insert(&mut router, "app/default/light/bedroom/brightness", 10, 1);
    let r2 = insert(&mut router, "app/default/light/bedroom/temperature", 20, 2);
    let r3 = insert(&mut router, "app/default/light/bedroom/brightness", 30, 3);
    let r4 = insert(&mut router, "app/default/light/bedroom/temperature", 40, 4);

    assert_eq!(values(&router, "app/default/light/bedroom/brightness"), vec![1, 3]);
    assert_eq!(values(&router, "app/default/light/bedroom/temperature"), vec![2, 4]);
    assert_eq!(values(&router, "app/default/light/bedroom/other"), Vec::<u64>::new());

    let ids: Vec<_> = router.matches("app/default/light/bedroom/brightness").iter().map(|m| m.id()).collect();
    assert_eq!(ids, vec![r1, r3]);

    assert_eq!(router.remove(r1), Some((1, None)));
    assert_eq!(router.remove(r2), Some((2, None)));
    assert_eq!(router.remove(r3), Some((3, Some(10))));
    assert_eq!(router.remove(r4), Some((4, Some(20))));
    assert_eq!(values(&router, "app/default/light/bedroom/brightness"), Vec::<u64>::new());
}

#[test]
fn router_remove_absent_is_none() {
    let mut router = Router::new();
    let id = insert(&mut router, "a/b", 7, 70);
    assert_eq!(router.remove(id), Some((70, Some(7))));
    assert_eq!(router.remove(id), None);
    let other = insert(&mut router, "a/b", 8, 80);
    assert_ne!(other, id);
    assert_eq!(router.remove(id), None);
    assert_eq!(values(&router, "a/b"), vec![80]);
}

#[test]
fn router_new_route_round_trip() {
    let mut router = Router::new();
    let keep = insert(&mut router, "x", 1, 11);
    let id = insert(&mut router, "y", 2, 22);
    assert_eq!(router.remove(id), Some((22, Some(2))));
    assert_eq!(values(&router, "x"), vec![11]);
    assert_eq!(values(&router, "y"), Vec::<u64>::new());
    assert_eq!(router.remove(keep), Some((11, Some(1))));
}

#[test]
fn router_removed_handler_swaps_last_into_place() {
    let mut router = Router::new();
    let a = insert(&mut router, "t", 5, 1);
    let _b = insert(&mut router, "t", 5, 2);
    let _c = insert(&mut router, "t", 5, 3);
    assert_eq!(router.remove(a), Some((1, None)));
    assert_eq!(values(&router, "t"), vec![3, 2]);
}

#[test]
fn router_entry_kinds() {
    let mut router = Router::new();
    assert!(matches!(router.entry("t".to_string()), RouterEntry::Vacant(_)));
    insert(&mut router, "t", 5, 1);
    assert!(matches!(router.entry("t".to_string()), RouterEntry::Occupied(_)));
    assert!(matches!(router.entry("u".to_string()), RouterEntry::Vacant(_)));
}
