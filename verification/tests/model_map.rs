use zen_free_api::model_map::ModelMap;

#[test]
fn names_keep_their_order_and_values_are_replaced() {
    let mut map: ModelMap<u32> = ModelMap::new();
    assert_eq!(map.len(), 0);
    assert_eq!(map.get("a"), None);
    map.insert("b", 1);
    map.insert("a", 2);
    map.insert("b", 3);
    assert_eq!(map.len(), 2);
    assert_eq!(map.model(0), "b");
    assert_eq!(map.model(1), "a");
    assert_eq!(map.get("b"), Some(&3));
    assert_eq!(map.get("a"), Some(&2));
    assert_eq!(map.get("A"), None);
}
