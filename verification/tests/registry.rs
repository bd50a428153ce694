use quote_router::Registry;
use quote_router::RegistryError;

#[test]
fn it_works() {
    let result: i32 = 2 + 2;
    assert_eq!(result, 4);
}

#[test]
fn symmetry_after_add_pool() {
    let mut registry = Registry::new();
    registry.add_pool("dai.token".to_string(), "wrap.testnet".to_string(), 7);
    assert_eq!(registry.lookup(&"dai.token".to_string(), &"wrap.testnet".to_string()), Ok(7));
    assert_eq!(registry.lookup(&"wrap.testnet".to_string(), &"dai.token".to_string()), Ok(7));
}

#[test]
fn overwrite_last_write_wins() {
    let mut registry = Registry::new();
    registry.add_pool("a.token".to_string(), "b.token".to_string(), 1);
    registry.add_pool("a.token".to_string(), "b.token".to_string(), 2);
    assert_eq!(registry.lookup(&"a.token".to_string(), &"b.token".to_string()), Ok(2));
    assert_eq!(registry.lookup(&"b.token".to_string(), &"a.token".to_string()), Ok(2));
}

#[test]
fn lookup_missing_outer_key() {
    let registry = Registry::new();
    assert_eq!(
        registry.lookup(&"a.token".to_string(), &"b.token".to_string()),
        Err(RegistryError::NotFound)
    );
}

#[test]
fn lookup_missing_inner_key() {
    let mut registry = Registry::new();
    registry.add_pool("a.token".to_string(), "b.token".to_string(), 5);
    assert_eq!(
        registry.lookup(&"a.token".to_string(), &"c.token".to_string()),
        Err(RegistryError::NotFound)
    );
}

#[test]
fn lookup_is_idempotent() {
    let mut registry = Registry::new();
    registry.add_pool("a.token".to_string(), "b.token".to_string(), 11);
    let first = registry.lookup(&"a.token".to_string(), &"b.token".to_string());
    let second = registry.lookup(&"a.token".to_string(), &"b.token".to_string());
    assert_eq!(first, Ok(11));
    assert_eq!(first, second);
    let missing_first = registry.lookup(&"a.token".to_string(), &"c.token".to_string());
    let missing_second = registry.lookup(&"a.token".to_string(), &"c.token".to_string());
    assert_eq!(missing_first, Err(RegistryError::NotFound));
    assert_eq!(missing_first, missing_second);
}

#[test]
fn equal_assets_are_not_rejected() {
    let mut registry = Registry::new();
    registry.add_pool("a.token".to_string(), "a.token".to_string(), 3);
    assert_eq!(registry.lookup(&"a.token".to_string(), &"a.token".to_string()), Ok(3));
}

#[test]
fn distinct_pairs_do_not_collide() {
    let mut registry = Registry::new();
    registry.add_pool("a.token".to_string(), "w.token".to_string(), 1);
    registry.add_pool("b.token".to_string(), "w.token".to_string(), 2);
    assert_eq!(registry.lookup(&"a.token".to_string(), &"w.token".to_string()), Ok(1));
    assert_eq!(registry.lookup(&"b.token".to_string(), &"w.token".to_string()), Ok(2));
    assert_eq!(registry.lookup(&"w.token".to_string(), &"a.token".to_string()), Ok(1));
    assert_eq!(registry.lookup(&"w.token".to_string(), &"b.token".to_string()), Ok(2));
}
