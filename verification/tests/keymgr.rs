//! Tests for the no-op key manager facade.

use conflux_mux::{
    ArtiEphemeralKeystore, ArtiNativeKeystore, BoxedKeystore, KeyMgrBuilder,
};

#[test]
fn keymgr_get_always_finds_nothing() {
    let mgr = KeyMgrBuilder::default()
        .primary_store(Box::new(ArtiNativeKeystore))
        .build()
        .unwrap();
    let got: Option<u32> = mgr.get("some-key").unwrap();
    assert_eq!(got, None);
    let got: Option<String> = mgr.get("another-key").unwrap();
    assert_eq!(got, None);
}

#[test]
fn keymgr_build_requires_a_primary_store() {
    assert!(KeyMgrBuilder::default().build().is_err());
}

#[test]
fn keymgr_builder_secondary_stores_resolves_default() {
    let mut b = KeyMgrBuilder::default();
    assert!(b.opt_secondary_stores().is_none());
    assert_eq!(b.secondary_stores().len(), 0);
    // Accessing the list materialised the default.
    assert!(b.opt_secondary_stores().is_some());
    b.secondary_stores().push(Box::new(ArtiEphemeralKeystore::new(String::from("mem"))));
    assert_eq!(b.secondary_stores().len(), 1);
}

#[test]
fn keymgr_builder_set_secondary_stores_overrides() {
    let stores: Vec<BoxedKeystore> = vec![
        Box::new(ArtiNativeKeystore),
        Box::new(ArtiEphemeralKeystore::new(String::from("mem"))),
    ];
    let b = KeyMgrBuilder::default()
        .primary_store(Box::new(ArtiNativeKeystore))
        .set_secondary_stores(stores);
    let mgr = b.build().unwrap();
    assert_eq!(mgr.secondary_stores.len(), 2);
}

#[test]
fn keymgr_builder_opt_secondary_stores_mut_leaves_default_unresolved() {
    let mut b = KeyMgrBuilder::default();
    assert!(b.opt_secondary_stores_mut().is_none());
    *b.opt_secondary_stores_mut() = Some(Vec::new());
    assert!(b.opt_secondary_stores().is_some());
}
