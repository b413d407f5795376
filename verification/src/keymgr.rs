//! A no-op key manager facade.
//!
//! Builds of the surrounding software that configure no real key storage
//! still need a key-manager object to hand around.  This one has the same
//! shape as a real key manager, but every read reports "no such key" and
//! it stores nothing: code that genuinely needs keys should not compile
//! against it in the first place, and code that merely probes for optional
//! keys gets a truthful "none".

use vstd::prelude::*;

verus! {

/// The error a key-manager operation can report.
#[derive(Clone, Copy, Debug, PartialEq, Eq, Structural)]
pub enum KeystoreError {
    /// The operation is not supported without real key storage.
    NotSupported,
}

/// A key store the key manager can read from.
///
/// This facade never reads, so the trait carries no operations; it exists
/// so the manager's store lists have the same shape as the real ones.
pub trait Keystore: Send + Sync {

}

/// The on-disk key store, as a placeholder that stores nothing.
pub struct ArtiNativeKeystore;

impl Keystore for ArtiNativeKeystore {

}

/// The in-memory key store, as a placeholder that stores nothing.
pub struct ArtiEphemeralKeystore;

impl Keystore for ArtiEphemeralKeystore {

}

impl ArtiEphemeralKeystore {
    /// Create a new [`ArtiEphemeralKeystore`]; the identifier is accepted
    /// for shape and ignored.
    pub fn new(_id: String) -> Self {
        ArtiEphemeralKeystore
    }
}

/// A key store held behind a pointer, so stores of different kinds can sit
/// in one list.
pub type BoxedKeystore = Box<dyn Keystore>;

/// The no-op key manager: reads find nothing, and nothing can be stored.
#[non_exhaustive]
pub struct KeyMgr {
    /// The default key store.
    pub primary_store: BoxedKeystore,
    /// The secondary key stores.
    pub secondary_stores: Vec<BoxedKeystore>,
}

/// Builds a [`KeyMgr`] from its stores.
pub struct KeyMgrBuilder {
    /// The default key store, if set.
    pub primary_store: Option<BoxedKeystore>,
    /// The secondary key stores, if set.
    pub secondary_stores: Option<Vec<BoxedKeystore>>,
}

impl Default for KeyMgrBuilder {
    /// A builder with nothing set.
    fn default() -> (r: Self)
        ensures
            r.primary_store is None,
            r.secondary_stores is None,
    {
        KeyMgrBuilder { primary_store: None, secondary_stores: None }
    }
}

impl KeyMgrBuilder {
    /// Set the default key store.
    pub fn primary_store(self, store: BoxedKeystore) -> (r: Self)
        ensures
            r.primary_store is Some,
            r.secondary_stores == self.secondary_stores,
    {
        KeyMgrBuilder { primary_store: Some(store), ..self }
    }

    /// Access the being-built list of secondary stores (resolving the
    /// default): if the list has not been set or accessed yet, it becomes
    /// the empty list first.
    pub fn secondary_stores(&mut self) -> (r: &mut Vec<BoxedKeystore>)
        ensures
            old(self).secondary_stores matches Some(l) ==> *r == l,
            old(self).secondary_stores is None ==> r@ == Seq::<BoxedKeystore>::empty(),
            final(self).secondary_stores == Some(*final(r)),
            final(self).primary_store == old(self).primary_store,
    {
        if self.secondary_stores.is_none() {
            self.secondary_stores = Some(Vec::new());
        }
        match &mut self.secondary_stores {
            Some(l) => l,
            None => vstd::pervasive::unreached(),
        }
    }

    /// Set the whole list of secondary stores (overriding the default).
    pub fn set_secondary_stores(self, list: Vec<BoxedKeystore>) -> (r: Self)
        ensures
            r.secondary_stores == Some(list),
            r.primary_store == self.primary_store,
    {
        KeyMgrBuilder { secondary_stores: Some(list), ..self }
    }

    /// Inspect the being-built list of secondary stores, with the default
    /// unresolved: `&None` if the list was never set or accessed.
    pub fn opt_secondary_stores(&self) -> (r: &Option<Vec<BoxedKeystore>>)
        ensures
            *r == self.secondary_stores,
    {
        &self.secondary_stores
    }

    /// Mutably access the being-built list of secondary stores, with the
    /// default unresolved: `&mut None` if the list was never set or
    /// accessed.
    pub fn opt_secondary_stores_mut(&mut self) -> (r: &mut Option<Vec<BoxedKeystore>>)
        ensures
            *r == old(self).secondary_stores,
            final(self).secondary_stores == *final(r),
            final(self).primary_store == old(self).primary_store,
    {
        &mut self.secondary_stores
    }

    /// Build the key manager; fails if no primary store was set.
    pub fn build(self) -> (r: core::result::Result<KeyMgr, KeystoreError>)
        ensures
            (r is Ok) <==> (self.primary_store is Some),
            r matches Ok(m) ==> {
                &&& (self.secondary_stores matches Some(l) ==> m.secondary_stores == l)
                &&& (self.secondary_stores is None ==> m.secondary_stores@ == Seq::<
                    BoxedKeystore,
                >::empty())
            },
    {
        let primary_store = match self.primary_store {
            Some(p) => p,
            None => {
                return Err(KeystoreError::NotSupported);
            },
        };
        let secondary_stores = match self.secondary_stores {
            Some(l) => l,
            None => Vec::new(),
        };
        Ok(KeyMgr { primary_store, secondary_stores })
    }
}

impl KeyMgr {
    /// Look a key up; this facade stores nothing, so the requested key is
    /// never found and the result is always `Ok(None)`.
    pub fn get<K>(&self, _key_spec: &str) -> (r: core::result::Result<Option<K>, KeystoreError>)
        ensures
            r matches Ok(v) && v is None,
    {
        Ok(None)
    }
}

} // verus!
