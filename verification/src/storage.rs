//! The durable state store: the administrator, the pause mode, and the
//! markers of the withdrawals that have been carried out.

use crate::types::{bytes_eq, DataKey, Identifier, Pause};
use vstd::prelude::*;

verus! {

/// What a store holds, as mathematics.
pub struct StorageView {
    /// The administrator, once one has been installed.
    pub admin: Option<Identifier>,
    /// The pause mode; `None` restricts nothing.
    pub pause: Option<Pause>,
    /// The identifiers of the withdrawals that have been carried out.
    pub fulfilled: Set<[u8; 32]>,
}

impl StorageView {
    /// The store in which no key is present.
    pub open spec fn empty() -> StorageView {
        StorageView { admin: None, pause: None, fulfilled: Set::empty() }
    }

    /// Whether a value is present under `key`.
    pub open spec fn has(self, key: DataKey) -> bool {
        match key {
            DataKey::Admin => self.admin is Some,
            DataKey::Fullfilled(id) => self.fulfilled.contains(id),
            DataKey::Pause => self.pause is Some,
        }
    }
}

/// The key-value store behind the bridge. Every key is absent until it is
/// set; a fulfilment marker, once set, cannot be taken out again.
pub struct Storage {
    admin: Option<Identifier>,
    pause: Option<Pause>,
    fulfilled: Vec<[u8; 32]>,
}

impl View for Storage {
    type V = StorageView;

    closed spec fn view(&self) -> StorageView {
        StorageView {
            admin: self.admin,
            pause: self.pause,
            fulfilled: self.fulfilled@.to_set(),
        }
    }
}

impl Storage {
    /// A store with no key present.
    pub fn new() -> (store: Storage)
        ensures
            store@ == StorageView::empty(),
    {
        let store = Storage { admin: None, pause: None, fulfilled: Vec::new() };
        proof {
            assert(store.fulfilled@.to_set() =~= Set::<[u8; 32]>::empty());
        }
        store
    }

    /// Whether the marker for `id` is among those held.
    fn holds_marker(&self, id: &[u8; 32]) -> (found: bool)
        ensures
            found == self@.fulfilled.contains(*id),
    {
        let mut i: usize = 0;
        while i < self.fulfilled.len()
            invariant
                i <= self.fulfilled.len(),
                forall|j: int| 0 <= j < i ==> self.fulfilled@[j] != *id,
            decreases self.fulfilled.len() - i,
        {
            if bytes_eq(&self.fulfilled[i], id) {
                proof {
                    assert(self.fulfilled@.contains(*id));
                }
                return true;
            }
            i += 1;
        }
        false
    }

    /// Whether a value is present under `key`.
    pub fn has(&self, key: &DataKey) -> (present: bool)
        ensures
            present == self@.has(*key),
    {
        match key {
            DataKey::Admin => self.admin.is_some(),
            DataKey::Fullfilled(id) => self.holds_marker(id),
            DataKey::Pause => self.pause.is_some(),
        }
    }

    /// The administrator, if one is stored.
    pub fn admin(&self) -> (admin: Option<Identifier>)
        ensures
            admin == self@.admin,
    {
        self.admin
    }

    /// The pause mode, if one is stored.
    pub fn pause(&self) -> (mode: Option<Pause>)
        ensures
            mode == self@.pause,
    {
        self.pause
    }

    /// Stores `admin` as the administrator.
    pub fn set_admin(&mut self, admin: Identifier)
        ensures
            final(self)@ == (StorageView { admin: Some(admin), ..old(self)@ }),
    {
        self.admin = Some(admin);
    }

    /// Stores `mode` as the pause mode.
    pub fn set_pause(&mut self, mode: Pause)
        ensures
            final(self)@ == (StorageView { pause: Some(mode), ..old(self)@ }),
    {
        self.pause = Some(mode);
    }

    /// Removes the pause mode, so that nothing is restricted.
    pub fn remove_pause(&mut self)
        ensures
            final(self)@ == (StorageView { pause: None, ..old(self)@ }),
    {
        self.pause = None;
    }

    /// Sets the marker for the withdrawal `id`.
    pub fn set_fulfilled(&mut self, id: [u8; 32])
        ensures
            final(self)@ == (StorageView {
                fulfilled: old(self)@.fulfilled.insert(id),
                ..old(self)@
            }),
    {
        if !self.holds_marker(&id) {
            proof {
                self.fulfilled@.lemma_push_to_set_commute(id);
            }
            self.fulfilled.push(id);
        } else {
            proof {
                assert(self@.fulfilled.insert(id) =~= self@.fulfilled);
            }
        }
    }
}

} // verus!
