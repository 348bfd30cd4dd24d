//! The per-instance persistent store: an explicit key-value store
//! abstraction. The registry owns exactly one entry in it, under a
//! fixed key discriminator; if a key is absent, nothing has ever been
//! stored under it. The store is viewed as a map from key to the
//! stored collection's contents.

use vstd::prelude::*;
use crate::contact::ContactView;
use crate::contact::Contacts;

verus! {

/// The key discriminators of the store. Only [`DataKey::Contacts`]
/// ever has a stored value; the other discriminator is declared for
/// interface compatibility and stays unused.
#[derive(Clone, Copy, PartialEq, Eq, Structural, Debug)]
pub enum DataKey {
    Contact,
    Contacts,
}

/// The per-instance store: one optional slot per key discriminator.
/// Viewed as the map holding each present key's collection contents.
pub struct InstanceStore {
    contact_slot: Option<Contacts>,
    contacts_slot: Option<Contacts>,
}

impl View for InstanceStore {
    type V = Map<DataKey, Seq<ContactView>>;

    closed spec fn view(&self) -> Map<DataKey, Seq<ContactView>> {
        let m = Map::<DataKey, Seq<ContactView>>::empty();
        let m = if self.contact_slot is Some {
            m.insert(DataKey::Contact, self.contact_slot->Some_0@)
        } else {
            m
        };
        if self.contacts_slot is Some {
            m.insert(DataKey::Contacts, self.contacts_slot->Some_0@)
        } else {
            m
        }
    }
}

impl InstanceStore {
    /// A fresh store with no entry under any key: the state before the
    /// first successful write.
    pub fn new() -> (s: InstanceStore)
        ensures
            s@ == Map::<DataKey, Seq<ContactView>>::empty(),
    {
        let s = InstanceStore { contact_slot: None, contacts_slot: None };
        proof {
            assert(s@ =~= Map::<DataKey, Seq<ContactView>>::empty());
        }
        s
    }

    /// Whether a value is stored under `key`.
    pub fn has(&self, key: &DataKey) -> (r: bool)
        ensures
            r == self@.contains_key(*key),
    {
        match key {
            DataKey::Contact => self.contact_slot.is_some(),
            DataKey::Contacts => self.contacts_slot.is_some(),
        }
    }

    /// The value stored under `key`, or `None` when the key is absent.
    pub fn get(&self, key: &DataKey) -> (r: Option<&Contacts>)
        ensures
            match r {
                Some(c) => self@.contains_key(*key) && c@ == self@[*key],
                None => !self@.contains_key(*key),
            },
    {
        match key {
            DataKey::Contact => self.contact_slot.as_ref(),
            DataKey::Contacts => self.contacts_slot.as_ref(),
        }
    }

    /// Replaces the value stored under `key` in a single write; every
    /// other key's entry is unchanged.
    pub fn set(&mut self, key: &DataKey, value: Contacts)
        ensures
            final(self)@ == old(self)@.insert(*key, value@),
    {
        match key {
            DataKey::Contact => {
                self.contact_slot = Some(value);
            }
            DataKey::Contacts => {
                self.contacts_slot = Some(value);
            }
        }
        proof {
            assert(self@ =~= old(self)@.insert(*key, value@));
        }
    }
}

} // verus!
