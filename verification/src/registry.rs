//! The contact registry: sole owner of the persisted collection. All
//! reads and writes of the store's registry key go through the two
//! functions here. An append is a read-modify-write: load the current
//! collection (treating an absent key as empty), append one record at
//! the end, and replace the stored value in a single write. A read
//! returns the stored collection unchanged, in insertion order, or the
//! empty collection when the key is absent.

use vstd::prelude::*;
use crate::contact::Contact;
use crate::contact::ContactView;
use crate::contact::Contacts;
use crate::store::DataKey;
use crate::store::InstanceStore;

verus! {

/// The logical contact collection of a store: the sequence stored
/// under the registry key, or the empty sequence while the key is
/// absent (the lazy-initialization rule).
pub open spec fn stored_contacts(store: InstanceStore) -> Seq<ContactView> {
    if store@.contains_key(DataKey::Contacts) {
        store@[DataKey::Contacts]
    } else {
        Seq::<ContactView>::empty()
    }
}

/// Appends `contact` to the persisted collection. The new collection
/// equals the old one with the record appended at the end, and no
/// other key of the store is touched.
pub fn create_contact(store: &mut InstanceStore, contact: &Contact)
    ensures
        final(store)@ == old(store)@.insert(
            DataKey::Contacts,
            stored_contacts(*old(store)).push(contact@),
        ),
        stored_contacts(*final(store)) == stored_contacts(*old(store)).push(contact@),
{
    if store.has(&DataKey::Contacts) {
        let current: &Contacts = store.get(&DataKey::Contacts).unwrap();
        let mut contacts = current.clone();
        contacts.push(contact.clone());
        store.set(&DataKey::Contacts, contacts);
    } else {
        let mut contacts = Contacts::new();
        contacts.push(contact.clone());
        store.set(&DataKey::Contacts, contacts);
    }
}

/// Reads the persisted collection: the stored value in stored
/// (= insertion) order, or the empty collection when the registry key
/// is absent. Pure read, no side effects.
pub fn list_contacts(store: &InstanceStore) -> (r: Contacts)
    ensures
        r@ == stored_contacts(*store),
{
    if store.has(&DataKey::Contacts) {
        store.get(&DataKey::Contacts).unwrap().clone()
    } else {
        Contacts::new()
    }
}

} // verus!
