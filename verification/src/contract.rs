//! The externally callable entrypoints: stateless wrappers over the
//! registry. `create` builds a record from the three raw inputs and
//! appends it; `list` returns the accumulated collection verbatim.
//! Each call is a single atomic step with no intermediate state
//! observable to callers.

use vstd::prelude::*;
use crate::contact::Contact;
use crate::contact::ContactView;
use crate::registry::create_contact;
use crate::registry::list_contacts;
use crate::registry::stored_contacts;
use crate::contact::Contacts;
use crate::store::DataKey;
use crate::store::InstanceStore;

verus! {

/// The phone-book service: two operations, open to any caller.
pub struct PhoneBookContract;

impl PhoneBookContract {
    /// Records one contact: the stored collection grows by exactly the
    /// record built from the three inputs, appended at the end; no
    /// other entry of the store changes. Inputs are not validated.
    pub fn create(
        store: &mut InstanceStore,
        phone_number: u32,
        first_name: String,
        last_name: String,
    )
        ensures
            final(store)@ == old(store)@.insert(
                DataKey::Contacts,
                stored_contacts(*old(store)).push(
                    (ContactView {
                        phone_number,
                        first_name: first_name@,
                        last_name: last_name@,
                    }),
                ),
            ),
            stored_contacts(*final(store)) == stored_contacts(*old(store)).push(
                (ContactView { phone_number, first_name: first_name@, last_name: last_name@ }),
            ),
    {
        create_contact(
            store,
            &Contact { phone_number, first_name, last_name },
        )
    }

    /// Returns every recorded contact, in the order the records were
    /// created. With no prior `create`, the collection is empty.
    pub fn list(store: &InstanceStore) -> (r: Contacts)
        ensures
            r@ == stored_contacts(*store),
    {
        list_contacts(store)
    }
}

} // verus!
