//! The contact record: an immutable value object holding one contact's
//! data. No identity or uniqueness constraint: two records may share a
//! phone number. Equality is structural; there are no derived fields.

use vstd::prelude::*;

verus! {

/// The mathematical value of a [`Contact`]: the phone number together
/// with the two name fields seen as character sequences.
pub struct ContactView {
    pub phone_number: u32,
    pub first_name: Seq<char>,
    pub last_name: Seq<char>,
}

/// One contact record: a phone number and two name fields. Field
/// contents are not validated: empty names, a zero phone number and
/// duplicate phone numbers are all accepted.
pub struct Contact {
    pub phone_number: u32,
    pub first_name: String,
    pub last_name: String,
}

impl View for Contact {
    type V = ContactView;

    open spec fn view(&self) -> ContactView {
        ContactView {
            phone_number: self.phone_number,
            first_name: self.first_name@,
            last_name: self.last_name@,
        }
    }
}

impl Contact {
    /// Builds the record for the three raw inputs, unvalidated.
    pub fn new(phone_number: u32, first_name: String, last_name: String) -> (r: Contact)
        ensures
            r@ == (ContactView { phone_number, first_name: first_name@, last_name: last_name@ }),
    {
        Contact { phone_number, first_name, last_name }
    }
}

impl Clone for Contact {
    fn clone(&self) -> (r: Contact)
        ensures
            r == *self,
    {
        Contact {
            phone_number: self.phone_number,
            first_name: self.first_name.clone(),
            last_name: self.last_name.clone(),
        }
    }
}

/// The contact collection: an ordered sequence of records, insertion
/// order preserved, duplicates permitted. No deletion operation exists.
/// Viewed as the sequence of its records' values.
pub struct Contacts {
    pub contacts: Vec<Contact>,
}

impl View for Contacts {
    type V = Seq<ContactView>;

    open spec fn view(&self) -> Seq<ContactView> {
        self.contacts@.map_values(|c: Contact| c@)
    }
}

impl Contacts {
    /// The empty collection.
    pub fn new() -> (r: Contacts)
        ensures
            r@ == Seq::<ContactView>::empty(),
    {
        let r = Contacts { contacts: Vec::new() };
        proof {
            assert(r@ =~= Seq::<ContactView>::empty());
        }
        r
    }

    /// How many records the collection holds.
    pub fn len(&self) -> (n: usize)
        ensures
            n == self@.len(),
    {
        self.contacts.len()
    }

    /// Appends one record at the end; all prior records keep their
    /// positions.
    pub fn push(&mut self, contact: Contact)
        ensures
            final(self)@ == old(self)@.push(contact@),
    {
        self.contacts.push(contact);
        proof {
            assert(self@ =~= old(self)@.push(contact@));
        }
    }
}

impl Clone for Contacts {
    fn clone(&self) -> (r: Contacts)
        ensures
            r@ == self@,
    {
        let mut cloned_vec: Vec<Contact> = Vec::new();
        let mut i: usize = 0;
        while i < self.contacts.len()
            invariant
                i <= self.contacts.len(),
                cloned_vec@.len() == i,
                forall|j: int| 0 <= j < i ==> cloned_vec@[j] == self.contacts@[j],
            decreases self.contacts.len() - i,
        {
            cloned_vec.push(self.contacts[i].clone());
            i += 1;
        }
        proof {
            assert(cloned_vec@ =~= self.contacts@);
        }
        Contacts { contacts: cloned_vec }
    }
}

} // verus!
