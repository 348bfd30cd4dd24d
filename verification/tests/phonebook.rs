use phonebook::Contact;
use phonebook::Contacts;
use phonebook::DataKey;
use phonebook::InstanceStore;
use phonebook::PhoneBookContract;
use phonebook::create_contact;
use phonebook::list_contacts;

fn record_is(c: &Contact, phone_number: u32, first_name: &str, last_name: &str) -> bool {
    c.phone_number == phone_number && c.first_name == first_name && c.last_name == last_name
}

#[test]
fn list_before_any_create_is_empty() {
    let store = InstanceStore::new();
    let listed = PhoneBookContract::list(&store);
    assert_eq!(listed.contacts.len(), 0);
}

#[test]
fn example_two_creates_listed_in_order() {
    let mut store = InstanceStore::new();
    PhoneBookContract::create(&mut store, 100, String::from("Jane"), String::from("Doe"));
    let listed = PhoneBookContract::list(&store);
    assert_eq!(listed.contacts.len(), 1);
    assert!(record_is(&listed.contacts[0], 100, "Jane", "Doe"));

    PhoneBookContract::create(&mut store, 200, String::from("John"), String::from("Roe"));
    let listed = PhoneBookContract::list(&store);
    assert_eq!(listed.contacts.len(), 2);
    assert!(record_is(&listed.contacts[0], 100, "Jane", "Doe"));
    assert!(record_is(&listed.contacts[1], 200, "John", "Roe"));
}

#[test]
fn duplicate_phone_numbers_permitted() {
    let mut store = InstanceStore::new();
    PhoneBookContract::create(&mut store, 5, String::from("A"), String::from("B"));
    PhoneBookContract::create(&mut store, 5, String::from("C"), String::from("D"));
    let listed = PhoneBookContract::list(&store);
    assert_eq!(listed.contacts.len(), 2);
    assert!(record_is(&listed.contacts[0], 5, "A", "B"));
    assert!(record_is(&listed.contacts[1], 5, "C", "D"));
}

#[test]
fn creates_listed_in_order() {
    let mut store = InstanceStore::new();
    let names = ["Ada", "Ben", "Cy", "Dee", "Eve"];
    for (i, name) in names.iter().enumerate() {
        PhoneBookContract::create(&mut store, i as u32, String::from(*name), String::from("X"));
    }
    let listed = PhoneBookContract::list(&store);
    assert_eq!(listed.contacts.len(), names.len());
    for (i, name) in names.iter().enumerate() {
        assert!(record_is(&listed.contacts[i], i as u32, name, "X"));
    }
}

#[test]
fn append_preserves_prior_records() {
    let mut store = InstanceStore::new();
    PhoneBookContract::create(&mut store, 1, String::from("One"), String::from("I"));
    PhoneBookContract::create(&mut store, 2, String::from("Two"), String::from("II"));
    let before = PhoneBookContract::list(&store);

    PhoneBookContract::create(&mut store, 3, String::from("Three"), String::from("III"));
    let after = PhoneBookContract::list(&store);

    assert_eq!(after.contacts.len(), before.contacts.len() + 1);
    for (i, prior) in before.contacts.iter().enumerate() {
        assert!(record_is(
            &after.contacts[i],
            prior.phone_number,
            &prior.first_name,
            &prior.last_name,
        ));
    }
    assert!(record_is(&after.contacts[2], 3, "Three", "III"));
}

#[test]
fn consecutive_lists_identical() {
    let mut store = InstanceStore::new();
    PhoneBookContract::create(&mut store, 7, String::from("Ann"), String::from("Lee"));
    let first = PhoneBookContract::list(&store);
    let second = PhoneBookContract::list(&store);
    assert_eq!(first.contacts.len(), second.contacts.len());
    for (a, b) in first.contacts.iter().zip(second.contacts.iter()) {
        assert!(record_is(b, a.phone_number, &a.first_name, &a.last_name));
    }
}

#[test]
fn unvalidated_inputs_accepted() {
    let mut store = InstanceStore::new();
    PhoneBookContract::create(&mut store, 0, String::new(), String::new());
    let listed = PhoneBookContract::list(&store);
    assert_eq!(listed.contacts.len(), 1);
    assert!(record_is(&listed.contacts[0], 0, "", ""));
}

#[test]
fn registry_functions_append_and_read() {
    let mut store = InstanceStore::new();
    let record = Contact::new(42, String::from("Kim"), String::from("Ray"));
    create_contact(&mut store, &record);
    let listed = list_contacts(&store);
    assert_eq!(listed.contacts.len(), 1);
    assert!(record_is(&listed.contacts[0], 42, "Kim", "Ray"));
}

#[test]
fn fresh_store_has_no_entry() {
    let store = InstanceStore::new();
    assert!(!store.has(&DataKey::Contacts));
    assert!(!store.has(&DataKey::Contact));
    assert!(store.get(&DataKey::Contacts).is_none());
    assert!(store.get(&DataKey::Contact).is_none());
}

#[test]
fn set_then_get_returns_value() {
    let mut store = InstanceStore::new();
    let mut collection = Contacts::new();
    collection.push(Contact::new(9, String::from("Lu"), String::from("Na")));
    store.set(&DataKey::Contacts, collection);
    assert!(store.has(&DataKey::Contacts));
    let got = store.get(&DataKey::Contacts).unwrap();
    assert_eq!(got.contacts.len(), 1);
    assert!(record_is(&got.contacts[0], 9, "Lu", "Na"));
    assert!(!store.has(&DataKey::Contact));
}

#[test]
fn set_replaces_prior_value() {
    let mut store = InstanceStore::new();
    let mut first = Contacts::new();
    first.push(Contact::new(1, String::from("Old"), String::from("One")));
    store.set(&DataKey::Contacts, first);

    let second = Contacts::new();
    store.set(&DataKey::Contacts, second);
    let got = store.get(&DataKey::Contacts).unwrap();
    assert_eq!(got.contacts.len(), 0);
}

#[test]
fn collection_clone_preserves_records() {
    let mut collection = Contacts::new();
    collection.push(Contact::new(3, String::from("Pat"), String::from("Kay")));
    collection.push(Contact::new(4, String::from("Sam"), String::from("Joy")));
    let copy = collection.clone();
    assert_eq!(copy.contacts.len(), 2);
    assert!(record_is(&copy.contacts[0], 3, "Pat", "Kay"));
    assert!(record_is(&copy.contacts[1], 4, "Sam", "Joy"));
    assert_eq!(collection.len(), 2);
}

#[test]
fn listed_records_are_copies() {
    let mut store = InstanceStore::new();
    PhoneBookContract::create(&mut store, 11, String::from("Fay"), String::from("Wu"));
    let mut listed = PhoneBookContract::list(&store);
    listed.contacts.clear();
    let listed_again = PhoneBookContract::list(&store);
    assert_eq!(listed_again.contacts.len(), 1);
    assert!(record_is(&listed_again.contacts[0], 11, "Fay", "Wu"));
}
