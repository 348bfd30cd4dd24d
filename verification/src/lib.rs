//! A minimal persistent phone-book directory: callers submit contact
//! records and can read back the accumulated list in insertion order.
//!
//! The core is the registry logic: a single mutable collection of
//! contacts held under a fixed key in a per-instance key-value store,
//! with a lazy-initialization rule (absent key means empty collection)
//! and a read-modify-write append discipline.

pub mod contact;
pub mod contract;
pub mod laws;
pub mod registry;
pub mod store;

pub use contact::Contact;
pub use contact::ContactView;
pub use contact::Contacts;
pub use contract::PhoneBookContract;
pub use registry::create_contact;
pub use registry::list_contacts;
pub use store::DataKey;
pub use store::InstanceStore;
