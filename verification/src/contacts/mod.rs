//! Contacts: the records of `contacts.json`, queries over them, and the
//! `contacts` tool.

pub mod queries;
pub mod tool;
pub mod types;

pub use queries::{contacts_by_tag, favorite_contacts, get_contact, list_contacts, search_contacts};
pub use tool::{ContactsReply, ContactsTool};
pub use types::{Address, Contact, ContactEmail, ContactsData, ContactsMetadata, PhoneNumber, SocialProfile};
