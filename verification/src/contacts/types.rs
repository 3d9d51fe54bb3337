//! Contact records as `contacts.json` holds them.

use vstd::prelude::*;

verus! {

/// A postal address associated with a contact.
#[derive(Debug, Clone, PartialEq, Eq)]
pub struct Address {
    pub address_type: String,
    pub street: String,
    pub city: String,
    pub state: String,
    pub postal_code: String,
    pub country: String,
    pub primary: Option<bool>,
}

/// An email address associated with a contact.
#[derive(Debug, Clone, PartialEq, Eq)]
pub struct ContactEmail {
    pub email_type: String,
    pub address: String,
    pub primary: Option<bool>,
}

/// A phone number associated with a contact.
#[derive(Debug, Clone, PartialEq, Eq)]
pub struct PhoneNumber {
    pub phone_type: String,
    pub number: String,
    pub primary: Option<bool>,
}

/// A social media profile associated with a contact.
#[derive(Debug, Clone, PartialEq, Eq)]
pub struct SocialProfile {
    pub platform: String,
    pub url: String,
    pub username: String,
}

/// A contact record with personal and professional information.
#[derive(Debug, Clone, PartialEq, Eq)]
pub struct Contact {
    pub id: String,
    pub first_name: String,
    pub last_name: String,
    pub display_name: String,
    pub nickname: Option<String>,
    pub company: Option<String>,
    pub job_title: Option<String>,
    pub department: Option<String>,
    pub phone_numbers: Vec<PhoneNumber>,
    pub emails: Vec<ContactEmail>,
    pub addresses: Option<Vec<Address>>,
    pub social_profiles: Option<Vec<SocialProfile>>,
    pub birthday: Option<String>,
    pub notes: Option<String>,
    pub photo: Option<String>,
    pub tags: Vec<String>,
    pub favorite: bool,
    pub created_at: String,
    pub updated_at: String,
}

/// Metadata about the contacts data file.
#[derive(Debug, Clone, PartialEq, Eq)]
pub struct ContactsMetadata {
    pub total_contacts: u32,
    pub last_sync: String,
    pub version: String,
    pub source: String,
}

/// The whole of `contacts.json`: the contacts, in file order, and metadata.
#[derive(Debug, Clone, PartialEq, Eq)]
pub struct ContactsData {
    pub contacts: Vec<Contact>,
    pub metadata: ContactsMetadata,
}

} // verus!
