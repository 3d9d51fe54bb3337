//! Calendar records as `calendar.json` holds them.
//!
//! Floating-point quantities (a cost's amount, coordinates) are kept by their
//! IEEE-754 bit patterns: the library carries them and never computes with them.

use vstd::prelude::*;

verus! {

/// A file or link attached to a calendar event.
#[derive(Debug, Clone, PartialEq, Eq)]
pub struct Attachment {
    pub name: String,
    pub attachment_type: String,
    pub url: Option<String>,
    pub size: Option<String>,
}

/// An attendee of a calendar event, linked to a contact by `contact_id`.
#[derive(Debug, Clone, PartialEq, Eq)]
pub struct Attendee {
    pub contact_id: String,
    pub name: String,
    pub email: Option<String>,
    pub status: String,
    pub attendee_type: String,
}

/// Metadata about the calendar data file.
#[derive(Debug, Clone, PartialEq, Eq)]
pub struct CalendarMetadata {
    pub total_events: u32,
    pub last_sync: String,
    pub version: String,
    pub platform: String,
    pub sync_enabled: bool,
}

/// A reminder for a calendar event.
#[derive(Debug, Clone, PartialEq, Eq)]
pub struct Reminder {
    pub method: String,
    pub minutes: u32,
}

/// Working hours configuration.
#[derive(Debug, Clone, PartialEq, Eq)]
pub struct WorkingHours {
    pub start: String,
    pub end: String,
    pub working_days: Vec<String>,
}

/// Display configuration for an event category.
#[derive(Debug, Clone, PartialEq, Eq)]
pub struct CategoryConfig {
    pub color: String,
    pub icon: String,
}

/// Calendar-wide settings; `categories` maps each category name to its display
/// configuration.
#[derive(Debug, Clone, PartialEq, Eq)]
pub struct CalendarSettings {
    pub default_reminders: Vec<Reminder>,
    pub default_duration: u32,
    pub working_hours: WorkingHours,
    pub categories: std::collections::HashMap<String, CategoryConfig>,
}

/// Monetary cost of an event; `amount_bits` is the amount's IEEE-754 bit pattern.
#[derive(Debug, Clone, PartialEq, Eq)]
pub struct Cost {
    pub amount_bits: u64,
    pub currency: String,
}

/// Geographic coordinates, each held by its IEEE-754 bit pattern.
#[derive(Debug, Clone, Copy, PartialEq, Eq)]
pub struct Coordinates {
    pub latitude_bits: u64,
    pub longitude_bits: u64,
}

/// Location of a calendar event (physical or virtual).
#[derive(Debug, Clone, PartialEq, Eq)]
pub struct Location {
    pub name: String,
    pub address: Option<String>,
    pub location_type: Option<String>,
    pub coordinates: Option<Coordinates>,
    pub url: Option<String>,
}

/// Recurrence rule for a repeating calendar event.
#[derive(Debug, Clone, PartialEq, Eq)]
pub struct Recurrence {
    pub frequency: String,
    pub interval: u32,
    pub until: Option<String>,
    pub days_of_week: Option<Vec<String>>,
}

/// A calendar event with all associated metadata.
#[derive(Debug, Clone, PartialEq, Eq)]
pub struct Event {
    pub id: String,
    pub title: String,
    pub description: String,
    pub start_date_time: String,
    pub end_date_time: String,
    pub location: Option<Location>,
    pub attendees: Option<Vec<Attendee>>,
    pub category: String,
    pub priority: String,
    pub status: String,
    pub all_day: bool,
    pub recurrence: Option<Recurrence>,
    pub reminders: Vec<Reminder>,
    pub attachments: Option<Vec<Attachment>>,
    pub cost: Option<Cost>,
    pub notes: Option<String>,
    pub color: Option<String>,
    pub created_at: String,
    pub updated_at: String,
}

/// The calendar: its events, in file order, settings and metadata.
#[derive(Debug, Clone, PartialEq, Eq)]
pub struct CalendarData {
    pub name: String,
    pub time_zone: String,
    pub owner: String,
    pub events: Vec<Event>,
    pub settings: CalendarSettings,
    pub metadata: CalendarMetadata,
}

/// The whole of `calendar.json`: `{"calendar": ...}`.
#[derive(Debug, Clone, PartialEq, Eq)]
pub struct CalendarRoot {
    pub calendar: CalendarData,
}

} // verus!
