//! Calendar: the records of `calendar.json`, queries over its events, and the
//! `calendar` tool.

pub mod queries;
pub mod tool;
pub mod types;

pub use queries::{events_by_category, events_by_date, get_event, list_events, search_events, upcoming_events};
pub use tool::{CalendarReply, CalendarTool};
pub use types::{
    Attachment, Attendee, CalendarData, CalendarMetadata, CalendarRoot, CalendarSettings,
    CategoryConfig, Coordinates, Cost, Event, Location, Recurrence, Reminder, WorkingHours,
};
