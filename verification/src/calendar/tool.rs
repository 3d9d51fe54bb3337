//! The `calendar` tool: decodes the tool arguments and answers with the query result.

use vstd::prelude::*;
use vstd::string::StringExecFns;

use crate::calendar::queries::{
    categorized_events, dated_events, events_by_category, events_by_date, first_event_with_id,
    found_events, get_event, is_upcoming, list_events, listed_events, search_events,
    upcoming_events,
};
use crate::calendar::types::{CalendarData, CalendarRoot, Event};
use crate::error::{tool_error, Error};
use crate::json::{arg_text, arg_u64, members_of, models_of, text_arg, u64_arg, JsonModel, JsonValue};
use crate::schema::{
    action_object, action_schema, choice_property, choice_schema, property, property_schema,
    push_item, push_member, text_value, texts,
};
use crate::seqs::derefs;
use crate::text::text_equal;

verus! {

/// The number of events `upcoming_events` answers with when `count` is not given.
pub const DEFAULT_UPCOMING_COUNT: usize = 5;

/// The `count` argument of `upcoming_events` as the tool reads it.
pub open spec fn upcoming_count(args: JsonValue) -> usize {
    match arg_u64(args, "count"@) {
        Some(c) => c as usize,
        None => DEFAULT_UPCOMING_COUNT,
    }
}

/// The answer of the calendar tool before it is rendered as JSON text.
#[derive(Debug)]
pub enum CalendarReply<'a> {
    /// A list of events (rendered as a JSON array).
    Events(Vec<&'a Event>),
    /// A single event.
    Event(&'a Event),
    /// A tool-level failure with its message (an error result, not a protocol error).
    Failure(String),
}

/// The actions the calendar tool answers, in the order its schema lists them.
pub open spec fn calendar_actions() -> Seq<Seq<char>> {
    seq![
        "list_events"@,
        "get_event"@,
        "search_events"@,
        "events_by_date"@,
        "events_by_category"@,
        "upcoming_events"@,
    ]
}

/// Whether the calendar tool answers `action`; it refuses any other as unknown.
pub open spec fn calendar_answers(action: Seq<char>) -> bool {
    ||| action == "list_events"@
    ||| action == "get_event"@
    ||| action == "search_events"@
    ||| action == "events_by_date"@
    ||| action == "events_by_category"@
    ||| action == "upcoming_events"@
}

/// The properties of the calendar tool's arguments, described.
pub open spec fn calendar_properties() -> Seq<(Seq<char>, JsonModel)> {
    seq![
        ("action"@, choice_property(texts(calendar_actions()), "The query action to perform"@)),
        ("event_id"@, property("string"@, "Event ID (required for get_event)"@)),
        ("query"@, property("string"@, "Search text (required for search_events)"@)),
        ("date"@, property(
            "string"@,
            "Date prefix, e.g. '2025-08-28' (required for events_by_date)"@,
        )),
        ("category"@, property(
            "string"@,
            "Category filter (required for events_by_category, optional for list_events)"@,
        )),
        ("priority"@, property("string"@, "Priority filter (optional for list_events)"@)),
        ("status"@, property("string"@, "Status filter (optional for list_events)"@)),
        ("count"@, property(
            "integer"@,
            "Number of events to return (optional for upcoming_events, default: 5)"@,
        )),
    ]
}

/// The JSON Schema of the calendar tool's arguments.
pub open spec fn calendar_schema() -> JsonModel {
    action_object(calendar_properties())
}

/// MCP tool that exposes calendar query operations over data loaded once.
#[derive(Debug)]
pub struct CalendarTool {
    root: CalendarRoot,
}

impl CalendarTool {
    /// The calendar the tool answers from.
    pub closed spec fn calendar(&self) -> CalendarData {
        self.root.calendar
    }

    /// A tool over the given calendar file contents.
    pub fn from_root(root: CalendarRoot) -> (r: Self)
        ensures
            r.calendar() == root.calendar,
    {
        CalendarTool { root }
    }

    /// The calendar the tool answers from.
    pub fn data(&self) -> (r: &CalendarData)
        ensures
            *r == self.calendar(),
    {
        &self.root.calendar
    }

    /// The tool name as exposed to MCP clients.
    pub fn name(&self) -> (r: &'static str)
        ensures
            r@ == "calendar"@,
    {
        "calendar"
    }

    /// Human-readable description of what the tool does.
    pub fn description(&self) -> (r: &'static str)
        ensures
            r@ == "Query calendar events. Actions: list_events, get_event, search_events, events_by_date, events_by_category, upcoming_events"@,
    {
        "Query calendar events. Actions: list_events, get_event, search_events, events_by_date, events_by_category, upcoming_events"
    }

    /// JSON Schema of the tool's arguments.
    pub fn input_schema(&self) -> (r: JsonValue)
        ensures
            r.model() == calendar_schema(),
    {
        let mut actions: Vec<JsonValue> = Vec::new();
        push_item(&mut actions, text_value("list_events"));
        push_item(&mut actions, text_value("get_event"));
        push_item(&mut actions, text_value("search_events"));
        push_item(&mut actions, text_value("events_by_date"));
        push_item(&mut actions, text_value("events_by_category"));
        push_item(&mut actions, text_value("upcoming_events"));
        assert(models_of(actions@) =~= texts(calendar_actions()));
        let mut props: Vec<(String, JsonValue)> = Vec::new();
        push_member(&mut props, "action", choice_schema(actions, "The query action to perform"));
        push_member(
            &mut props,
            "event_id",
            property_schema("string", "Event ID (required for get_event)"),
        );
        push_member(
            &mut props,
            "query",
            property_schema("string", "Search text (required for search_events)"),
        );
        push_member(
            &mut props,
            "date",
            property_schema("string", "Date prefix, e.g. '2025-08-28' (required for events_by_date)"),
        );
        push_member(
            &mut props,
            "category",
            property_schema(
                "string",
                "Category filter (required for events_by_category, optional for list_events)",
            ),
        );
        push_member(
            &mut props,
            "priority",
            property_schema("string", "Priority filter (optional for list_events)"),
        );
        push_member(
            &mut props,
            "status",
            property_schema("string", "Status filter (optional for list_events)"),
        );
        push_member(
            &mut props,
            "count",
            property_schema(
                "integer",
                "Number of events to return (optional for upcoming_events, default: 5)",
            ),
        );
        assert(members_of(props@) =~= calendar_properties());
        action_schema(props)
    }

    /// Number of events loaded.
    pub fn event_count(&self) -> (r: usize)
        ensures
            r == self.calendar().events@.len(),
    {
        self.root.calendar.events.len()
    }

    /// Runs the action named by the `action` argument:
    /// `list_events` (optional `category`, `priority`, `status`), `get_event`
    /// (`event_id`), `search_events` (`query`), `events_by_date` (`date`),
    /// `events_by_category` (`category`) and `upcoming_events` (optional `count`,
    /// 5 when absent). A missing required argument is a tool error; an unknown
    /// action or event is a failure answer.
    pub fn execute_query(&self, arguments: &JsonValue) -> (r: Result<CalendarReply<'_>, Error>)
        ensures
            match arg_text(*arguments, "action"@) {
                None => tool_error(r, "Missing required argument: action"@),
                Some(action) => {
                    if action == "list_events"@ {
                        r matches Ok(CalendarReply::Events(v)) && derefs(v@) == listed_events(
                            self.calendar(),
                            arg_text(*arguments, "category"@),
                            arg_text(*arguments, "priority"@),
                            arg_text(*arguments, "status"@),
                        )
                    } else if action == "get_event"@ {
                        match arg_text(*arguments, "event_id"@) {
                            None => tool_error(r, "Missing required argument: event_id"@),
                            Some(id) => match first_event_with_id(self.calendar().events@, id) {
                                Some(e) => r matches Ok(CalendarReply::Event(x)) && *x == e,
                                None => r matches Ok(CalendarReply::Failure(m))
                                    && m@ == "Event not found: "@ + id,
                            },
                        }
                    } else if action == "search_events"@ {
                        match arg_text(*arguments, "query"@) {
                            None => tool_error(r, "Missing required argument: query"@),
                            Some(q) => r matches Ok(CalendarReply::Events(v))
                                && derefs(v@) == found_events(self.calendar(), q),
                        }
                    } else if action == "events_by_date"@ {
                        match arg_text(*arguments, "date"@) {
                            None => tool_error(r, "Missing required argument: date"@),
                            Some(d) => r matches Ok(CalendarReply::Events(v))
                                && derefs(v@) == dated_events(self.calendar(), d),
                        }
                    } else if action == "events_by_category"@ {
                        match arg_text(*arguments, "category"@) {
                            None => tool_error(r, "Missing required argument: category"@),
                            Some(c) => r matches Ok(CalendarReply::Events(v))
                                && derefs(v@) == categorized_events(self.calendar(), c),
                        }
                    } else if action == "upcoming_events"@ {
                        r matches Ok(CalendarReply::Events(v))
                            && is_upcoming(self.calendar(), upcoming_count(*arguments) as nat, derefs(v@))
                    } else {
                        r matches Ok(CalendarReply::Failure(m)) && m@ == "Unknown action: "@ + action
                    }
                },
            },
            arg_text(*arguments, "action"@) matches Some(a) ==> (!calendar_answers(a) <==> (
            r matches Ok(CalendarReply::Failure(m)) && m@ == "Unknown action: "@ + a)),
    {
        let action = match text_arg(arguments, "action") {
            Some(a) => a,
            None => {
                return Err(Error::ToolError(String::from_str("Missing required argument: action")));
            },
        };
        let cal = &self.root.calendar;
        if text_equal(action, "list_events") {
            let category = text_arg(arguments, "category");
            let priority = text_arg(arguments, "priority");
            let status = text_arg(arguments, "status");
            Ok(CalendarReply::Events(list_events(cal, category, priority, status)))
        } else if text_equal(action, "get_event") {
            let id = match text_arg(arguments, "event_id") {
                Some(id) => id,
                None => {
                    return Err(Error::ToolError(String::from_str("Missing required argument: event_id")));
                },
            };
            match get_event(cal, id) {
                Some(e) => Ok(CalendarReply::Event(e)),
                None => {
                    proof {
                        reveal_strlit("Event not found: ");
                        reveal_strlit("Unknown action: ");
                        assert(("Event not found: "@ + id@)[0] != ("Unknown action: "@ + action@)[0]);
                    }
                    Ok(CalendarReply::Failure(String::from_str("Event not found: ").concat(id)))
                },
            }
        } else if text_equal(action, "search_events") {
            let q = match text_arg(arguments, "query") {
                Some(q) => q,
                None => {
                    return Err(Error::ToolError(String::from_str("Missing required argument: query")));
                },
            };
            Ok(CalendarReply::Events(search_events(cal, q)))
        } else if text_equal(action, "events_by_date") {
            let date = match text_arg(arguments, "date") {
                Some(d) => d,
                None => {
                    return Err(Error::ToolError(String::from_str("Missing required argument: date")));
                },
            };
            Ok(CalendarReply::Events(events_by_date(cal, date)))
        } else if text_equal(action, "events_by_category") {
            let category = match text_arg(arguments, "category") {
                Some(c) => c,
                None => {
                    return Err(Error::ToolError(String::from_str("Missing required argument: category")));
                },
            };
            Ok(CalendarReply::Events(events_by_category(cal, category)))
        } else if text_equal(action, "upcoming_events") {
            let count: usize = match u64_arg(arguments, "count") {
                Some(c) => c as usize,
                None => DEFAULT_UPCOMING_COUNT,
            };
            Ok(CalendarReply::Events(upcoming_events(cal, count)))
        } else {
            Ok(CalendarReply::Failure(String::from_str("Unknown action: ").concat(action)))
        }
    }
}

} // verus!
