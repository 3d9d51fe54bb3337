//! The `contacts` tool: decodes the tool arguments and answers with the query result.

use vstd::prelude::*;
use vstd::string::StringExecFns;

use crate::contacts::queries::{
    contacts_by_tag, favorite_contacts, favorites, first_with_id, found_contacts, get_contact,
    list_contacts, listed_contacts, search_contacts, tagged_contacts,
};
use crate::contacts::types::{Contact, ContactsData};
use crate::error::{tool_error, Error};
use crate::json::{arg_bool, arg_text, bool_arg, members_of, models_of, text_arg, JsonModel, JsonValue};
use crate::schema::{
    action_object, action_schema, choice_property, choice_schema, property, property_schema,
    push_item, push_member, text_value, texts,
};
use crate::seqs::derefs;
use crate::text::text_equal;

verus! {

/// The answer of the contacts tool before it is rendered as JSON text.
#[derive(Debug)]
pub enum ContactsReply<'a> {
    /// A list of contacts (rendered as a JSON array).
    Contacts(Vec<&'a Contact>),
    /// A single contact.
    Contact(&'a Contact),
    /// A tool-level failure with its message (an error result, not a protocol error).
    Failure(String),
}

/// The actions the contacts tool answers, in the order its schema lists them.
pub open spec fn contacts_actions() -> Seq<Seq<char>> {
    seq!["list_contacts"@, "get_contact"@, "search_contacts"@, "contacts_by_tag"@, "favorite_contacts"@]
}

/// Whether the contacts tool answers `action`; it refuses any other as unknown.
pub open spec fn contacts_answers(action: Seq<char>) -> bool {
    ||| action == "list_contacts"@
    ||| action == "get_contact"@
    ||| action == "search_contacts"@
    ||| action == "contacts_by_tag"@
    ||| action == "favorite_contacts"@
}

/// The properties of the contacts tool's arguments, described.
pub open spec fn contacts_properties() -> Seq<(Seq<char>, JsonModel)> {
    seq![
        ("action"@, choice_property(texts(contacts_actions()), "The query action to perform"@)),
        ("contact_id"@, property("string"@, "Contact ID (required for get_contact)"@)),
        ("query"@, property("string"@, "Search text (required for search_contacts)"@)),
        ("tag"@, property(
            "string"@,
            "Tag filter (required for contacts_by_tag, optional for list_contacts)"@,
        )),
        ("company"@, property("string"@, "Company filter (optional for list_contacts)"@)),
        ("favorite"@, property("boolean"@, "Favorite filter (optional for list_contacts)"@)),
    ]
}

/// The JSON Schema of the contacts tool's arguments.
pub open spec fn contacts_schema() -> JsonModel {
    action_object(contacts_properties())
}

/// MCP tool that exposes contacts query operations over data loaded once.
#[derive(Debug)]
pub struct ContactsTool {
    data: ContactsData,
}

impl ContactsTool {
    /// The data the tool answers from.
    pub closed spec fn contents(&self) -> ContactsData {
        self.data
    }

    /// A tool over the given contacts data.
    pub fn from_data(data: ContactsData) -> (r: Self)
        ensures
            r.contents() == data,
    {
        ContactsTool { data }
    }

    /// The data the tool answers from.
    pub fn data(&self) -> (r: &ContactsData)
        ensures
            *r == self.contents(),
    {
        &self.data
    }

    /// The tool name as exposed to MCP clients.
    pub fn name(&self) -> (r: &'static str)
        ensures
            r@ == "contacts"@,
    {
        "contacts"
    }

    /// Human-readable description of what the tool does.
    pub fn description(&self) -> (r: &'static str)
        ensures
            r@ == "Query contacts. Actions: list_contacts, get_contact, search_contacts, contacts_by_tag, favorite_contacts"@,
    {
        "Query contacts. Actions: list_contacts, get_contact, search_contacts, contacts_by_tag, favorite_contacts"
    }

    /// JSON Schema of the tool's arguments.
    pub fn input_schema(&self) -> (r: JsonValue)
        ensures
            r.model() == contacts_schema(),
    {
        let mut actions: Vec<JsonValue> = Vec::new();
        push_item(&mut actions, text_value("list_contacts"));
        push_item(&mut actions, text_value("get_contact"));
        push_item(&mut actions, text_value("search_contacts"));
        push_item(&mut actions, text_value("contacts_by_tag"));
        push_item(&mut actions, text_value("favorite_contacts"));
        assert(models_of(actions@) =~= texts(contacts_actions()));
        let mut props: Vec<(String, JsonValue)> = Vec::new();
        push_member(&mut props, "action", choice_schema(actions, "The query action to perform"));
        push_member(
            &mut props,
            "contact_id",
            property_schema("string", "Contact ID (required for get_contact)"),
        );
        push_member(
            &mut props,
            "query",
            property_schema("string", "Search text (required for search_contacts)"),
        );
        push_member(
            &mut props,
            "tag",
            property_schema(
                "string",
                "Tag filter (required for contacts_by_tag, optional for list_contacts)",
            ),
        );
        push_member(
            &mut props,
            "company",
            property_schema("string", "Company filter (optional for list_contacts)"),
        );
        push_member(
            &mut props,
            "favorite",
            property_schema("boolean", "Favorite filter (optional for list_contacts)"),
        );
        assert(members_of(props@) =~= contacts_properties());
        action_schema(props)
    }

    /// Number of contacts loaded.
    pub fn contact_count(&self) -> (r: usize)
        ensures
            r == self.contents().contacts@.len(),
    {
        self.data.contacts.len()
    }

    /// Runs the action named by the `action` argument:
    /// `list_contacts` (optional `tag`, `favorite`, `company`), `get_contact`
    /// (`contact_id`), `search_contacts` (`query`), `contacts_by_tag` (`tag`) and
    /// `favorite_contacts`. A missing required argument is a tool error; an unknown
    /// action or contact is a failure answer.
    pub fn execute_query(&self, arguments: &JsonValue) -> (r: Result<ContactsReply<'_>, Error>)
        ensures
            match arg_text(*arguments, "action"@) {
                None => tool_error(r, "Missing required argument: action"@),
                Some(action) => {
                    if action == "list_contacts"@ {
                        r matches Ok(ContactsReply::Contacts(v)) && derefs(v@) == listed_contacts(
                            self.contents(),
                            arg_text(*arguments, "tag"@),
                            arg_bool(*arguments, "favorite"@),
                            arg_text(*arguments, "company"@),
                        )
                    } else if action == "get_contact"@ {
                        match arg_text(*arguments, "contact_id"@) {
                            None => tool_error(r, "Missing required argument: contact_id"@),
                            Some(id) => match first_with_id(self.contents().contacts@, id) {
                                Some(c) => r matches Ok(ContactsReply::Contact(x)) && *x == c,
                                None => r matches Ok(ContactsReply::Failure(m))
                                    && m@ == "Contact not found: "@ + id,
                            },
                        }
                    } else if action == "search_contacts"@ {
                        match arg_text(*arguments, "query"@) {
                            None => tool_error(r, "Missing required argument: query"@),
                            Some(q) => r matches Ok(ContactsReply::Contacts(v))
                                && derefs(v@) == found_contacts(self.contents(), q),
                        }
                    } else if action == "contacts_by_tag"@ {
                        match arg_text(*arguments, "tag"@) {
                            None => tool_error(r, "Missing required argument: tag"@),
                            Some(t) => r matches Ok(ContactsReply::Contacts(v))
                                && derefs(v@) == tagged_contacts(self.contents(), t),
                        }
                    } else if action == "favorite_contacts"@ {
                        r matches Ok(ContactsReply::Contacts(v)) && derefs(v@) == favorites(self.contents())
                    } else {
                        r matches Ok(ContactsReply::Failure(m)) && m@ == "Unknown action: "@ + action
                    }
                },
            },
            arg_text(*arguments, "action"@) matches Some(a) ==> (!contacts_answers(a) <==> (
            r matches Ok(ContactsReply::Failure(m)) && m@ == "Unknown action: "@ + a)),
    {
        let action = match text_arg(arguments, "action") {
            Some(a) => a,
            None => {
                return Err(Error::ToolError(String::from_str("Missing required argument: action")));
            },
        };
        if text_equal(action, "list_contacts") {
            let tag = text_arg(arguments, "tag");
            let favorite = bool_arg(arguments, "favorite");
            let company = text_arg(arguments, "company");
            Ok(ContactsReply::Contacts(list_contacts(&self.data, tag, favorite, company)))
        } else if text_equal(action, "get_contact") {
            let id = match text_arg(arguments, "contact_id") {
                Some(id) => id,
                None => {
                    return Err(Error::ToolError(String::from_str("Missing required argument: contact_id")));
                },
            };
            match get_contact(&self.data, id) {
                Some(c) => Ok(ContactsReply::Contact(c)),
                None => {
                    proof {
                        reveal_strlit("Contact not found: ");
                        reveal_strlit("Unknown action: ");
                        assert(("Contact not found: "@ + id@)[0] != ("Unknown action: "@ + action@)[0]);
                    }
                    Ok(ContactsReply::Failure(String::from_str("Contact not found: ").concat(id)))
                },
            }
        } else if text_equal(action, "search_contacts") {
            let q = match text_arg(arguments, "query") {
                Some(q) => q,
                None => {
                    return Err(Error::ToolError(String::from_str("Missing required argument: query")));
                },
            };
            Ok(ContactsReply::Contacts(search_contacts(&self.data, q)))
        } else if text_equal(action, "contacts_by_tag") {
            let tag = match text_arg(arguments, "tag") {
                Some(t) => t,
                None => {
                    return Err(Error::ToolError(String::from_str("Missing required argument: tag")));
                },
            };
            Ok(ContactsReply::Contacts(contacts_by_tag(&self.data, tag)))
        } else if text_equal(action, "favorite_contacts") {
            Ok(ContactsReply::Contacts(favorite_contacts(&self.data)))
        } else {
            Ok(ContactsReply::Failure(String::from_str("Unknown action: ").concat(action)))
        }
    }
}

} // verus!
