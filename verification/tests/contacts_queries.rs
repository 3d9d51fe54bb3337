use mcp_server_playground::contacts::{
    contacts_by_tag, favorite_contacts, get_contact, list_contacts, search_contacts, Contact,
    ContactsData, ContactsMetadata,
};
use mcp_server_playground::{ContactsReply, ContactsTool, Error, JsonValue};

fn contact(id: &str, name: &str, company: Option<&str>, notes: Option<&str>, tags: &[&str], favorite: bool) -> Contact {
    let mut parts = name.split(' ');
    Contact {
        id: id.to_string(),
        first_name: parts.next().unwrap_or("").to_string(),
        last_name: parts.next().unwrap_or("").to_string(),
        display_name: name.to_string(),
        nickname: None,
        company: company.map(|c| c.to_string()),
        job_title: None,
        department: None,
        phone_numbers: Vec::new(),
        emails: Vec::new(),
        addresses: None,
        social_profiles: None,
        birthday: None,
        notes: notes.map(|n| n.to_string()),
        photo: None,
        tags: tags.iter().map(|t| t.to_string()).collect(),
        favorite,
        created_at: "2024-01-01T00:00:00Z".to_string(),
        updated_at: "2024-01-01T00:00:00Z".to_string(),
    }
}

fn sample() -> ContactsData {
    ContactsData {
        contacts: vec![
            contact("c001", "Alice Johnson", Some("Acme Corp"), Some("Met at the conference"), &["work", "Client"], true),
            contact("c002", "Bob Smith", None, Some("Brother-in-law"), &["family"], false),
            contact("c003", "Carol White", Some("ACME CORP"), None, &["Work"], false),
            contact("c004", "Dave Brown", Some("Globex"), Some("Plays tennis on weekends"), &["friend", "sports"], true),
        ],
        metadata: ContactsMetadata {
            total_contacts: 4,
            last_sync: "2024-06-01T00:00:00Z".to_string(),
            version: "1.0".to_string(),
            source: "test".to_string(),
        },
    }
}

fn ids(v: &[&Contact]) -> Vec<String> {
    v.iter().map(|c| c.id.clone()).collect()
}

fn obj(pairs: Vec<(&str, JsonValue)>) -> JsonValue {
    JsonValue::Object(pairs.into_iter().map(|(k, v)| (k.to_string(), v)).collect())
}

fn s(t: &str) -> JsonValue {
    JsonValue::String(t.to_string())
}

#[test]
fn list_contacts_without_filters_lists_all_in_order() {
    let data = sample();
    assert_eq!(ids(&list_contacts(&data, None, None, None)), vec!["c001", "c002", "c003", "c004"]);
}

#[test]
fn list_contacts_filters_tag_ignoring_ascii_case() {
    let data = sample();
    assert_eq!(ids(&list_contacts(&data, Some("WORK"), None, None)), vec!["c001", "c003"]);
}

#[test]
fn list_contacts_combines_filters() {
    let data = sample();
    assert_eq!(ids(&list_contacts(&data, Some("work"), Some(false), None)), vec!["c003"]);
    assert_eq!(ids(&list_contacts(&data, None, None, Some("acme corp"))), vec!["c001", "c003"]);
    assert_eq!(ids(&list_contacts(&data, None, Some(true), Some("Globex"))), vec!["c004"]);
    assert!(list_contacts(&data, None, None, Some("Initech")).is_empty());
}

#[test]
fn get_contact_by_id() {
    let data = sample();
    assert_eq!(get_contact(&data, "c002").unwrap().display_name, "Bob Smith");
    assert!(get_contact(&data, "c999").is_none());
    assert!(get_contact(&data, "C002").is_none());
}

#[test]
fn search_contacts_matches_name_company_and_notes_in_lower_case() {
    let data = sample();
    assert_eq!(ids(&search_contacts(&data, "ALICE")), vec!["c001"]);
    assert_eq!(ids(&search_contacts(&data, "acme")), vec!["c001", "c003"]);
    assert_eq!(ids(&search_contacts(&data, "Tennis")), vec!["c004"]);
    assert!(search_contacts(&data, "zebra").is_empty());
}

#[test]
fn contacts_by_tag_ignores_ascii_case() {
    let data = sample();
    assert_eq!(ids(&contacts_by_tag(&data, "client")), vec!["c001"]);
    assert_eq!(ids(&contacts_by_tag(&data, "work")), ids(&contacts_by_tag(&data, "WoRk")));
}

#[test]
fn favorites_equal_list_with_favorite_filter() {
    let data = sample();
    assert_eq!(ids(&favorite_contacts(&data)), vec!["c001", "c004"]);
    assert_eq!(ids(&favorite_contacts(&data)), ids(&list_contacts(&data, None, Some(true), None)));
}

#[test]
fn tag_query_equals_list_with_tag_filter() {
    let data = sample();
    assert_eq!(ids(&contacts_by_tag(&data, "family")), ids(&list_contacts(&data, Some("family"), None, None)));
}

#[test]
fn contacts_tool_counts_and_names() {
    let tool = ContactsTool::from_data(sample());
    assert_eq!(tool.contact_count(), 4);
    assert_eq!(tool.name(), "contacts");
}

#[test]
fn contacts_tool_missing_action_is_tool_error() {
    let tool = ContactsTool::from_data(sample());
    match tool.execute_query(&obj(vec![])) {
        Err(Error::ToolError(m)) => assert_eq!(m, "Missing required argument: action"),
        other => panic!("unexpected {other:?}"),
    }
    match tool.execute_query(&JsonValue::Null) {
        Err(Error::ToolError(m)) => assert_eq!(m, "Missing required argument: action"),
        other => panic!("unexpected {other:?}"),
    }
}

#[test]
fn contacts_tool_runs_each_action() {
    let tool = ContactsTool::from_data(sample());
    match tool.execute_query(&obj(vec![("action", s("list_contacts")), ("favorite", JsonValue::Bool(true))])) {
        Ok(ContactsReply::Contacts(v)) => assert_eq!(ids(&v), vec!["c001", "c004"]),
        other => panic!("unexpected {other:?}"),
    }
    match tool.execute_query(&obj(vec![("action", s("get_contact")), ("contact_id", s("c003"))])) {
        Ok(ContactsReply::Contact(c)) => assert_eq!(c.id, "c003"),
        other => panic!("unexpected {other:?}"),
    }
    match tool.execute_query(&obj(vec![("action", s("get_contact")), ("contact_id", s("nope"))])) {
        Ok(ContactsReply::Failure(m)) => assert_eq!(m, "Contact not found: nope"),
        other => panic!("unexpected {other:?}"),
    }
    match tool.execute_query(&obj(vec![("action", s("search_contacts")), ("query", s("brother"))])) {
        Ok(ContactsReply::Contacts(v)) => assert_eq!(ids(&v), vec!["c002"]),
        other => panic!("unexpected {other:?}"),
    }
    match tool.execute_query(&obj(vec![("action", s("contacts_by_tag")), ("tag", s("SPORTS"))])) {
        Ok(ContactsReply::Contacts(v)) => assert_eq!(ids(&v), vec!["c004"]),
        other => panic!("unexpected {other:?}"),
    }
    match tool.execute_query(&obj(vec![("action", s("favorite_contacts"))])) {
        Ok(ContactsReply::Contacts(v)) => assert_eq!(ids(&v), vec!["c001", "c004"]),
        other => panic!("unexpected {other:?}"),
    }
    match tool.execute_query(&obj(vec![("action", s("delete_everything"))])) {
        Ok(ContactsReply::Failure(m)) => assert_eq!(m, "Unknown action: delete_everything"),
        other => panic!("unexpected {other:?}"),
    }
}

#[test]
fn contacts_tool_missing_required_arguments() {
    let tool = ContactsTool::from_data(sample());
    for (action, arg) in [("get_contact", "contact_id"), ("search_contacts", "query"), ("contacts_by_tag", "tag")] {
        match tool.execute_query(&obj(vec![("action", s(action))])) {
            Err(Error::ToolError(m)) => assert_eq!(m, format!("Missing required argument: {arg}")),
            other => panic!("unexpected {other:?}"),
        }
    }
}

#[test]
fn contacts_tool_ignores_arguments_of_the_wrong_type() {
    let tool = ContactsTool::from_data(sample());
    match tool.execute_query(&obj(vec![("action", s("list_contacts")), ("favorite", s("true"))])) {
        Ok(ContactsReply::Contacts(v)) => assert_eq!(v.len(), 4),
        other => panic!("unexpected {other:?}"),
    }
}

fn strings(v: &JsonValue) -> Vec<String> {
    match v {
        JsonValue::Array(items) => items.iter().map(|i| i.as_str().unwrap().to_string()).collect(),
        other => panic!("not an array: {other:?}"),
    }
}

#[test]
fn contacts_schema_describes_the_arguments() {
    let tool = ContactsTool::from_data(sample());
    let schema = tool.input_schema();
    assert_eq!(schema.get("type").and_then(|t| t.as_str()), Some("object"));
    assert_eq!(strings(schema.get("required").unwrap()), vec!["action"]);
    let props = schema.get("properties").unwrap();
    let names: Vec<&str> = match props {
        JsonValue::Object(m) => m.iter().map(|(k, _)| k.as_str()).collect(),
        other => panic!("not an object: {other:?}"),
    };
    assert_eq!(names, vec!["action", "contact_id", "query", "tag", "company", "favorite"]);
    let action = props.get("action").unwrap();
    assert_eq!(action.get("type").and_then(|t| t.as_str()), Some("string"));
    assert_eq!(action.get("description").and_then(|t| t.as_str()), Some("The query action to perform"));
    assert_eq!(
        strings(action.get("enum").unwrap()),
        vec!["list_contacts", "get_contact", "search_contacts", "contacts_by_tag", "favorite_contacts"]
    );
    let favorite = props.get("favorite").unwrap();
    assert_eq!(favorite.get("type").and_then(|t| t.as_str()), Some("boolean"));
    assert_eq!(
        favorite.get("description").and_then(|t| t.as_str()),
        Some("Favorite filter (optional for list_contacts)")
    );
}

#[test]
fn contacts_schema_actions_are_all_answered() {
    let tool = ContactsTool::from_data(sample());
    let schema = tool.input_schema();
    let actions = strings(schema.get("properties").unwrap().get("action").unwrap().get("enum").unwrap());
    for action in actions {
        let args = obj(vec![("action", s(&action)), ("contact_id", s("c999")), ("query", s("x")), ("tag", s("x"))]);
        match tool.execute_query(&args) {
            Ok(ContactsReply::Failure(m)) => assert!(!m.starts_with("Unknown action"), "{action}: {m}"),
            Ok(_) => {}
            Err(e) => panic!("{action}: {e:?}"),
        }
    }
}

#[test]
fn search_contacts_same_for_queries_differing_in_case() {
    let data = sample();
    for (a, b) in [("ACME", "acme"), ("Alice", "aLICE"), ("TeNNis", "tennis")] {
        assert_eq!(ids(&search_contacts(&data, a)), ids(&search_contacts(&data, b)));
    }
}

#[test]
fn tag_filter_only_narrows_the_list() {
    let data = sample();
    for fav in [None, Some(true), Some(false)] {
        let wider = ids(&list_contacts(&data, None, fav, None));
        let narrower = ids(&list_contacts(&data, Some("work"), fav, None));
        let tagged = ids(&contacts_by_tag(&data, "work"));
        let expected: Vec<String> = wider.iter().filter(|id| tagged.contains(id)).cloned().collect();
        assert_eq!(narrower, expected);
    }
}
