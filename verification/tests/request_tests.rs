use craft_cli::client::{response_outcome, CraftClient, HttpMethod, RequestBody, TaskLocation};
use craft_cli::commands::{
    content_source, current_set_message, daily_note_id, daily_note_request, done_updates,
    insert_request, item_update, list_entries, new_item, new_task, page_target,
    properties_object, added_message, removed_message, task_update, update_request,
    upload_check, uses_client, ContentSource, PageTarget,
};
use craft_cli::cli::{Commands, ConfigAction, ConfigArgs, ConnectionArgs};
use craft_cli::config::ApiEntry;
use craft_cli::error::{CliError, HttpFailure};

fn client() -> CraftClient {
    CraftClient::new("https://connect.test/links/X/api/v1//".to_string(), Some("sk".to_string()))
}

fn q(pairs: &[(&str, &str)]) -> Vec<(String, String)> {
    pairs.iter().map(|(a, b)| (a.to_string(), b.to_string())).collect()
}

const BASE: &str = "https://connect.test/links/X/api/v1";

#[test]
fn get_block_request() {
    let r = client().get_block(Some("blk"), Some("today"), -1, true);
    assert_eq!(r.method, HttpMethod::Get);
    assert_eq!(r.url, format!("{}/blocks", BASE));
    assert_eq!(r.query, q(&[("maxDepth", "-1"), ("fetchMetadata", "true"), ("id", "blk"), ("date", "today")]));
    assert_eq!(r.authorization, Some("Bearer sk".to_string()));
    assert!(matches!(r.body, RequestBody::Empty));
}

#[test]
fn client_without_key_sends_no_authorization() {
    let c = CraftClient::new("https://a.test".to_string(), None);
    let r = c.get_connection_info();
    assert_eq!(r.url, "https://a.test/connection");
    assert_eq!(r.authorization, None);
    assert!(r.query.is_empty());
}

#[test]
fn search_blocks_request() {
    let r = client().search_blocks(None, "todo", false, Some(2), None);
    assert_eq!(r.url, format!("{}/blocks/search", BASE));
    assert_eq!(r.query, q(&[("pattern", "todo"), ("caseSensitive", "false"), ("beforeBlockCount", "2")]));
}

#[test]
fn daily_search_with_regex_repeats_the_query() {
    let r = client().search("a.*b", Some("2024-01-01"), None, true);
    assert_eq!(r.url, format!("{}/daily-notes/search", BASE));
    assert_eq!(r.query, q(&[("include", "a.*b"), ("startDate", "2024-01-01"), ("regexps", "a.*b")]));
    let r = client().search("x", None, Some("2024-02-01"), false);
    assert_eq!(r.query, q(&[("include", "x"), ("endDate", "2024-02-01")]));
}

#[test]
fn collection_requests() {
    let c = client();
    let r = c.get_collection_schema("col", "schema");
    assert_eq!(r.url, format!("{}/collections/col/schema", BASE));
    assert_eq!(r.query, q(&[("format", "schema")]));
    let r = c.get_collection_items("col", 3);
    assert_eq!(r.url, format!("{}/collections/col/items", BASE));
    assert_eq!(r.query, q(&[("maxDepth", "3")]));
    let r = c.list_collections(None, None);
    assert!(r.query.is_empty());
    let r = c.delete_collection_items("col", vec!["i1".to_string()]);
    assert_eq!(r.method, HttpMethod::Delete);
    match r.body {
        RequestBody::DeleteItems { ids } => assert_eq!(ids, vec!["i1".to_string()]),
        b => panic!("{:?}", b),
    }
}

#[test]
fn task_requests() {
    let c = client();
    let r = c.list_tasks("inbox");
    assert_eq!(r.url, format!("{}/tasks", BASE));
    assert_eq!(r.query, q(&[("scope", "inbox")]));
    let r = c.delete_tasks(vec!["t".to_string()]);
    assert_eq!(r.method, HttpMethod::Delete);
}

#[test]
fn upload_request_puts_position_and_page_in_the_url() {
    let r = client().upload_file(Some("pic.png"), "page1", "start");
    assert_eq!(r.method, HttpMethod::Post);
    assert_eq!(r.url, format!("{}/upload?position=start&pageId=page1", BASE));
    assert!(r.query.is_empty());
    match r.body {
        RequestBody::Upload { file_name } => assert_eq!(file_name, "pic.png"),
        b => panic!("{:?}", b),
    }
    match client().upload_file(None, "p", "end").body {
        RequestBody::Upload { file_name } => assert_eq!(file_name, "file"),
        b => panic!("{:?}", b),
    }
}

#[test]
fn success_statuses_pass_the_body() {
    assert_eq!(response_outcome(200, Ok("{}".to_string())).unwrap(), "{}");
    assert_eq!(response_outcome(299, Ok("x".to_string())).unwrap(), "x");
}

#[test]
fn other_statuses_are_api_errors() {
    match response_outcome(404, Ok("nope".to_string())) {
        Err(CliError::Api { code, message }) => {
            assert_eq!(code, 404);
            assert_eq!(message, "nope");
        }
        other => panic!("{:?}", other),
    }
    match response_outcome(300, Err(HttpFailure { timeout: false, connect: false, status: None, text: "t".into() })) {
        Err(CliError::Api { code, message }) => {
            assert_eq!(code, 300);
            assert_eq!(message, "");
        }
        other => panic!("{:?}", other),
    }
    match response_outcome(199, Ok("early".to_string())) {
        Err(CliError::Api { code, .. }) => assert_eq!(code, 199),
        other => panic!("{:?}", other),
    }
}

#[test]
fn unreadable_success_body_is_a_transport_error() {
    match response_outcome(200, Err(HttpFailure { timeout: true, connect: false, status: None, text: "t".into() })) {
        Err(CliError::Network(m)) => assert_eq!(m, "Request timeout"),
        other => panic!("{:?}", other),
    }
}

#[test]
fn content_comes_from_stdin_or_argument() {
    assert!(matches!(content_source(Some("x".into()), true), Ok(ContentSource::Stdin)));
    match content_source(Some("x".into()), false) {
        Ok(ContentSource::Inline(s)) => assert_eq!(s, "x"),
        other => panic!("{:?}", other),
    }
    match content_source(None, false) {
        Err(CliError::Argument(m)) => assert_eq!(m, "Either markdown content or --stdin must be provided"),
        other => panic!("{:?}", other),
    }
}

#[test]
fn date_wins_over_page() {
    match page_target(Some("today".into()), Some("p".into())) {
        Ok(PageTarget::DailyNote { date }) => assert_eq!(date, "today"),
        other => panic!("{:?}", other),
    }
    match page_target(None, Some("p".into())) {
        Ok(PageTarget::Page { id }) => assert_eq!(id, "p"),
        other => panic!("{:?}", other),
    }
    match page_target(None, None) {
        Err(CliError::Argument(m)) => assert_eq!(m, "Either --date or --page-id must be provided"),
        other => panic!("{:?}", other),
    }
}

#[test]
fn daily_note_lookup_and_id() {
    let r = daily_note_request(&client(), "today");
    assert_eq!(r.query, q(&[("maxDepth", "0"), ("fetchMetadata", "false"), ("date", "today")]));
    assert_eq!(daily_note_id(Some("abc".into())).unwrap(), "abc");
    match daily_note_id(None) {
        Err(CliError::Api { code, message }) => {
            assert_eq!(code, 404);
            assert_eq!(message, "Daily note not found");
        }
        other => panic!("{:?}", other),
    }
}

#[test]
fn insert_and_update_bodies() {
    let r = insert_request(&client(), "## hi".into(), "start".into(), "page".into());
    assert_eq!(r.method, HttpMethod::Post);
    match r.body {
        RequestBody::InsertBlocks { blocks, position } => {
            assert_eq!(blocks.len(), 1);
            assert_eq!(blocks[0].markdown, "## hi");
            assert_eq!(position.position, "start");
            assert_eq!(position.page_id, "page");
        }
        b => panic!("{:?}", b),
    }
    let r = update_request(&client(), "b1".into(), "new".into());
    assert_eq!(r.method, HttpMethod::Put);
    match r.body {
        RequestBody::UpdateBlocks { blocks } => {
            assert_eq!(blocks[0].id, "b1");
            assert_eq!(blocks[0].markdown, "new");
        }
        b => panic!("{:?}", b),
    }
}

#[test]
fn new_task_locations() {
    let t = new_task("buy".into(), Some("today".into()), None, "inbox", None).unwrap();
    assert!(matches!(t.location, TaskLocation::Inbox));
    assert_eq!(t.task_info.schedule_date, Some("today".to_string()));
    assert_eq!(t.task_info.deadline_date, None);
    let t = new_task("buy".into(), None, None, "anything", Some("d".into())).unwrap();
    assert!(matches!(t.location, TaskLocation::Inbox));
    let t = new_task("buy".into(), None, Some("fri".into()), "daily", Some("2024-01-02".into())).unwrap();
    match t.location {
        TaskLocation::DailyNote { date } => assert_eq!(date, "2024-01-02"),
        l => panic!("{:?}", l),
    }
    match new_task("buy".into(), None, None, "daily", None) {
        Err(CliError::Argument(m)) => assert_eq!(m, "--date required when --to is daily"),
        other => panic!("{:?}", other),
    }
}

#[test]
fn task_update_includes_info_only_when_given() {
    let u = task_update("t".into(), Some("x".into()), None, None, None);
    assert_eq!(u.markdown, Some("x".to_string()));
    assert!(u.task_info.is_none());
    let u = task_update("t".into(), None, None, None, Some("done".into()));
    assert_eq!(u.task_info.unwrap().state, Some("done".to_string()));
}

#[test]
fn done_marks_each_task() {
    let us = done_updates(vec!["a".into(), "b".into()]);
    assert_eq!(us.len(), 2);
    assert_eq!(us[1].id, "b");
    let info = us[0].task_info.clone().unwrap();
    assert_eq!(info.state, Some("done".to_string()));
    assert!(us[0].markdown.is_none());
}

#[test]
fn later_property_wins() {
    let p = properties_object(q(&[("a", "1"), ("b", "2"), ("a", "3")]));
    assert_eq!(p, q(&[("a", "3"), ("b", "2")]));
    let item = new_item("T".into(), q(&[("k", "v")]));
    assert_eq!(item.title, "T");
    assert_eq!(item.properties, q(&[("k", "v")]));
}

#[test]
fn item_update_properties_only_when_given() {
    let u = item_update("i".into(), Some("t".into()), vec![]);
    assert!(u.properties.is_none());
    let u = item_update("i".into(), None, q(&[("x", "1"), ("x", "2")]));
    assert_eq!(u.properties, Some(q(&[("x", "2")])));
}

#[test]
fn upload_needs_an_existing_file() {
    assert!(upload_check(true, "a.png").is_ok());
    match upload_check(false, "a.png") {
        Err(CliError::Argument(m)) => assert_eq!(m, "File not found: a.png"),
        other => panic!("{:?}", other),
    }
}

#[test]
fn config_command_reports() {
    assert_eq!(added_message("w"), "API 'w' added");
    assert_eq!(removed_message("w"), "API 'w' removed");
    assert_eq!(current_set_message("w"), "'w' set as current API");
    let rows = vec![
        ("a".to_string(), ApiEntry { api: "ua".into(), key: Some("ka".into()) }),
        ("b".to_string(), ApiEntry { api: "ub".into(), key: None }),
    ];
    let l = list_entries(rows, &"b".to_string());
    assert_eq!(l.len(), 2);
    assert!(!l[0].current);
    assert!(l[1].current);
    assert_eq!(l[1].api, "ub");
}

#[test]
fn only_config_runs_without_a_client() {
    assert!(!uses_client(&Commands::Config(ConfigArgs { action: ConfigAction::List })));
    assert!(uses_client(&Commands::Connection(ConnectionArgs { action: None })));
}
