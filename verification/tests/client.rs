use gameserver_cli::client::{
    api_url, auth_header, base_url, choose_servername, expand_home, file_in_any_node, find_node_by_name,
    find_node_for_path, input_action, modify_message, node_is_available, parse_local_node_entry, parse_text,
    provider_location, server_dir, servername_missing, servers_contain, ws_url, AppState, CommandSettings,
    schedule_next, schedule_start, value_or_default, InputAction, MessageFilter, NodeProbe, ScheduleAction, StateArgs,
    StatusEvents,
};
use gameserver_cli::databasespec::{Database, LocalNode, LocalNodeType};
use gameserver_cli::jsondatabase::{ensure_db, load_db, resolve_path, DbConn, DbFile};

fn settings(url: Option<&str>, token: Option<&str>) -> CommandSettings {
    CommandSettings {
        auth_token: token.map(|t| t.to_string()),
        url: url.map(|u| u.to_string()),
        ..CommandSettings::default()
    }
}

fn state(url: Option<&str>, token: Option<&str>) -> AppState {
    AppState { db: Database { command_settings: settings(url, token) } }
}

fn node(name: &str, path: &str) -> LocalNode {
    LocalNode { name: name.to_string(), node_type: LocalNodeType::Local, path: path.to_string() }
}

#[test]
fn command_settings_merge_prefers_given() {
    let given = CommandSettings {
        url: Some("a".to_string()),
        local_nodes: Some(vec!["n:/p".to_string()]),
        ..CommandSettings::default()
    };
    let stored = CommandSettings {
        url: Some("b".to_string()),
        auth_token: Some("t".to_string()),
        forward_actions: Some("f".to_string()),
        ..CommandSettings::default()
    };
    let merged = given.merge(stored);
    assert_eq!(merged.url, Some("a".to_string()));
    assert_eq!(merged.auth_token, Some("t".to_string()));
    assert_eq!(merged.forward_actions, Some("f".to_string()));
    assert_eq!(merged.local_nodes, Some(vec!["n:/p".to_string()]));
    assert_eq!(merged.external_process_pid, None);
}

#[test]
fn command_settings_merge_laws_on_values() {
    let a = settings(Some("a"), None);
    let b = settings(None, Some("t"));
    let c = settings(Some("c"), Some("u"));
    let left = a.clone().merge(b.clone()).merge(c.clone());
    let right = a.clone().merge(b.clone().merge(c.clone()));
    assert_eq!(left.url, right.url);
    assert_eq!(left.auth_token, right.auth_token);
    let id = CommandSettings::default().merge(c.clone());
    assert_eq!(id.url, c.url);
    assert_eq!(id.auth_token, c.auth_token);
}

#[test]
fn change_node_request_needs_both() {
    let req = StateArgs { node_id: Some("n".to_string()), server_id: Some("s".to_string()) }
        .into_change_node_request()
        .unwrap();
    assert_eq!(req.node_id, "n");
    assert_eq!(req.server_id, "s");
    assert!(StateArgs { node_id: Some("n".to_string()), server_id: None }.into_change_node_request().is_none());
    assert!(StateArgs { node_id: None, server_id: Some("s".to_string()) }.into_change_node_request().is_none());
}

#[test]
fn base_url_adds_scheme() {
    assert_eq!(base_url(&state(Some("panel:8080"), None)), "http://panel:8080");
    assert_eq!(base_url(&state(Some("https://panel"), None)), "https://panel");
    assert_eq!(base_url(&state(Some("http://panel"), None)), "http://panel");
    assert_eq!(base_url(&state(None, None)), "http://");
    let once = base_url(&state(Some("panel"), None));
    assert_eq!(base_url(&state(Some(&once), None)), once);
}

#[test]
fn api_url_and_auth_header() {
    assert_eq!(api_url(&state(Some("panel"), None), "/api/servers"), "http://panel/api/servers");
    assert_eq!(auth_header(&state(None, Some("abc"))), "Bearer abc");
    assert_eq!(auth_header(&state(None, None)), "Bearer ");
}

#[test]
fn first_node_for_path() {
    let nodes = vec![node("a", "/srv/a"), node("b", "/srv"), node("c", "/srv/a/x")];
    assert_eq!(find_node_for_path(&nodes, "/srv/a/x/file.jar").unwrap().name, "a");
    assert_eq!(find_node_for_path(&nodes, "/srv/b/file.jar").unwrap().name, "b");
    assert!(find_node_for_path(&nodes, "/home/file.jar").is_none());
    assert!(file_in_any_node(&nodes, "/srv/q"));
    assert!(!file_in_any_node(&nodes, "/opt/q"));
    assert_eq!(find_node_by_name(&nodes, "c").unwrap().path, "/srv/a/x");
    assert!(find_node_by_name(&nodes, "d").is_none());
}

#[test]
fn messages_sent_unchanged() {
    assert_eq!(modify_message("say hi".to_string()), "say hi");
    assert_eq!(input_action("".to_string()), InputAction::Skip);
    assert_eq!(input_action("/quit".to_string()), InputAction::Quit);
    assert_eq!(input_action("list".to_string()), InputAction::Send("list".to_string()));
}

#[test]
fn parse_text_prefers_full_message() {
    assert_eq!(parse_text("{...}".to_string(), false, Some("hello".to_string())), "hello");
}

#[test]
fn parse_text_reads_data_fields() {
    let inner = r#"{"data": "{\"data\": \"deep\"}"}"#;
    assert_eq!(parse_text(inner.to_string(), false, None), "deep");
    let flat = r#"{"data": "plain"}"#;
    assert_eq!(parse_text(flat.to_string(), true, None), "plain");
    let marked = r#"noise Received JSON here line: {"data": "after marker"}"#;
    assert_eq!(parse_text(marked.to_string(), false, None), "after marker");
}

#[test]
fn parse_text_plain_lines() {
    assert_eq!(parse_text("Server started".to_string(), false, None), "Server started");
    assert_eq!(parse_text("Server started".to_string(), true, None), "Server started");
    assert_eq!(
        parse_text("Server started on port 25565".to_string(), true, None),
        "Server started on port 25565"
    );
    assert_eq!(parse_text("  {\"partial\"".to_string(), true, None), "");
    assert_eq!(parse_text("[1, 2]".to_string(), true, None), "");
    assert_eq!(parse_text("[1, 2]".to_string(), false, None), "[1, 2]");
    assert_eq!(parse_text("  {\"partial\"".to_string(), false, None), "  {\"partial\"");
    assert_eq!(parse_text(r#"{"other": 1}"#.to_string(), true, None), "");
    assert_eq!(parse_text(r#"{"other": 1}"#.to_string(), false, None), r#"{"other": 1}"#);
}

#[test]
fn local_node_entries() {
    let e = parse_local_node_entry("mynode:/srv/gameserver", "/home/u").unwrap();
    assert_eq!(e.name, "mynode");
    assert_eq!(e.unknown_type, None);
    assert_eq!(e.path, "/srv/gameserver");
    let e = parse_local_node_entry("n:local:~/games", "/home/u/").unwrap();
    assert_eq!(e.unknown_type, None);
    assert_eq!(e.path, "/home/u/games");
    let e = parse_local_node_entry("n:remote:/a:b", "/home/u").unwrap();
    assert_eq!(e.unknown_type, Some("remote".to_string()));
    assert_eq!(e.node_type, LocalNodeType::Local);
    assert_eq!(e.path, "/a:b");
    assert!(parse_local_node_entry("nocolon", "/home/u").is_none());
}

#[test]
fn expand_home_and_server_dir() {
    assert_eq!(expand_home("~/x", "/home/u//"), "/home/u/x");
    assert_eq!(expand_home("/abs/~/x", "/home/u"), "/abs/~/x");
    assert_eq!(server_dir("/srv/a"), "/srv/a/server");
    assert_eq!(server_dir("/srv/a///"), "/srv/a/server");
    assert_eq!(server_dir("/srv/server"), "/srv/server");
    assert_eq!(server_dir("/srv/server/"), "/srv/server/");
    let once = server_dir("/x/");
    assert_eq!(server_dir(&once), once);
}

#[test]
fn parsed_local_nodes_with_resolved_paths() {
    let s = CommandSettings {
        local_nodes: Some(vec![
            "a:/srv/a".to_string(),
            "skip".to_string(),
            "b:custom:~/b/".to_string(),
            "c:/srv/c/server".to_string(),
        ]),
        ..CommandSettings::default()
    };
    let entries = s.local_node_entries("/home/u");
    assert_eq!(entries.len(), 3);
    assert_eq!(entries[1].unknown_type, Some("custom".to_string()));
    let nodes = s.parsed_local_nodes("/home/u", &vec![Some("/real/a".to_string()), None]);
    assert_eq!(nodes.len(), 3);
    assert_eq!(nodes[0].name, "a");
    assert_eq!(nodes[0].path, "/real/a/server");
    assert_eq!(nodes[1].name, "b");
    assert_eq!(nodes[1].path, "/home/u/b/server");
    assert_eq!(nodes[2].path, "/srv/c/server");
    assert!(CommandSettings::default().parsed_local_nodes("/home/u", &vec![]).is_empty());
}

#[test]
fn websocket_url() {
    assert_eq!(ws_url("http://panel:80"), "ws://panel:80/api/ws");
    assert_eq!(ws_url("https://panel"), "wss://panel/api/ws");
    assert_eq!(ws_url("panel"), "panel/api/ws");
}

#[test]
fn node_availability_and_names() {
    assert!(node_is_available("down"));
    assert!(node_is_available("unknown"));
    assert!(!node_is_available("up"));
    assert!(!servername_missing(&None));
    assert_eq!(choose_servername(None, Some("cwd".to_string()), Some("dir".to_string())), "cwd");
    assert_eq!(choose_servername(None, None, Some("dir".to_string())), "server");
    assert_eq!(choose_servername(Some("given".to_string()), Some("cwd".to_string()), None), "given");
    assert_eq!(provider_location(true, "a.jar".to_string()), "a.jar");
    assert_eq!(provider_location(false, "a.jar".to_string()), "");
    let listed = vec![None, Some("lobby".to_string())];
    assert!(servers_contain(&listed, "lobby"));
    assert!(!servers_contain(&listed, "hub"));
}

#[test]
fn status_events_wait_for_second_event() {
    let mut events = StatusEvents::new();
    assert!(!events.read_chunk("event: status\ndata: up \n\n"));
    assert_eq!(events.status, "up");
    assert_eq!(events.events, 1);
    assert!(events.read_chunk("data:  down\r\ndata: later\n"));
    assert_eq!(events.status, "down");
    assert_eq!(events.events, 2);
}

#[test]
fn message_filter_suppresses_repeats() {
    let mut f = MessageFilter::new(true);
    assert!(f.accept(&"a".to_string()));
    assert!(!f.accept(&"a".to_string()));
    assert!(f.accept(&"b".to_string()));
    assert!(f.accept(&"a".to_string()));
    assert!(!f.accept(&"".to_string()));
    let mut g = MessageFilter::new(false);
    assert!(g.accept(&"a".to_string()));
    assert!(g.accept(&"a".to_string()));
    assert!(!g.accept(&"".to_string()));
}

#[test]
fn database_startup() {
    assert_eq!(resolve_path(None), "db.json");
    assert_eq!(resolve_path(Some("other.json")), "other.json");
    assert!(ensure_db(true).is_none());
    assert!(ensure_db(false).unwrap().command_settings.url.is_none());
    let (db, save) = load_db(DbFile::Missing);
    assert!(save && db.command_settings.auth_token.is_none());
    let (_, save) = load_db(DbFile::Unreadable);
    assert!(save);
    let (db, save) = load_db(DbFile::Parsed(Database { command_settings: settings(Some("u"), None) }));
    assert!(!save);
    assert_eq!(db.command_settings.url, Some("u".to_string()));
    let _conn = DbConn::first_connection();
}

#[test]
fn schedule_takes_first_available_node() {
    assert_eq!(schedule_start(0), ScheduleAction::GiveUp);
    assert_eq!(schedule_start(3), ScheduleAction::Probe(0));
    assert_eq!(schedule_next(3, 0, &NodeProbe::SwitchFailed), ScheduleAction::Probe(1));
    assert_eq!(schedule_next(3, 1, &NodeProbe::Status("up".to_string())), ScheduleAction::Probe(2));
    assert_eq!(schedule_next(3, 2, &NodeProbe::Status("down".to_string())), ScheduleAction::Choose(2));
    assert_eq!(schedule_next(3, 0, &NodeProbe::Status("unknown".to_string())), ScheduleAction::Choose(0));
    assert_eq!(schedule_next(3, 2, &NodeProbe::StatusUnreadable), ScheduleAction::GiveUp);
}

#[test]
fn status_event_down_makes_node_available() {
    let mut events = StatusEvents::new();
    assert!(events.read_chunk("data: up\r\ndata:\tdown \n"));
    assert_eq!(events.status, "down");
    assert!(node_is_available(&events.status));
}

#[test]
fn environment_value_or_default() {
    assert_eq!(value_or_default(Some(3), Some(4)), Some(3));
    assert_eq!(value_or_default(None, Some(4)), Some(4));
    assert_eq!(value_or_default::<u8>(None, None), None);
}
