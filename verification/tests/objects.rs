use gameserver_cli::gameserverspec::{
    preset_server, Element, ModifyElementData, User,
    ButtonArgs, FileSystemDrivers, Filters, IntergrationArgs, Intergrations, K8sType, Node, NodeArgs,
    NodeStatus, NodeType, Server, ServerArgs, ServerMetadata, ServerMetadataArgs, Settings, SettingsArgs,
    UserArgs, UserPerm,
};

fn no_settings_args() -> SettingsArgs {
    SettingsArgs {
        toggled_default_buttons: None,
        status_type: None,
        enabled_rcon: None,
        rcon_url: None,
        rcon_password: None,
        filter: None,
        file_system_driver: None,
        enable_statistics_on_home_page: None,
        enable_nodes_on_home_page: None,
        console_entry_on_top: None,
        current_server: None,
    }
}

fn sample_server() -> Server {
    Server {
        servername: "lobby".to_string(),
        provider: "custom".to_string(),
        providertype: "".to_string(),
        location: "lobby".to_string(),
        node: Node::default(),
        sandbox: true,
        server_metadata: ServerMetadata { start_keyword: Some("Done".to_string()), stop_keyword: None },
    }
}

fn sample_settings() -> Settings {
    Settings {
        toggled_default_buttons: true,
        status_type: "server-process".to_string(),
        enabled_rcon: false,
        rcon_url: "10.0.0.2:25575".to_string(),
        rcon_password: "secret".to_string(),
        filter: Filters::AlternatingLine,
        file_system_driver: FileSystemDrivers::Tcp,
        enable_statistics_on_home_page: true,
        enable_nodes_on_home_page: false,
        console_entry_on_top: false,
        current_server: sample_server(),
    }
}

#[test]
fn user_from_args() {
    let user = UserArgs {
        username: Some("ana".to_string()),
        password: Some("pw".to_string()),
        user_perms: Some(vec![UserPerm { perm: "admin".to_string(), scope: "all".to_string() }]),
    }
    .into_user();
    assert_eq!(user.username, "ana");
    assert_eq!(user.password_hash, Some("pw".to_string()));
    assert_eq!(user.user_perms.len(), 1);
    let empty = UserArgs { username: None, password: None, user_perms: None }.into_user();
    assert_eq!(empty.username, "");
    assert_eq!(empty.password_hash, None);
    assert!(empty.user_perms.is_empty());
}

#[test]
fn node_from_args() {
    let node = NodeArgs {
        nodename: Some("n1".to_string()),
        ip: Some("10.0.0.1".to_string()),
        nodestatus: Some(NodeStatus::Enabled),
        nodetype: Some(NodeType::Main),
        k8s_type: Some(K8sType::Pod),
    }
    .into_node();
    assert_eq!(node.nodename, "n1");
    assert_eq!(node.ip, "10.0.0.1");
    assert_eq!(node.nodestatus, NodeStatus::Enabled);
    assert_eq!(node.nodetype, NodeType::Main);
    assert_eq!(node.k8s_type, K8sType::Pod);
    let defaulted = NodeArgs { nodename: None, ip: None, nodestatus: None, nodetype: None, k8s_type: None }.into_node();
    assert_eq!(defaulted, Node::default());
    assert_eq!(defaulted.nodestatus, NodeStatus::Unknown);
    assert_eq!(defaulted.k8s_type, K8sType::NoK8sType);
}

#[test]
fn button_from_args() {
    let b = ButtonArgs { name: Some("Map".to_string()), link: None, button_type: Some("link".to_string()) }.into_button();
    assert_eq!(b.name, "Map");
    assert_eq!(b.link, "");
    assert_eq!(b.button_type, "link");
}

#[test]
fn intergration_from_args() {
    let i = IntergrationArgs {
        status: Some("on".to_string()),
        intergration_type: Some("minecraft".to_string()),
        settings: Some("{\"a\": 1}".to_string()),
    }
    .into_intergration();
    assert_eq!(i.status, "on");
    assert_eq!(i.intergration_type, Intergrations::Minecraft);
    assert_eq!(i.settings, "{\"a\": 1}");
    let bad = IntergrationArgs { status: None, intergration_type: Some("factorio".to_string()), settings: Some("{oops".to_string()) }
        .into_intergration();
    assert_eq!(bad.status, "");
    assert_eq!(bad.intergration_type, Intergrations::Unknown);
    assert_eq!(bad.settings, "null");
    let none = IntergrationArgs { status: None, intergration_type: None, settings: None }.into_intergration();
    assert_eq!(none.intergration_type, Intergrations::Unknown);
    assert_eq!(none.settings, "null");
}

#[test]
fn server_metadata_from_args() {
    let m = ServerMetadataArgs { start_keyword: Some("Done".to_string()), stop_keyword: None }.into_server_metadata();
    assert_eq!(m.start_keyword, Some("Done".to_string()));
    assert_eq!(m.stop_keyword, None);
}

#[test]
fn server_from_args() {
    let args = ServerArgs {
        servername: Some("lobby".to_string()),
        provider: None,
        providertype: None,
        location: Some("here".to_string()),
        node: Some("{}".to_string()),
        sandbox: None,
        server_metadata: None,
    };
    let node = Node { nodename: "n1".to_string(), ..Node::default() };
    let s = args.into_server(Some(node.clone()), None);
    assert_eq!(s.servername, "lobby");
    assert_eq!(s.provider, "");
    assert_eq!(s.location, "here");
    assert_eq!(s.node, node);
    assert!(!s.sandbox);
    assert_eq!(s.server_metadata, ServerMetadata::default());
    let bare = ServerArgs {
        servername: None,
        provider: None,
        providertype: None,
        location: None,
        node: None,
        sandbox: Some(true),
        server_metadata: None,
    }
    .into_server(None, None);
    assert_eq!(bare, Server { sandbox: true, ..Server::default() });
}

#[test]
fn settings_defaults_from_args() {
    let s = no_settings_args().into_settings(None);
    assert!(!s.toggled_default_buttons);
    assert_eq!(s.status_type, "");
    assert!(s.enabled_rcon);
    assert_eq!(s.rcon_url, "localhost:25575");
    assert_eq!(s.rcon_password, "testing");
    assert_eq!(s.filter, Filters::NoFilter);
    assert_eq!(s.file_system_driver, FileSystemDrivers::NoDriver);
    assert!(!s.enable_statistics_on_home_page);
    assert!(!s.enable_nodes_on_home_page);
    assert!(s.console_entry_on_top);
    assert_eq!(s.current_server, Server::default());
}

#[test]
fn settings_given_values_from_args() {
    let mut args = no_settings_args();
    args.enabled_rcon = Some(false);
    args.rcon_url = Some("h:1".to_string());
    args.filter = Some(Filters::AlternatingLine);
    args.console_entry_on_top = Some(false);
    let s = args.into_settings(Some(sample_server()));
    assert!(!s.enabled_rcon);
    assert_eq!(s.rcon_url, "h:1");
    assert_eq!(s.rcon_password, "testing");
    assert_eq!(s.filter, Filters::AlternatingLine);
    assert!(!s.console_entry_on_top);
    assert_eq!(s.current_server, sample_server());
}

#[test]
fn settings_merge_keeps_what_is_not_given() {
    let merged = no_settings_args().merge(sample_settings(), None);
    let expected = sample_settings();
    assert_eq!(merged.toggled_default_buttons, expected.toggled_default_buttons);
    assert_eq!(merged.status_type, expected.status_type);
    assert_eq!(merged.enabled_rcon, expected.enabled_rcon);
    assert_eq!(merged.rcon_url, expected.rcon_url);
    assert_eq!(merged.rcon_password, expected.rcon_password);
    assert_eq!(merged.filter, expected.filter);
    assert_eq!(merged.file_system_driver, expected.file_system_driver);
    assert_eq!(merged.enable_statistics_on_home_page, expected.enable_statistics_on_home_page);
    assert_eq!(merged.enable_nodes_on_home_page, expected.enable_nodes_on_home_page);
    assert_eq!(merged.console_entry_on_top, expected.console_entry_on_top);
    assert_eq!(merged.current_server, expected.current_server);
}

#[test]
fn settings_merge_given_values_win() {
    let mut args = no_settings_args();
    args.status_type = Some("docker".to_string());
    args.enable_nodes_on_home_page = Some(true);
    args.file_system_driver = Some(FileSystemDrivers::NoDriver);
    let server = Server { servername: "other".to_string(), ..Server::default() };
    let merged = args.merge(sample_settings(), Some(server.clone()));
    assert_eq!(merged.status_type, "docker");
    assert!(merged.enable_nodes_on_home_page);
    assert_eq!(merged.file_system_driver, FileSystemDrivers::NoDriver);
    assert_eq!(merged.rcon_password, "secret");
    assert!(merged.toggled_default_buttons);
    assert_eq!(merged.current_server, server);
}

#[test]
fn settings_default_values() {
    let s = Settings::default();
    assert!(!s.enabled_rcon);
    assert_eq!(s.rcon_url, "");
    assert!(!s.console_entry_on_top);
    assert_eq!(s.filter, Filters::NoFilter);
}

#[test]
fn settings_merge_twice_is_merge_once() {
    let make_args = || {
        let mut args = no_settings_args();
        args.rcon_url = Some("h:2".to_string());
        args.enabled_rcon = Some(true);
        args
    };
    let once = make_args().merge(sample_settings(), None);
    let twice = make_args().merge(make_args().merge(sample_settings(), None), None);
    assert_eq!(once.rcon_url, twice.rcon_url);
    assert_eq!(once.enabled_rcon, twice.enabled_rcon);
    assert_eq!(once.status_type, twice.status_type);
    assert_eq!(once.current_server, twice.current_server);
}

#[test]
fn settings_for_server_process() {
    let s = sample_settings().for_server_process();
    assert_eq!(s.status_type, "server-process");
    assert_eq!(s.rcon_password, "secret");
    assert_eq!(s.current_server, sample_server());
}

#[test]
fn element_requests() {
    let user = User { username: "ana".to_string(), password_hash: None, user_perms: vec![] };
    match Element::from_user(user) {
        Element::User { password, user, user_perms } => {
            assert_eq!(password, "");
            assert_eq!(user, "ana");
            assert!(user_perms.is_empty());
        }
        _ => panic!("not a user element"),
    }
    let request = ModifyElementData::for_element(Element::String("lobby".to_string()));
    assert_eq!(request.jwt, "");
    assert!(!request.require_auth);
    let server = preset_server("lobby".to_string(), "here".to_string());
    assert_eq!(server.provider, "custom");
    assert_eq!(server.location, "here");
    assert_eq!(server.servername, "lobby");
    assert!(!server.sandbox);
    assert_eq!(server.node, Node::default());
}
