use gameserver_cli::gameserverspec::{
    DatabaseError, FileSystemDrivers, Filters, Intergrations, JsonTag, K8sType, NodeStatus, NodeType,
    UserPerm,
};

#[test]
fn filters_read_in_any_case() {
    assert_eq!(Filters::from_str("alternating_line"), Ok(Filters::AlternatingLine));
    assert_eq!(Filters::from_str("Alternating_LINE"), Ok(Filters::AlternatingLine));
    assert_eq!(Filters::from_str("other"), Ok(Filters::NoFilter));
    assert_eq!(Filters::from_str(""), Ok(Filters::NoFilter));
}

#[test]
fn file_system_drivers_read_in_any_case() {
    assert_eq!(FileSystemDrivers::from_str("TCP"), Ok(FileSystemDrivers::Tcp));
    assert_eq!(FileSystemDrivers::from_str("tcp"), Ok(FileSystemDrivers::Tcp));
    assert_eq!(FileSystemDrivers::from_str("udp"), Ok(FileSystemDrivers::NoDriver));
}

#[test]
fn node_status_names() {
    assert_eq!(NodeStatus::from_str("Enabled"), Ok(NodeStatus::Enabled));
    assert_eq!(NodeStatus::from_str("disabled"), Ok(NodeStatus::Disabled));
    assert_eq!(NodeStatus::from_str("immutably_enabled"), Ok(NodeStatus::ImmutablyEnabled));
    assert_eq!(NodeStatus::from_str("ImmutablyEnabled"), Ok(NodeStatus::ImmutablyEnabled));
    assert_eq!(NodeStatus::from_str("immutably_disabled"), Ok(NodeStatus::ImmutablyDisabled));
    assert_eq!(NodeStatus::from_str("IMMUTABLYDISABLED"), Ok(NodeStatus::ImmutablyDisabled));
    assert_eq!(NodeStatus::from_str("whatever"), Ok(NodeStatus::Unknown));
}

#[test]
fn node_status_from_json_shapes() {
    assert_eq!(NodeStatus::from_json_tag(&JsonTag::Text("ENABLED".to_string())), NodeStatus::Enabled);
    assert_eq!(
        NodeStatus::from_json_tag(&JsonTag::Object(Some("immutably_disabled".to_string()))),
        NodeStatus::ImmutablyDisabled
    );
    assert_eq!(NodeStatus::from_json_tag(&JsonTag::Object(None)), NodeStatus::Unknown);
    assert_eq!(NodeStatus::from_json_tag(&JsonTag::Other), NodeStatus::Unknown);
}

#[test]
fn k8s_type_names() {
    assert_eq!(K8sType::from_str("Node"), Ok(K8sType::Node));
    assert_eq!(K8sType::from_str("pod"), Ok(K8sType::Pod));
    assert_eq!(K8sType::from_str("INBUILT"), Ok(K8sType::Inbuilt));
    assert_eq!(K8sType::from_str("unknown"), Ok(K8sType::Unknown));
    assert_eq!(K8sType::from_str("none"), Ok(K8sType::NoK8sType));
    assert_eq!(K8sType::from_str("cluster"), Ok(K8sType::NoK8sType));
}

#[test]
fn node_type_from_names() {
    assert_eq!(NodeType::from("custom".to_string()), NodeType::Custom);
    assert_eq!(NodeType::from("inbuilt".to_string()), NodeType::Inbuilt);
    assert_eq!(NodeType::from("main".to_string()), NodeType::Main);
    assert_eq!(NodeType::from("Main".to_string()), NodeType::CustomWithString("Main".to_string()));
    assert_eq!(NodeType::from_str("MAIN"), Ok(NodeType::Main));
    assert_eq!(NodeType::from_str("Rack-7"), Ok(NodeType::CustomWithString("rack-7".to_string())));
}

#[test]
fn node_type_names_shown() {
    assert_eq!(NodeType::Custom.to_string(), "custom");
    assert_eq!(NodeType::Inbuilt.to_string(), "inbuilt");
    assert_eq!(NodeType::Main.to_string(), "main");
    assert_eq!(NodeType::CustomWithString("x1".to_string()).to_string(), "x1");
    assert_eq!(NodeType::InbuiltWithString("y2".to_string()).to_string(), "y2");
    assert_eq!(NodeType::Unknown.to_string(), "");
}

#[test]
fn node_type_name_roundtrip() {
    for name in ["custom", "inbuilt", "main", "rack", ""] {
        assert_eq!(NodeType::from(name.to_string()).to_string(), name);
    }
    for t in [NodeType::Custom, NodeType::Inbuilt, NodeType::Main, NodeType::CustomWithString("rack".to_string())] {
        assert_eq!(NodeType::from(t.to_string()), t);
    }
}

#[test]
fn node_type_from_json_shapes() {
    assert_eq!(NodeType::from_json_tag(&JsonTag::Text("Custom".to_string())), NodeType::Custom);
    assert_eq!(NodeType::from_json_tag(&JsonTag::Object(Some("main".to_string()))), NodeType::Main);
    assert_eq!(
        NodeType::from_json_tag(&JsonTag::Object(Some("Edge".to_string()))),
        NodeType::CustomWithString("edge".to_string())
    );
    assert_eq!(NodeType::from_json_tag(&JsonTag::Object(None)), NodeType::Unknown);
    assert_eq!(NodeType::from_json_tag(&JsonTag::Other), NodeType::Unknown);
}

#[test]
fn intergrations_names() {
    assert_eq!(Intergrations::from_str("minecraft"), Ok(Intergrations::Minecraft));
    assert_eq!(Intergrations::from_str("Minecraft"), Ok(Intergrations::Unknown));
    assert_eq!(Intergrations::Minecraft.to_string(), "minecraft");
    assert_eq!(Intergrations::Other.to_string(), "unknown");
    assert_eq!(Intergrations::Unknown.to_string(), "unknown");
    for i in [Intergrations::Minecraft, Intergrations::Unknown] {
        assert_eq!(Intergrations::from_str(&i.to_string()), Ok(i));
    }
}

#[test]
fn user_perm_parse() {
    let p = UserPerm::from_str("admin:all").unwrap();
    assert_eq!(p.perm, "admin");
    assert_eq!(p.scope, "all");
    let p = UserPerm::from_str("role:scope:extra").unwrap();
    assert_eq!(p.perm, "role");
    assert_eq!(p.scope, "scope:extra");
    let p = UserPerm::from_str(":").unwrap();
    assert_eq!(p.perm, "");
    assert_eq!(p.scope, "");
}

#[test]
fn user_perm_without_colon_is_refused() {
    assert_eq!(
        UserPerm::from_str("admin"),
        Err("invalid perm format, expected 'perm:scope', got 'admin'".to_string())
    );
}

#[test]
fn user_perm_roundtrip() {
    let p = UserPerm { perm: "admin".to_string(), scope: "a:b".to_string() };
    assert_eq!(p.to_string(), "admin:a:b");
    assert_eq!(UserPerm::from_str(&p.to_string()), Ok(p));
    let s = "user:servers";
    assert_eq!(UserPerm::from_str(s).unwrap().to_string(), s);
}

#[test]
fn database_error_message() {
    assert_eq!(DatabaseError(404).message(), "HTTP error: 404");
    assert_eq!(DatabaseError(0).message(), "HTTP error: 0");
    assert_eq!(DatabaseError(65535).message(), "HTTP error: 65535");
}

#[test]
fn defaults() {
    assert_eq!(Filters::default(), Filters::NoFilter);
    assert_eq!(FileSystemDrivers::default(), FileSystemDrivers::NoDriver);
    assert_eq!(NodeStatus::default(), NodeStatus::Unknown);
    assert_eq!(K8sType::default(), K8sType::NoK8sType);
    assert_eq!(NodeType::default(), NodeType::Unknown);
    assert_eq!(Intergrations::default(), Intergrations::Unknown);
}

#[test]
fn node_status_names_read_back() {
    for (name, status) in [
        ("unknown", NodeStatus::Unknown),
        ("enabled", NodeStatus::Enabled),
        ("disabled", NodeStatus::Disabled),
        ("immutably_enabled", NodeStatus::ImmutablyEnabled),
        ("immutably_disabled", NodeStatus::ImmutablyDisabled),
    ] {
        assert_eq!(NodeStatus::from_json_tag(&JsonTag::Object(Some(name.to_string()))), status.clone());
        assert_eq!(NodeStatus::from_json_tag(&JsonTag::Text(name.to_string())), status);
    }
}

#[test]
fn lowercasing_beyond_ascii() {
    assert_eq!(NodeType::from_str("ÉDGE"), Ok(NodeType::CustomWithString("édge".to_string())));
    assert_eq!(NodeStatus::from_str("ENABLED"), Ok(NodeStatus::Enabled));
}
