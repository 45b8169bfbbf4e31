//! The objects the panel manages (users, nodes, buttons, integrations,
//! servers, settings), the values users give for them on the command line,
//! and how those values are read and combined.

use vstd::prelude::*;
use vstd::std_specs::convert::FromSpec;
use vstd::string::*;

use crate::json::{json_is_valid, json_parses};
use crate::text::{
    concat, decimal, decimal_string, find, first_occurrence, lemma_find_first_at, lemma_find_from,
    lemma_lowercase_of_lower_ascii, occurs_at, or_default, or_empty, str_eq, string_or_empty, lowercase, to_lowercase,
};

verus! {

/// A request to the panel failed with this HTTP status code.
#[derive(Debug)]
pub struct DatabaseError(pub u16);

impl DatabaseError {
    /// The text the error shows: `HTTP error: ` and the code in decimal.
    pub fn message(&self) -> (r: String)
        ensures
            r@ == "HTTP error: "@ + decimal(self.0 as nat),
    {
        let code = decimal_string(self.0 as u64);
        concat("HTTP error: ", code.as_str())
    }
}

/// What the shape of a JSON value shows to the readers of enum names below:
/// a string, an object together with the string under its `kind` member
/// (`None` when that member is missing or not a string), or anything else.
#[derive(Debug, Clone, PartialEq)]
pub enum JsonTag {
    Text(String),
    Object(Option<String>),
    Other,
}

/// How console output is filtered.
#[derive(Debug, Clone, PartialEq, Eq, Structural)]
pub enum Filters {
    AlternatingLine,
    NoFilter,
}

impl Filters {
    /// The filter an already lowercased name selects.
    pub open spec fn spec_from_lowercase(s: Seq<char>) -> Filters {
        if s == "alternating_line"@ {
            Filters::AlternatingLine
        } else {
            Filters::NoFilter
        }
    }

    /// Reads an already lowercased filter name; any unknown name selects
    /// `Filters::NoFilter`.
    pub fn from_lowercase(s: &str) -> (r: Filters)
        ensures
            r == Self::spec_from_lowercase(s@),
    {
        if str_eq(s, "alternating_line") {
            Filters::AlternatingLine
        } else {
            Filters::NoFilter
        }
    }

    /// Reads a filter name in any case; never fails.
    pub fn from_str(s: &str) -> (r: Result<Filters, String>)
        ensures
            r == Ok::<Filters, String>(Self::spec_from_lowercase(lowercase(s@))),
    {
        let lower = to_lowercase(s);
        Ok(Self::from_lowercase(lower.as_str()))
    }
}

impl Default for Filters {
    fn default() -> (r: Filters)
        ensures
            r == Filters::NoFilter,
    {
        Filters::NoFilter
    }
}

/// How the panel reaches the files of a server.
#[derive(Debug, Clone, PartialEq, Eq, Structural)]
pub enum FileSystemDrivers {
    Tcp,
    NoDriver,
}

impl FileSystemDrivers {
    /// The driver an already lowercased name selects.
    pub open spec fn spec_from_lowercase(s: Seq<char>) -> FileSystemDrivers {
        if s == "tcp"@ {
            FileSystemDrivers::Tcp
        } else {
            FileSystemDrivers::NoDriver
        }
    }

    /// Reads an already lowercased driver name; any unknown name selects
    /// `FileSystemDrivers::NoDriver`.
    pub fn from_lowercase(s: &str) -> (r: FileSystemDrivers)
        ensures
            r == Self::spec_from_lowercase(s@),
    {
        if str_eq(s, "tcp") {
            FileSystemDrivers::Tcp
        } else {
            FileSystemDrivers::NoDriver
        }
    }

    /// Reads a driver name in any case; never fails.
    pub fn from_str(s: &str) -> (r: Result<FileSystemDrivers, String>)
        ensures
            r == Ok::<FileSystemDrivers, String>(
                Self::spec_from_lowercase(lowercase(s@)),
            ),
    {
        let lower = to_lowercase(s);
        Ok(Self::from_lowercase(lower.as_str()))
    }
}

impl Default for FileSystemDrivers {
    fn default() -> (r: FileSystemDrivers)
        ensures
            r == FileSystemDrivers::NoDriver,
    {
        FileSystemDrivers::NoDriver
    }
}

/// Whether a node takes work, and whether users may change that.
#[derive(Debug, Clone, PartialEq, Eq, Structural)]
pub enum NodeStatus {
    Unknown,
    Enabled,
    Disabled,
    ImmutablyEnabled,
    ImmutablyDisabled,
}

impl NodeStatus {
    /// The status an already lowercased name selects.
    pub open spec fn spec_from_lowercase(s: Seq<char>) -> NodeStatus {
        if s == "enabled"@ {
            NodeStatus::Enabled
        } else if s == "disabled"@ {
            NodeStatus::Disabled
        } else if s == "immutably_enabled"@ || s == "immutablyenabled"@ {
            NodeStatus::ImmutablyEnabled
        } else if s == "immutably_disabled"@ || s == "immutablydisabled"@ {
            NodeStatus::ImmutablyDisabled
        } else {
            NodeStatus::Unknown
        }
    }

    /// Reads an already lowercased status name; any unknown name gives
    /// `NodeStatus::Unknown`.
    pub fn from_lowercase(s: &str) -> (r: NodeStatus)
        ensures
            r == Self::spec_from_lowercase(s@),
    {
        if str_eq(s, "enabled") {
            NodeStatus::Enabled
        } else if str_eq(s, "disabled") {
            NodeStatus::Disabled
        } else if str_eq(s, "immutably_enabled") || str_eq(s, "immutablyenabled") {
            NodeStatus::ImmutablyEnabled
        } else if str_eq(s, "immutably_disabled") || str_eq(s, "immutablydisabled") {
            NodeStatus::ImmutablyDisabled
        } else {
            NodeStatus::Unknown
        }
    }

    /// Reads a status name in any case; never fails.
    pub fn from_str(s: &str) -> (r: Result<NodeStatus, String>)
        ensures
            r == Ok::<NodeStatus, String>(Self::spec_from_lowercase(lowercase(s@))),
    {
        let lower = to_lowercase(s);
        Ok(Self::from_lowercase(lower.as_str()))
    }

    /// The status a JSON value stands for: a string names it, an object
    /// names it under `kind`, and anything else is `Unknown`.
    pub open spec fn spec_from_json_tag(tag: JsonTag) -> NodeStatus {
        match tag {
            JsonTag::Text(s) => Self::spec_from_lowercase(lowercase(s@)),
            JsonTag::Object(Some(kind)) => Self::spec_from_lowercase(lowercase(kind@)),
            _ => NodeStatus::Unknown,
        }
    }

    /// Reads a status from the shape of a JSON value.
    pub fn from_json_tag(tag: &JsonTag) -> (r: NodeStatus)
        ensures
            r == Self::spec_from_json_tag(*tag),
    {
        let parsed = match tag {
            JsonTag::Text(s) => NodeStatus::from_str(s.as_str()),
            JsonTag::Object(Some(kind)) => NodeStatus::from_str(kind.as_str()),
            _ => Ok(NodeStatus::Unknown),
        };
        match parsed {
            Ok(status) => status,
            Err(_) => NodeStatus::default(),
        }
    }

    /// The name a status goes by when it is written out: its variant's name
    /// in snake case.
    pub open spec fn spec_name(self) -> Seq<char> {
        match self {
            NodeStatus::Unknown => "unknown"@,
            NodeStatus::Enabled => "enabled"@,
            NodeStatus::Disabled => "disabled"@,
            NodeStatus::ImmutablyEnabled => "immutably_enabled"@,
            NodeStatus::ImmutablyDisabled => "immutably_disabled"@,
        }
    }
}

impl Default for NodeStatus {
    fn default() -> (r: NodeStatus)
        ensures
            r == NodeStatus::Unknown,
    {
        NodeStatus::Unknown
    }
}

/// The Kubernetes role of a node.
#[derive(Debug, Clone, PartialEq, Eq, Structural)]
pub enum K8sType {
    Node,
    Pod,
    NoK8sType,
    Inbuilt,
    Unknown,
}

impl K8sType {
    /// The type an already lowercased name selects.
    pub open spec fn spec_from_lowercase(s: Seq<char>) -> K8sType {
        if s == "node"@ {
            K8sType::Node
        } else if s == "pod"@ {
            K8sType::Pod
        } else if s == "inbuilt"@ {
            K8sType::Inbuilt
        } else if s == "unknown"@ {
            K8sType::Unknown
        } else {
            K8sType::NoK8sType
        }
    }

    /// Reads an already lowercased type name; any unknown name gives
    /// `K8sType::NoK8sType`.
    pub fn from_lowercase(s: &str) -> (r: K8sType)
        ensures
            r == Self::spec_from_lowercase(s@),
    {
        if str_eq(s, "node") {
            K8sType::Node
        } else if str_eq(s, "pod") {
            K8sType::Pod
        } else if str_eq(s, "inbuilt") {
            K8sType::Inbuilt
        } else if str_eq(s, "unknown") {
            K8sType::Unknown
        } else {
            K8sType::NoK8sType
        }
    }

    /// Reads a type name in any case; never fails.
    pub fn from_str(s: &str) -> (r: Result<K8sType, String>)
        ensures
            r == Ok::<K8sType, String>(Self::spec_from_lowercase(lowercase(s@))),
    {
        let lower = to_lowercase(s);
        Ok(Self::from_lowercase(lower.as_str()))
    }
}

impl Default for K8sType {
    fn default() -> (r: K8sType)
        ensures
            r == K8sType::NoK8sType,
    {
        K8sType::NoK8sType
    }
}


/// What kind of machine a node is.
#[derive(Debug, Clone, PartialEq)]
pub enum NodeType {
    Unknown,
    Custom,
    CustomWithString(String),
    InbuiltWithString(String),
    Inbuilt,
    Main,
}

/// `NodeType` with its strings taken as character sequences.
pub enum NodeTypeView {
    Unknown,
    Custom,
    CustomWithString(Seq<char>),
    InbuiltWithString(Seq<char>),
    Inbuilt,
    Main,
}

impl View for NodeType {
    type V = NodeTypeView;

    open spec fn view(&self) -> NodeTypeView {
        match self {
            NodeType::Unknown => NodeTypeView::Unknown,
            NodeType::Custom => NodeTypeView::Custom,
            NodeType::CustomWithString(s) => NodeTypeView::CustomWithString(s@),
            NodeType::InbuiltWithString(s) => NodeTypeView::InbuiltWithString(s@),
            NodeType::Inbuilt => NodeTypeView::Inbuilt,
            NodeType::Main => NodeTypeView::Main,
        }
    }
}

impl NodeType {
    /// The names that select a node type of their own; every other name is
    /// kept as a custom type.
    pub open spec fn is_reserved_name(s: Seq<char>) -> bool {
        s == "custom"@ || s == "inbuilt"@ || s == "main"@
    }

    /// The node type a name gives (without changing its case).
    pub open spec fn spec_from_name(s: Seq<char>) -> NodeTypeView {
        if s == "custom"@ {
            NodeTypeView::Custom
        } else if s == "inbuilt"@ {
            NodeTypeView::Inbuilt
        } else if s == "main"@ {
            NodeTypeView::Main
        } else {
            NodeTypeView::CustomWithString(s)
        }
    }

    /// The name a node type shows; `Unknown` shows as the empty string.
    pub open spec fn spec_name(t: NodeTypeView) -> Seq<char> {
        match t {
            NodeTypeView::Custom => "custom"@,
            NodeTypeView::Inbuilt => "inbuilt"@,
            NodeTypeView::Main => "main"@,
            NodeTypeView::CustomWithString(s) => s,
            NodeTypeView::InbuiltWithString(s) => s,
            NodeTypeView::Unknown => Seq::empty(),
        }
    }

    /// The name this node type shows.
    pub fn to_string(&self) -> (r: String)
        ensures
            r@ == Self::spec_name(self@),
    {
        match self {
            NodeType::Custom => String::from_str("custom"),
            NodeType::Inbuilt => String::from_str("inbuilt"),
            NodeType::Main => String::from_str("main"),
            NodeType::CustomWithString(s) => s.clone(),
            NodeType::InbuiltWithString(s) => s.clone(),
            NodeType::Unknown => String::new(),
        }
    }

    /// Reads a node type name in any case; never fails.
    pub fn from_str(s: &str) -> (r: Result<NodeType, String>)
        ensures
            r matches Ok(t) && t@ == Self::spec_from_name(lowercase(s@)),
    {
        let lower = to_lowercase(s);
        Ok(NodeType::from(lower))
    }

    /// The node type a JSON value stands for: a string names it in any
    /// case, an object names it under `kind`, and anything else is
    /// `Unknown`.
    pub open spec fn spec_from_json_tag(tag: JsonTag) -> NodeTypeView {
        match tag {
            JsonTag::Text(s) => Self::spec_from_name(lowercase(s@)),
            JsonTag::Object(Some(kind)) => Self::spec_from_name(lowercase(kind@)),
            _ => NodeTypeView::Unknown,
        }
    }

    /// Reads a node type from the shape of a JSON value.
    pub fn from_json_tag(tag: &JsonTag) -> (r: NodeType)
        ensures
            r@ == Self::spec_from_json_tag(*tag),
    {
        match tag {
            JsonTag::Text(s) => NodeType::from(to_lowercase(s.as_str())),
            JsonTag::Object(Some(kind)) => NodeType::from(to_lowercase(kind.as_str())),
            _ => NodeType::Unknown,
        }
    }
}

impl From<String> for NodeType {
    /// The reserved names select their own type; any other name is kept as
    /// a custom type.
    fn from(s: String) -> (r: NodeType) {
        if str_eq(s.as_str(), "custom") {
            NodeType::Custom
        } else if str_eq(s.as_str(), "inbuilt") {
            NodeType::Inbuilt
        } else if str_eq(s.as_str(), "main") {
            NodeType::Main
        } else {
            NodeType::CustomWithString(s)
        }
    }
}

impl vstd::std_specs::convert::FromSpecImpl<String> for NodeType {
    open spec fn obeys_from_spec() -> bool {
        true
    }

    open spec fn from_spec(s: String) -> NodeType {
        if s@ == "custom"@ {
            NodeType::Custom
        } else if s@ == "inbuilt"@ {
            NodeType::Inbuilt
        } else if s@ == "main"@ {
            NodeType::Main
        } else {
            NodeType::CustomWithString(s)
        }
    }
}

impl Default for NodeType {
    fn default() -> (r: NodeType)
        ensures
            r == NodeType::Unknown,
    {
        NodeType::Unknown
    }
}

/// The games the panel integrates with.
#[derive(Debug, Clone, PartialEq, Eq, Structural)]
pub enum Intergrations {
    Minecraft,
    Other,
    Unknown,
}

impl Intergrations {
    /// The integration a name selects (the name is taken as it is).
    pub open spec fn spec_from_name(s: Seq<char>) -> Intergrations {
        if s == "minecraft"@ {
            Intergrations::Minecraft
        } else {
            Intergrations::Unknown
        }
    }

    /// Reads an integration name; names other than `minecraft` give
    /// `Unknown`, and the reading never fails.
    pub fn from_str(s: &str) -> (r: Result<Intergrations, ()>)
        ensures
            r == Ok::<Intergrations, ()>(Self::spec_from_name(s@)),
    {
        if str_eq(s, "minecraft") {
            Ok(Intergrations::Minecraft)
        } else {
            Ok(Intergrations::Unknown)
        }
    }

    /// The name an integration shows.
    pub open spec fn spec_name(self) -> Seq<char> {
        match self {
            Intergrations::Minecraft => "minecraft"@,
            _ => "unknown"@,
        }
    }

    /// The name this integration shows: `minecraft`, or `unknown` for the
    /// others.
    pub fn to_string(&self) -> (r: String)
        ensures
            r@ == self.spec_name(),
    {
        match self {
            Intergrations::Minecraft => String::from_str("minecraft"),
            _ => String::from_str("unknown"),
        }
    }
}

impl Default for Intergrations {
    fn default() -> (r: Intergrations)
        ensures
            r == Intergrations::Unknown,
    {
        Intergrations::Unknown
    }
}

/// A permission as `perm:scope`, such as `admin:all`.
#[derive(Debug, Clone, PartialEq)]
pub struct UserPerm {
    pub perm: String,
    pub scope: String,
}

impl UserPerm {
    /// The parts of `s` around its first `:`, or `None` when it has none.
    pub open spec fn spec_parse(s: Seq<char>) -> Option<(Seq<char>, Seq<char>)> {
        match first_occurrence(s, ":"@) {
            Some(i) => Some((s.subrange(0, i), s.subrange(i + 1, s.len() as int))),
            None => None,
        }
    }

    /// The error text for a permission without a `:`.
    pub open spec fn spec_parse_error(s: Seq<char>) -> Seq<char> {
        "invalid perm format, expected 'perm:scope', got '"@ + s + "'"@
    }

    /// Reads `perm:scope`, splitting at the first `:`; the scope may hold
    /// further colons. Text without a colon is refused with a message that
    /// quotes it.
    pub fn from_str(s: &str) -> (r: Result<UserPerm, String>)
        ensures
            match Self::spec_parse(s@) {
                Some((perm, scope)) => r matches Ok(p) && p.perm@ == perm && p.scope@ == scope,
                None => r matches Err(e) && e@ == Self::spec_parse_error(s@),
            },
    {
        proof {
            reveal_strlit(":");
            lemma_find_from(s@, ":"@, 0);
        }
        match find(s, ":") {
            Some(i) => {
                let n = s.unicode_len();
                let perm = s.substring_char(0, i);
                let scope = s.substring_char(i + 1, n);
                Ok(UserPerm { perm: String::from_str(perm), scope: String::from_str(scope) })
            },
            None => {
                let head = concat("invalid perm format, expected 'perm:scope', got '", s);
                Err(concat(head.as_str(), "'"))
            },
        }
    }

    /// The text this permission shows: `perm:scope`.
    pub fn to_string(&self) -> (r: String)
        ensures
            r@ == self.perm@ + ":"@ + self.scope@,
    {
        let head = concat(self.perm.as_str(), ":");
        concat(head.as_str(), self.scope.as_str())
    }
}


/// A user of the panel.
#[derive(Clone, Debug)]
pub struct User {
    pub username: String,
    pub password_hash: Option<String>,
    pub user_perms: Vec<UserPerm>,
}

/// The values given on the command line for a new user.
#[derive(Debug)]
pub struct UserArgs {
    pub username: Option<String>,
    pub password: Option<String>,
    pub user_perms: Option<Vec<UserPerm>>,
}

impl UserArgs {
    /// The user these values describe: a missing name is empty, a missing
    /// permission list is empty, and the password is kept as given.
    pub fn into_user(self) -> (r: User)
        ensures
            r.username@ == or_empty(self.username),
            self.username matches Some(u) ==> r.username == u,
            r.password_hash == self.password,
            r.user_perms@ == match self.user_perms {
                Some(perms) => perms@,
                None => Seq::empty(),
            },
    {
        let user_perms = match self.user_perms {
            Some(perms) => perms,
            None => Vec::new(),
        };
        User {
            username: string_or_empty(self.username),
            password_hash: self.password,
            user_perms,
        }
    }
}

/// A machine that hosts game servers.
#[derive(Clone, Debug, PartialEq)]
pub struct Node {
    pub nodename: String,
    pub ip: String,
    pub nodestatus: NodeStatus,
    pub nodetype: NodeType,
    pub k8s_type: K8sType,
}

impl Node {
    /// The node `Node::default` gives.
    pub open spec fn is_default(self) -> bool {
        &&& self.nodename@ == Seq::<char>::empty()
        &&& self.ip@ == Seq::<char>::empty()
        &&& self.nodestatus == NodeStatus::Unknown
        &&& self.nodetype == NodeType::Unknown
        &&& self.k8s_type == K8sType::NoK8sType
    }
}

impl Default for Node {
    fn default() -> (r: Node)
        ensures
            r.is_default(),
    {
        Node {
            nodename: String::new(),
            ip: String::new(),
            nodestatus: NodeStatus::Unknown,
            nodetype: NodeType::Unknown,
            k8s_type: K8sType::NoK8sType,
        }
    }
}

/// The values given on the command line for a new node.
#[derive(Debug)]
pub struct NodeArgs {
    pub nodename: Option<String>,
    pub ip: Option<String>,
    pub nodestatus: Option<NodeStatus>,
    pub nodetype: Option<NodeType>,
    pub k8s_type: Option<K8sType>,
}

impl NodeArgs {
    /// The node these values describe; each missing value takes its
    /// default (empty strings, `Unknown` status and type, no Kubernetes
    /// type).
    pub fn into_node(self) -> (r: Node)
        ensures
            r.nodename@ == or_empty(self.nodename),
            self.nodename matches Some(n) ==> r.nodename == n,
            r.ip@ == or_empty(self.ip),
            self.ip matches Some(i) ==> r.ip == i,
            r.nodestatus == or_default(self.nodestatus, NodeStatus::Unknown),
            r.nodetype == or_default(self.nodetype, NodeType::Unknown),
            r.k8s_type == or_default(self.k8s_type, K8sType::NoK8sType),
    {
        Node {
            nodename: string_or_empty(self.nodename),
            ip: string_or_empty(self.ip),
            nodestatus: match self.nodestatus {
                Some(s) => s,
                None => NodeStatus::default(),
            },
            nodetype: match self.nodetype {
                Some(t) => t,
                None => NodeType::default(),
            },
            k8s_type: match self.k8s_type {
                Some(k) => k,
                None => K8sType::default(),
            },
        }
    }
}

/// A link shown on the panel's home page.
#[derive(Clone, Debug, PartialEq)]
pub struct Button {
    pub name: String,
    pub link: String,
    pub button_type: String,
}

/// The values given on the command line for a new button.
#[derive(Debug)]
pub struct ButtonArgs {
    pub name: Option<String>,
    pub link: Option<String>,
    pub button_type: Option<String>,
}

impl ButtonArgs {
    /// The button these values describe; missing values are empty.
    pub fn into_button(self) -> (r: Button)
        ensures
            r.name@ == or_empty(self.name),
            self.name matches Some(n) ==> r.name == n,
            r.link@ == or_empty(self.link),
            self.link matches Some(l) ==> r.link == l,
            r.button_type@ == or_empty(self.button_type),
            self.button_type matches Some(t) ==> r.button_type == t,
    {
        Button {
            name: string_or_empty(self.name),
            link: string_or_empty(self.link),
            button_type: string_or_empty(self.button_type),
        }
    }
}

/// An integration with a game, with its settings as the text of a JSON
/// document.
#[derive(Clone, Debug, PartialEq)]
pub struct Intergration {
    pub status: String,
    pub intergration_type: Intergrations,
    pub settings: String,
}

/// The values given on the command line for a new integration; `settings`
/// is meant to be a JSON document.
#[derive(Debug)]
pub struct IntergrationArgs {
    pub status: Option<String>,
    pub intergration_type: Option<String>,
    pub settings: Option<String>,
}

impl IntergrationArgs {
    /// The integration these values describe: a missing status is empty, a
    /// missing type is `Unknown`, and settings that are missing or are not
    /// JSON become the JSON document `null`.
    pub fn into_intergration(self) -> (r: Intergration)
        ensures
            r.status@ == or_empty(self.status),
            r.intergration_type == match self.intergration_type {
                Some(t) => Intergrations::spec_from_name(t@),
                None => Intergrations::Unknown,
            },
            r.settings@ == match self.settings {
                Some(s) => if json_parses(s@) {
                    s@
                } else {
                    "null"@
                },
                None => "null"@,
            },
    {
        let intergration_type = match self.intergration_type {
            Some(t) => match Intergrations::from_str(t.as_str()) {
                Ok(i) => i,
                Err(_) => Intergrations::default(),
            },
            None => Intergrations::default(),
        };
        let settings = match self.settings {
            Some(s) => if json_is_valid(s.as_str()) {
                s
            } else {
                String::from_str("null")
            },
            None => String::from_str("null"),
        };
        Intergration { status: string_or_empty(self.status), intergration_type, settings }
    }
}

/// The words that mark a server as started or stopped in its output.
#[derive(Clone, Debug, PartialEq)]
pub struct ServerMetadata {
    pub start_keyword: Option<String>,
    pub stop_keyword: Option<String>,
}

impl Default for ServerMetadata {
    fn default() -> (r: ServerMetadata)
        ensures
            r.start_keyword is None,
            r.stop_keyword is None,
    {
        ServerMetadata { start_keyword: None, stop_keyword: None }
    }
}

/// The values given on the command line for server metadata.
#[derive(Debug)]
pub struct ServerMetadataArgs {
    pub start_keyword: Option<String>,
    pub stop_keyword: Option<String>,
}

impl ServerMetadataArgs {
    /// The metadata these values describe, keeping both keywords as given.
    pub fn into_server_metadata(self) -> (r: ServerMetadata)
        ensures
            r.start_keyword == self.start_keyword,
            r.stop_keyword == self.stop_keyword,
    {
        ServerMetadata { start_keyword: self.start_keyword, stop_keyword: self.stop_keyword }
    }
}

/// A game server the panel manages.
#[derive(Clone, Debug, PartialEq)]
pub struct Server {
    pub servername: String,
    pub provider: String,
    pub providertype: String,
    pub location: String,
    pub node: Node,
    pub sandbox: bool,
    pub server_metadata: ServerMetadata,
}

impl Server {
    /// The server `Server::default` gives.
    pub open spec fn is_default(self) -> bool {
        &&& self.servername@ == Seq::<char>::empty()
        &&& self.provider@ == Seq::<char>::empty()
        &&& self.providertype@ == Seq::<char>::empty()
        &&& self.location@ == Seq::<char>::empty()
        &&& self.node.is_default()
        &&& !self.sandbox
        &&& self.server_metadata.start_keyword is None
        &&& self.server_metadata.stop_keyword is None
    }
}

impl Default for Server {
    fn default() -> (r: Server)
        ensures
            r.is_default(),
    {
        Server {
            servername: String::new(),
            provider: String::new(),
            providertype: String::new(),
            location: String::new(),
            node: Node::default(),
            sandbox: false,
            server_metadata: ServerMetadata::default(),
        }
    }
}

/// The values given on the command line for a new server; `node` and
/// `server_metadata` are meant to be JSON documents.
#[derive(Debug)]
pub struct ServerArgs {
    pub servername: Option<String>,
    pub provider: Option<String>,
    pub providertype: Option<String>,
    pub location: Option<String>,
    pub node: Option<String>,
    pub sandbox: Option<bool>,
    pub server_metadata: Option<String>,
}

impl ServerArgs {
    /// The server these values describe. `parsed_node` and
    /// `parsed_metadata` are what the JSON documents in `self.node` and
    /// `self.server_metadata` hold, `None` where a document is missing or
    /// does not describe one; those and the other missing values take
    /// their defaults.
    pub fn into_server(self, parsed_node: Option<Node>, parsed_metadata: Option<ServerMetadata>) -> (r: Server)
        ensures
            r.servername@ == or_empty(self.servername),
            self.servername matches Some(v) ==> r.servername == v,
            r.provider@ == or_empty(self.provider),
            self.provider matches Some(v) ==> r.provider == v,
            r.providertype@ == or_empty(self.providertype),
            self.providertype matches Some(v) ==> r.providertype == v,
            r.location@ == or_empty(self.location),
            self.location matches Some(v) ==> r.location == v,
            match parsed_node {
                Some(n) => r.node == n,
                None => r.node.is_default(),
            },
            r.sandbox == or_default(self.sandbox, false),
            match parsed_metadata {
                Some(m) => r.server_metadata == m,
                None => r.server_metadata.start_keyword is None && r.server_metadata.stop_keyword is None,
            },
    {
        Server {
            servername: string_or_empty(self.servername),
            provider: string_or_empty(self.provider),
            providertype: string_or_empty(self.providertype),
            location: string_or_empty(self.location),
            node: match parsed_node {
                Some(n) => n,
                None => Node::default(),
            },
            sandbox: match self.sandbox {
                Some(b) => b,
                None => false,
            },
            server_metadata: match parsed_metadata {
                Some(m) => m,
                None => ServerMetadata::default(),
            },
        }
    }
}


/// The panel's settings.
#[derive(Debug, Clone)]
pub struct Settings {
    pub toggled_default_buttons: bool,
    pub status_type: String,
    pub enabled_rcon: bool,
    pub rcon_url: String,
    pub rcon_password: String,
    pub filter: Filters,
    pub file_system_driver: FileSystemDrivers,
    pub enable_statistics_on_home_page: bool,
    pub enable_nodes_on_home_page: bool,
    pub console_entry_on_top: bool,
    pub current_server: Server,
}

impl Default for Settings {
    fn default() -> (r: Settings)
        ensures
            !r.toggled_default_buttons,
            r.status_type@ == Seq::<char>::empty(),
            !r.enabled_rcon,
            r.rcon_url@ == Seq::<char>::empty(),
            r.rcon_password@ == Seq::<char>::empty(),
            r.filter == Filters::NoFilter,
            r.file_system_driver == FileSystemDrivers::NoDriver,
            !r.enable_statistics_on_home_page,
            !r.enable_nodes_on_home_page,
            !r.console_entry_on_top,
            r.current_server.is_default(),
    {
        Settings {
            toggled_default_buttons: false,
            status_type: String::new(),
            enabled_rcon: false,
            rcon_url: String::new(),
            rcon_password: String::new(),
            filter: Filters::default(),
            file_system_driver: FileSystemDrivers::default(),
            enable_statistics_on_home_page: false,
            enable_nodes_on_home_page: false,
            console_entry_on_top: false,
            current_server: Server::default(),
        }
    }
}

/// The values given on the command line for the panel's settings;
/// `current_server` is meant to be a JSON document.
#[derive(Debug)]
pub struct SettingsArgs {
    pub toggled_default_buttons: Option<bool>,
    pub status_type: Option<String>,
    pub enabled_rcon: Option<bool>,
    pub rcon_url: Option<String>,
    pub rcon_password: Option<String>,
    pub filter: Option<Filters>,
    pub file_system_driver: Option<FileSystemDrivers>,
    pub enable_statistics_on_home_page: Option<bool>,
    pub enable_nodes_on_home_page: Option<bool>,
    pub console_entry_on_top: Option<bool>,
    pub current_server: Option<String>,
}

impl SettingsArgs {
    /// The settings that result from laying these values over `other`:
    /// every value given wins, every value left out keeps `other`'s. The
    /// server comes from `parsed_server`, the server that the JSON document
    /// in `self.current_server` describes.
    pub open spec fn spec_merge(self, other: Settings, parsed_server: Option<Server>) -> Settings {
        Settings {
            toggled_default_buttons: or_default(self.toggled_default_buttons, other.toggled_default_buttons),
            status_type: or_default(self.status_type, other.status_type),
            enabled_rcon: or_default(self.enabled_rcon, other.enabled_rcon),
            rcon_url: or_default(self.rcon_url, other.rcon_url),
            rcon_password: or_default(self.rcon_password, other.rcon_password),
            filter: or_default(self.filter, other.filter),
            file_system_driver: or_default(self.file_system_driver, other.file_system_driver),
            enable_statistics_on_home_page: or_default(
                self.enable_statistics_on_home_page,
                other.enable_statistics_on_home_page,
            ),
            enable_nodes_on_home_page: or_default(self.enable_nodes_on_home_page, other.enable_nodes_on_home_page),
            console_entry_on_top: or_default(self.console_entry_on_top, other.console_entry_on_top),
            current_server: or_default(parsed_server, other.current_server),
        }
    }

    /// The settings these values describe on their own. Values left out
    /// take these defaults: no default buttons, an empty status type, RCON
    /// enabled at `localhost:25575` with password `testing`, no filter, no
    /// file-system driver, nothing extra on the home page, the console entry
    /// on top. The server is `parsed_server`, the server that the JSON
    /// document in `self.current_server` describes, or the default server.
    pub fn into_settings(self, parsed_server: Option<Server>) -> (r: Settings)
        ensures
            r.toggled_default_buttons == or_default(self.toggled_default_buttons, false),
            r.status_type@ == or_empty(self.status_type),
            self.status_type matches Some(v) ==> r.status_type == v,
            r.enabled_rcon == or_default(self.enabled_rcon, true),
            r.rcon_url@ == match self.rcon_url {
                Some(v) => v@,
                None => "localhost:25575"@,
            },
            self.rcon_url matches Some(v) ==> r.rcon_url == v,
            r.rcon_password@ == match self.rcon_password {
                Some(v) => v@,
                None => "testing"@,
            },
            self.rcon_password matches Some(v) ==> r.rcon_password == v,
            r.filter == or_default(self.filter, Filters::NoFilter),
            r.file_system_driver == or_default(self.file_system_driver, FileSystemDrivers::NoDriver),
            r.enable_statistics_on_home_page == or_default(self.enable_statistics_on_home_page, false),
            r.enable_nodes_on_home_page == or_default(self.enable_nodes_on_home_page, false),
            r.console_entry_on_top == or_default(self.console_entry_on_top, true),
            match parsed_server {
                Some(server) => r.current_server == server,
                None => r.current_server.is_default(),
            },
    {
        Settings {
            toggled_default_buttons: match self.toggled_default_buttons {
                Some(b) => b,
                None => false,
            },
            status_type: string_or_empty(self.status_type),
            enabled_rcon: match self.enabled_rcon {
                Some(b) => b,
                None => true,
            },
            rcon_url: match self.rcon_url {
                Some(v) => v,
                None => String::from_str("localhost:25575"),
            },
            rcon_password: match self.rcon_password {
                Some(v) => v,
                None => String::from_str("testing"),
            },
            filter: match self.filter {
                Some(f) => f,
                None => Filters::default(),
            },
            file_system_driver: match self.file_system_driver {
                Some(d) => d,
                None => FileSystemDrivers::default(),
            },
            enable_statistics_on_home_page: match self.enable_statistics_on_home_page {
                Some(b) => b,
                None => false,
            },
            enable_nodes_on_home_page: match self.enable_nodes_on_home_page {
                Some(b) => b,
                None => false,
            },
            console_entry_on_top: match self.console_entry_on_top {
                Some(b) => b,
                None => true,
            },
            current_server: match parsed_server {
                Some(server) => server,
                None => Server::default(),
            },
        }
    }

    /// Lays these values over the settings `other` (see `spec_merge`).
    pub fn merge(self, other: Settings, parsed_server: Option<Server>) -> (r: Settings)
        ensures
            r == self.spec_merge(other, parsed_server),
            self.toggled_default_buttons matches Some(v) ==> r.toggled_default_buttons == v,
            self.toggled_default_buttons is None ==> r.toggled_default_buttons == other.toggled_default_buttons,
            self.status_type matches Some(v) ==> r.status_type == v,
            self.status_type is None ==> r.status_type == other.status_type,
            self.enabled_rcon matches Some(v) ==> r.enabled_rcon == v,
            self.enabled_rcon is None ==> r.enabled_rcon == other.enabled_rcon,
            self.rcon_url matches Some(v) ==> r.rcon_url == v,
            self.rcon_url is None ==> r.rcon_url == other.rcon_url,
            self.rcon_password matches Some(v) ==> r.rcon_password == v,
            self.rcon_password is None ==> r.rcon_password == other.rcon_password,
            self.filter matches Some(v) ==> r.filter == v,
            self.filter is None ==> r.filter == other.filter,
            self.file_system_driver matches Some(v) ==> r.file_system_driver == v,
            self.file_system_driver is None ==> r.file_system_driver == other.file_system_driver,
            self.enable_statistics_on_home_page matches Some(v) ==> r.enable_statistics_on_home_page == v,
            self.enable_statistics_on_home_page is None ==> r.enable_statistics_on_home_page == other.enable_statistics_on_home_page,
            self.enable_nodes_on_home_page matches Some(v) ==> r.enable_nodes_on_home_page == v,
            self.enable_nodes_on_home_page is None ==> r.enable_nodes_on_home_page == other.enable_nodes_on_home_page,
            self.console_entry_on_top matches Some(v) ==> r.console_entry_on_top == v,
            self.console_entry_on_top is None ==> r.console_entry_on_top == other.console_entry_on_top,
            parsed_server matches Some(server) ==> r.current_server == server,
            parsed_server is None ==> r.current_server == other.current_server,
    {
        Settings {
            toggled_default_buttons: self.toggled_default_buttons.unwrap_or(other.toggled_default_buttons),
            status_type: self.status_type.unwrap_or(other.status_type),
            enabled_rcon: self.enabled_rcon.unwrap_or(other.enabled_rcon),
            rcon_url: self.rcon_url.unwrap_or(other.rcon_url),
            rcon_password: self.rcon_password.unwrap_or(other.rcon_password),
            filter: self.filter.unwrap_or(other.filter),
            file_system_driver: self.file_system_driver.unwrap_or(other.file_system_driver),
            enable_statistics_on_home_page: self.enable_statistics_on_home_page.unwrap_or(other.enable_statistics_on_home_page),
            enable_nodes_on_home_page: self.enable_nodes_on_home_page.unwrap_or(other.enable_nodes_on_home_page),
            console_entry_on_top: self.console_entry_on_top.unwrap_or(other.console_entry_on_top),
            current_server: parsed_server.unwrap_or(other.current_server),
        }
    }
}

/// A request for one element, named by `element`.
#[derive(Debug, Clone)]
pub struct RetrieveElement {
    pub element: String,
}

/// Any of the objects the panel stores, as it is sent to the panel.
#[derive(Debug, Clone)]
pub enum Element {
    User { password: String, user: String, user_perms: Vec<UserPerm> },
    Node(Node),
    Button(Button),
    Server(Server),
    Intergration(Intergration),
    String(String),
}

/// A request to add or change an element.
#[derive(Debug, Clone)]
pub struct ModifyElementData {
    pub element: Element,
    pub jwt: String,
    pub require_auth: bool,
}

impl Element {
    /// The element that asks the panel to create `user`: its name, its
    /// password (empty when it has none) and its permissions.
    pub fn from_user(user: User) -> (r: Element)
        ensures
            r matches Element::User { password, user: name, user_perms } && name == user.username
                && password@ == or_empty(user.password_hash) && user_perms == user.user_perms,
    {
        Element::User {
            password: string_or_empty(user.password_hash),
            user: user.username,
            user_perms: user.user_perms,
        }
    }
}

impl ModifyElementData {
    /// The request that carries `element`, with an empty token and no
    /// authorisation required, as the client sends every element.
    pub fn for_element(element: Element) -> (r: ModifyElementData)
        ensures
            r.element == element,
            r.jwt@ == Seq::<char>::empty(),
            !r.require_auth,
    {
        ModifyElementData { element, jwt: String::new(), require_auth: false }
    }
}

impl Settings {
    /// These settings with the status taken from the server process, as the
    /// client sets them before scheduling a preset server; nothing else
    /// changes.
    pub fn for_server_process(self) -> (r: Settings)
        ensures
            r.status_type@ == "server-process"@,
            r == (Settings { status_type: r.status_type, ..self }),
    {
        Settings { status_type: String::from_str("server-process"), ..self }
    }
}

/// The server the client creates for a preset: named `servername`, kept in
/// `location`, with the `custom` provider, an empty provider type, no
/// sandbox, and the default node and metadata.
pub fn preset_server(servername: String, location: String) -> (r: Server)
    ensures
        r.servername == servername,
        r.location == location,
        r.provider@ == "custom"@,
        r.providertype@ == Seq::<char>::empty(),
        !r.sandbox,
        r.node.is_default(),
        r.server_metadata.start_keyword is None,
        r.server_metadata.stop_keyword is None,
{
    Server {
        servername,
        provider: String::from_str("custom"),
        providertype: String::new(),
        location,
        node: Node::default(),
        sandbox: false,
        server_metadata: ServerMetadata::default(),
    }
}

/// A node type read from a name shows that name again: `to_string` undoes
/// `from` for every name.
pub proof fn lemma_node_type_name_of_from(s: String)
    ensures
        NodeType::spec_name(NodeType::from_spec(s)@) == s@,
{
}

/// Reading the name a node type shows gives that node type back, for the
/// named types and for custom types whose name is not reserved.
pub proof fn lemma_node_type_from_name(t: NodeType, s: String)
    requires
        s@ == NodeType::spec_name(t@),
        match t {
            NodeType::Custom | NodeType::Inbuilt | NodeType::Main => true,
            NodeType::CustomWithString(x) => !NodeType::is_reserved_name(x@),
            _ => false,
        },
    ensures
        NodeType::from_spec(s)@ == t@,
{
    reveal_strlit("custom");
    reveal_strlit("inbuilt");
    reveal_strlit("main");
    assert("inbuilt"@.len() != "custom"@.len());
    assert("main"@.len() != "custom"@.len());
    assert("main"@.len() != "inbuilt"@.len());
}

/// Reading the name an integration shows gives that integration back, for
/// every integration but `Other` (which shows as `unknown`).
pub proof fn lemma_intergration_name_roundtrip(i: Intergrations)
    requires
        i != Intergrations::Other,
    ensures
        Intergrations::spec_from_name(i.spec_name()) == i,
{
    reveal_strlit("minecraft");
    reveal_strlit("unknown");
    assert("unknown"@.len() != "minecraft"@.len());
}

/// Reading `perm:scope` gives back `perm` and `scope` when `perm` holds no
/// colon.
pub proof fn lemma_user_perm_parse_of_display(perm: Seq<char>, scope: Seq<char>)
    requires
        !perm.contains(':'),
    ensures
        UserPerm::spec_parse(perm + ":"@ + scope) == Some((perm, scope)),
{
    reveal_strlit(":");
    let s = perm + ":"@ + scope;
    let n = perm.len() as int;
    assert forall|j: int| 0 <= j < n implies !occurs_at(s, ":"@, j) by {
        if occurs_at(s, ":"@, j) {
            assert(s.subrange(j, j + 1)[0] == s[j]);
            assert(s[j] == perm[j]);
        }
    }
    assert(occurs_at(s, ":"@, n)) by {
        assert(s.subrange(n, n + 1) =~= ":"@);
    }
    lemma_find_first_at(s, ":"@, 0, n);
    assert(s.subrange(0, n) =~= perm);
    assert(s.subrange(n + 1, s.len() as int) =~= scope);
}

/// Showing what was read from a text with a colon gives that text back.
pub proof fn lemma_user_perm_display_of_parse(s: Seq<char>)
    requires
        UserPerm::spec_parse(s) is Some,
    ensures
        ({
            let (perm, scope) = UserPerm::spec_parse(s)->0;
            perm + ":"@ + scope == s
        }),
{
    reveal_strlit(":");
    lemma_find_from(s, ":"@, 0);
    let i = first_occurrence(s, ":"@)->0;
    assert(s.subrange(i, i + 1) =~= ":"@);
    assert(s.subrange(i, i + 1)[0] == s[i]);
    assert(s[i] == ':');
    assert(s.subrange(0, i) + ":"@ + s.subrange(i + 1, s.len() as int) =~= s);
}

/// Every value given on the command line wins over the current setting,
/// and every value left out keeps the current one; the server is the one
/// the given JSON document describes, when it describes one.
pub proof fn lemma_settings_given_values_win(args: SettingsArgs, other: Settings, parsed_server: Option<Server>)
    ensures
        args.toggled_default_buttons matches Some(v) ==> args.spec_merge(other, parsed_server).toggled_default_buttons == v,
        args.toggled_default_buttons is None ==> args.spec_merge(other, parsed_server).toggled_default_buttons == other.toggled_default_buttons,
        args.status_type matches Some(v) ==> args.spec_merge(other, parsed_server).status_type == v,
        args.status_type is None ==> args.spec_merge(other, parsed_server).status_type == other.status_type,
        args.enabled_rcon matches Some(v) ==> args.spec_merge(other, parsed_server).enabled_rcon == v,
        args.enabled_rcon is None ==> args.spec_merge(other, parsed_server).enabled_rcon == other.enabled_rcon,
        args.rcon_url matches Some(v) ==> args.spec_merge(other, parsed_server).rcon_url == v,
        args.rcon_url is None ==> args.spec_merge(other, parsed_server).rcon_url == other.rcon_url,
        args.rcon_password matches Some(v) ==> args.spec_merge(other, parsed_server).rcon_password == v,
        args.rcon_password is None ==> args.spec_merge(other, parsed_server).rcon_password == other.rcon_password,
        args.filter matches Some(v) ==> args.spec_merge(other, parsed_server).filter == v,
        args.filter is None ==> args.spec_merge(other, parsed_server).filter == other.filter,
        args.file_system_driver matches Some(v) ==> args.spec_merge(other, parsed_server).file_system_driver == v,
        args.file_system_driver is None ==> args.spec_merge(other, parsed_server).file_system_driver == other.file_system_driver,
        args.enable_statistics_on_home_page matches Some(v) ==> args.spec_merge(other, parsed_server).enable_statistics_on_home_page == v,
        args.enable_statistics_on_home_page is None ==> args.spec_merge(other, parsed_server).enable_statistics_on_home_page == other.enable_statistics_on_home_page,
        args.enable_nodes_on_home_page matches Some(v) ==> args.spec_merge(other, parsed_server).enable_nodes_on_home_page == v,
        args.enable_nodes_on_home_page is None ==> args.spec_merge(other, parsed_server).enable_nodes_on_home_page == other.enable_nodes_on_home_page,
        args.console_entry_on_top matches Some(v) ==> args.spec_merge(other, parsed_server).console_entry_on_top == v,
        args.console_entry_on_top is None ==> args.spec_merge(other, parsed_server).console_entry_on_top == other.console_entry_on_top,
        parsed_server matches Some(server) ==> args.spec_merge(other, parsed_server).current_server == server,
        parsed_server is None ==> args.spec_merge(other, parsed_server).current_server == other.current_server,
{
}

/// Laying values that give nothing over settings leaves the settings as
/// they are.
pub proof fn lemma_settings_merge_nothing(args: SettingsArgs, other: Settings)
    requires
        args.toggled_default_buttons is None,
        args.status_type is None,
        args.enabled_rcon is None,
        args.rcon_url is None,
        args.rcon_password is None,
        args.filter is None,
        args.file_system_driver is None,
        args.enable_statistics_on_home_page is None,
        args.enable_nodes_on_home_page is None,
        args.console_entry_on_top is None,
    ensures
        args.spec_merge(other, None) == other,
{
}

/// Laying values over settings twice is laying them once: the values
/// given win both times and the rest stays.
pub proof fn lemma_settings_merge_twice(args: SettingsArgs, other: Settings, parsed_server: Option<Server>)
    ensures
        args.spec_merge(args.spec_merge(other, parsed_server), parsed_server) == args.spec_merge(
            other,
            parsed_server,
        ),
{
}

/// Reading the name a status goes by, as a string or under `kind` in an
/// object, gives that status back.
pub proof fn lemma_node_status_name_roundtrip(status: NodeStatus, name: String)
    requires
        name@ == status.spec_name(),
    ensures
        NodeStatus::spec_from_json_tag(JsonTag::Text(name)) == status,
        NodeStatus::spec_from_json_tag(JsonTag::Object(Some(name))) == status,
{
    reveal_strlit("unknown");
    reveal_strlit("enabled");
    reveal_strlit("disabled");
    reveal_strlit("immutably_enabled");
    reveal_strlit("immutablyenabled");
    reveal_strlit("immutably_disabled");
    reveal_strlit("immutablydisabled");
    lemma_lowercase_of_lower_ascii(name@);
    assert("unknown"@[0] != "enabled"@[0]);
    assert("unknown"@.len() != "disabled"@.len());
    assert("enabled"@.len() != "disabled"@.len());
    assert("immutably_enabled"@[9] != "immutablydisabled"@[9]);
    assert("immutably_disabled"@.len() != "immutably_enabled"@.len());
}

/// Reading the name a named node type goes by, as a string or under `kind`
/// in an object, gives that node type back.
pub proof fn lemma_node_type_name_roundtrip(t: NodeType, name: String)
    requires
        t == NodeType::Custom || t == NodeType::Inbuilt || t == NodeType::Main,
        name@ == NodeType::spec_name(t@),
    ensures
        NodeType::spec_from_json_tag(JsonTag::Text(name)) == t@,
        NodeType::spec_from_json_tag(JsonTag::Object(Some(name))) == t@,
{
    reveal_strlit("custom");
    reveal_strlit("inbuilt");
    reveal_strlit("main");
    lemma_lowercase_of_lower_ascii(name@);
    assert("inbuilt"@.len() != "custom"@.len());
    assert("main"@.len() != "custom"@.len());
    assert("main"@.len() != "inbuilt"@.len());
}

} // verus!
