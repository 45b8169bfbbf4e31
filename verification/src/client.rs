//! The decisions of the command-line client: its own settings, the local
//! nodes it knows, how it addresses the panel, and how it reads what the
//! panel streams.

use vstd::prelude::*;
use vstd::string::*;

use crate::databasespec::{Database, LocalNode, LocalNodeType};
use crate::json::{json_is_valid, json_parses, json_string_field, json_text_field};
use crate::text::{
    concat, ends_with, find, first_occurrence, lemma_find_first_at, lemma_find_from, lines,
    occurs_at, or_empty, replace_all, spec_lines, spec_replace, spec_trim, spec_trim_start,
    starts_with, str_eq, trim, trim_end_char, trim_end_matches, trim_start,
};
use crate::types::ChangeNodeRequest;

verus! {

/// How the node for a preset server is chosen.
#[derive(Debug, Clone, PartialEq, Eq, Structural)]
pub enum AutoSchedule {
    ByPath,
    Manual,
    ByAvailability,
}

/// The value held by `a`, or else by `b`, as `Option::or` picks it.
pub open spec fn first_some<T>(a: Option<T>, b: Option<T>) -> Option<T> {
    match a {
        Some(x) => Some(x),
        None => b,
    }
}

/// A value read from the environment when it could be read, else the
/// default, as `Option::or` picks it.
pub fn value_or_default<T>(parsed: Option<T>, default: Option<T>) -> (r: Option<T>)
    ensures
        r == first_some(parsed, default),
{
    match parsed {
        Some(v) => Some(v),
        None => default,
    }
}

/// How the client reaches the panel, and what it knows of this machine.
#[derive(Debug, Clone)]
pub struct CommandSettings {
    pub auth_token: Option<String>,
    pub url: Option<String>,
    pub external_process_pid: Option<Vec<String>>,
    pub external_process_systemd: Option<Vec<String>>,
    pub forward_actions_url: Option<String>,
    pub forward_actions: Option<String>,
    pub local_nodes: Option<Vec<String>>,
}

impl CommandSettings {
    /// No setting recorded.
    pub open spec fn is_empty(self) -> bool {
        &&& self.auth_token is None
        &&& self.url is None
        &&& self.external_process_pid is None
        &&& self.external_process_systemd is None
        &&& self.forward_actions_url is None
        &&& self.forward_actions is None
        &&& self.local_nodes is None
    }

    /// `self` laid over `other`: each setting recorded in `self` wins, each
    /// one missing there is taken from `other`.
    pub open spec fn spec_merge(self, other: CommandSettings) -> CommandSettings {
        CommandSettings {
            auth_token: first_some(self.auth_token, other.auth_token),
            url: first_some(self.url, other.url),
            external_process_pid: first_some(self.external_process_pid, other.external_process_pid),
            external_process_systemd: first_some(self.external_process_systemd, other.external_process_systemd),
            forward_actions_url: first_some(self.forward_actions_url, other.forward_actions_url),
            forward_actions: first_some(self.forward_actions, other.forward_actions),
            local_nodes: first_some(self.local_nodes, other.local_nodes),
        }
    }

    /// Lays `self` over `other` (see `spec_merge`).
    pub fn merge(self, other: CommandSettings) -> (r: CommandSettings)
        ensures
            r == self.spec_merge(other),
            self.auth_token is Some ==> r.auth_token == self.auth_token,
            self.auth_token is None ==> r.auth_token == other.auth_token,
            self.url is Some ==> r.url == self.url,
            self.url is None ==> r.url == other.url,
            self.external_process_pid is Some ==> r.external_process_pid == self.external_process_pid,
            self.external_process_pid is None ==> r.external_process_pid == other.external_process_pid,
            self.external_process_systemd is Some ==> r.external_process_systemd == self.external_process_systemd,
            self.external_process_systemd is None ==> r.external_process_systemd == other.external_process_systemd,
            self.forward_actions_url is Some ==> r.forward_actions_url == self.forward_actions_url,
            self.forward_actions_url is None ==> r.forward_actions_url == other.forward_actions_url,
            self.forward_actions is Some ==> r.forward_actions == self.forward_actions,
            self.forward_actions is None ==> r.forward_actions == other.forward_actions,
            self.local_nodes is Some ==> r.local_nodes == self.local_nodes,
            self.local_nodes is None ==> r.local_nodes == other.local_nodes,
    {
        CommandSettings {
            auth_token: match self.auth_token {
                Some(v) => Some(v),
                None => other.auth_token,
            },
            url: match self.url {
                Some(v) => Some(v),
                None => other.url,
            },
            external_process_pid: match self.external_process_pid {
                Some(v) => Some(v),
                None => other.external_process_pid,
            },
            external_process_systemd: match self.external_process_systemd {
                Some(v) => Some(v),
                None => other.external_process_systemd,
            },
            forward_actions_url: match self.forward_actions_url {
                Some(v) => Some(v),
                None => other.forward_actions_url,
            },
            forward_actions: match self.forward_actions {
                Some(v) => Some(v),
                None => other.forward_actions,
            },
            local_nodes: match self.local_nodes {
                Some(v) => Some(v),
                None => other.local_nodes,
            },
        }
    }
}

impl Default for CommandSettings {
    fn default() -> (r: CommandSettings)
        ensures
            r.is_empty(),
    {
        CommandSettings {
            auth_token: None,
            url: None,
            external_process_pid: None,
            external_process_systemd: None,
            forward_actions_url: None,
            forward_actions: None,
            local_nodes: None,
        }
    }
}

/// The node and server named on the command line for `state set`.
#[derive(Debug)]
pub struct StateArgs {
    pub node_id: Option<String>,
    pub server_id: Option<String>,
}

impl StateArgs {
    /// The request to switch to the named node and server, when both are
    /// named.
    pub fn into_change_node_request(self) -> (r: Option<ChangeNodeRequest>)
        ensures
            match (self.node_id, self.server_id) {
                (Some(n), Some(s)) => r matches Some(req) && req.node_id == n && req.server_id == s,
                _ => r is None,
            },
    {
        match (self.node_id, self.server_id) {
            (Some(node_id), Some(server_id)) => Some(ChangeNodeRequest { node_id, server_id }),
            _ => None,
        }
    }
}

/// What the client holds while it runs.
#[derive(Debug)]
pub struct AppState {
    pub db: Database,
}

impl Default for AppState {
    fn default() -> (r: AppState)
        ensures
            r.db.is_default(),
    {
        AppState { db: Database::default() }
    }
}

/// The panel's address with a scheme: kept as it is when it starts with
/// `http://` or `https://`, given `http://` in front otherwise.
pub open spec fn spec_base_url(url: Seq<char>) -> Seq<char> {
    if "http://"@.is_prefix_of(url) || "https://"@.is_prefix_of(url) {
        url
    } else {
        "http://"@ + url
    }
}

/// The address of the panel recorded in the settings (empty when none is),
/// with a scheme.
pub fn base_url(state: &AppState) -> (r: String)
    ensures
        r@ == spec_base_url(or_empty(state.db.command_settings.url)),
{
    let url = match &state.db.command_settings.url {
        Some(u) => u.clone(),
        None => String::new(),
    };
    if starts_with(url.as_str(), "http://") || starts_with(url.as_str(), "https://") {
        url
    } else {
        concat("http://", url.as_str())
    }
}

/// The `Authorization` header for the panel: `Bearer ` and the recorded
/// token (empty when none is).
pub fn auth_header(state: &AppState) -> (r: String)
    ensures
        r@ == "Bearer "@ + or_empty(state.db.command_settings.auth_token),
{
    let token = match &state.db.command_settings.auth_token {
        Some(t) => t.clone(),
        None => String::new(),
    };
    concat("Bearer ", token.as_str())
}

/// The node at index `i` is the first of `nodes` whose directory begins
/// `file`.
pub open spec fn first_node_under(nodes: Seq<LocalNode>, file: Seq<char>, i: int) -> bool {
    &&& 0 <= i < nodes.len()
    &&& nodes[i].path@.is_prefix_of(file)
    &&& forall|j: int| 0 <= j < i ==> !nodes[j].path@.is_prefix_of(file)
}

/// The first node whose directory path begins `file`.
pub fn find_node_for_path<'a>(nodes: &'a [LocalNode], file: &str) -> (r: Option<&'a LocalNode>)
    ensures
        r matches Some(n) ==> exists|i: int| first_node_under(nodes@, file@, i) && *n == nodes@[i],
        r is None ==> forall|i: int| 0 <= i < nodes@.len() ==> !nodes@[i].path@.is_prefix_of(file@),
{
    let mut i: usize = 0;
    while i < nodes.len()
        invariant
            i <= nodes@.len(),
            forall|j: int| 0 <= j < i ==> !nodes@[j].path@.is_prefix_of(file@),
        decreases nodes@.len() - i,
    {
        if starts_with(file, nodes[i].path.as_str()) {
            assert(first_node_under(nodes@, file@, i as int));
            return Some(&nodes[i]);
        }
        i = i + 1;
    }
    None
}

/// Outgoing messages are sent as typed.
pub fn modify_message(msg: String) -> (r: String)
    ensures
        r == msg,
{
    msg
}

/// The marker after which a streamed line carries a JSON document.
pub const JSON_LINE_MARKER: &'static str = "Received JSON here line: ";

/// The part of a streamed line that may hold JSON: what follows the first
/// marker, or the whole line.
pub open spec fn stream_json_part(text: Seq<char>) -> Seq<char> {
    match first_occurrence(text, JSON_LINE_MARKER@) {
        Some(i) => text.skip(i + JSON_LINE_MARKER@.len()),
        None => text,
    }
}

/// What the client shows of a streamed line. A line that is a whole
/// broadcast message shows that message (`full_message`). Otherwise, when
/// its JSON part holds a string under `data`, that string shows, or the
/// string under `data` inside it when it is a JSON document too. Any other
/// line shows as it is, except that, when JSON output is suppressed, a line
/// that is a JSON document, or whose first character after leading white
/// space is `{`, shows as nothing.
pub open spec fn spec_parse_text(text: Seq<char>, no_json: bool, full_message: Option<String>) -> Seq<char> {
    match full_message {
        Some(m) => m@,
        None => match json_text_field(stream_json_part(text), "data"@) {
            Some(data) => match json_text_field(data, "data"@) {
                Some(inner) => inner,
                None => data,
            },
            None => if no_json && (json_parses(text) || "{"@.is_prefix_of(spec_trim_start(text))) {
                Seq::empty()
            } else {
                text
            },
        },
    }
}

/// What the client shows of the streamed line `text` (see
/// `spec_parse_text`); `full_message` is the message field of `text` when
/// the whole line is a broadcast message.
pub fn parse_text(text: String, no_json: bool, full_message: Option<String>) -> (r: String)
    ensures
        r@ == spec_parse_text(text@, no_json, full_message),
        full_message matches Some(m) ==> r@ == m@,
        full_message is None ==> match json_text_field(stream_json_part(text@), "data"@) {
            Some(data) => match json_text_field(data, "data"@) {
                Some(inner) => r@ == inner,
                None => r@ == data,
            },
            None => if no_json {
                r@ == text@ || r@.len() == 0
            } else {
                r@ == text@
            },
        },
{
    if let Some(m) = full_message {
        return m;
    }
    let marker = JSON_LINE_MARKER;
    let n = text.as_str().unicode_len();
    let json_part: &str = match find(text.as_str(), marker) {
        Some(idx) => {
            proof {
                lemma_find_from(text@, marker@, 0);
            }
            text.as_str().substring_char(idx + marker.unicode_len(), n)
        },
        None => text.as_str(),
    };
    assert(json_part@ == stream_json_part(text@));
    if let Some(data) = json_string_field(json_part, "data") {
        if let Some(inner) = json_string_field(data.as_str(), "data") {
            return inner;
        }
        return data;
    }
    if no_json && (json_is_valid(text.as_str()) || starts_with(trim_start(text.as_str()), "{")) {
        return String::new();
    }
    text
}

/// Whether JSON output is suppressed does not change what a line with a
/// string under `data` shows: that string, or the string under `data`
/// inside it when it is a JSON document holding one.
pub proof fn lemma_parse_text_data_ignores_no_json(text: Seq<char>)
    ensures
        match json_text_field(stream_json_part(text), "data"@) {
            Some(data) => {
                &&& spec_parse_text(text, true, None) == spec_parse_text(text, false, None)
                &&& match json_text_field(data, "data"@) {
                    Some(inner) => spec_parse_text(text, true, None) == inner,
                    None => spec_parse_text(text, true, None) == data,
                }
            },
            None => true,
        },
{
}

/// The parts `str::splitn(3, ':')` gives of `e`: cut at its first colon,
/// and the rest cut again at its first colon.
pub open spec fn split3_colon(e: Seq<char>) -> Seq<Seq<char>> {
    match first_occurrence(e, ":"@) {
        None => seq![e],
        Some(i) => {
            let rest = e.skip(i + 1);
            match first_occurrence(rest, ":"@) {
                None => seq![e.take(i), rest],
                Some(j) => seq![e.take(i), rest.take(j), rest.skip(j + 1)],
            }
        },
    }
}

/// A path in which a leading `~/` stands for the home directory `home`.
pub open spec fn spec_expand_home(raw: Seq<char>, home: Seq<char>) -> Seq<char> {
    if "~/"@.is_prefix_of(raw) {
        trim_end_char(home, '/') + "/"@ + raw.skip(2)
    } else {
        raw
    }
}

/// The directory that holds a node's servers: the path itself when it
/// already ends in `/server` or `/server/`, else the path without trailing
/// slashes followed by `/server`.
pub open spec fn spec_server_dir(path: Seq<char>) -> Seq<char> {
    if "/server"@.is_suffix_of(path) || "/server/"@.is_suffix_of(path) {
        path
    } else {
        trim_end_char(path, '/') + "/server"@
    }
}

/// What an entry `name:path` or `name:type:path` of the local-node setting
/// says: the node's name, the type when it is not the known type `local`,
/// and the path with `~/` expanded. An entry without a colon says nothing.
pub open spec fn spec_local_node_entry(e: Seq<char>, home: Seq<char>) -> Option<(Seq<char>, Option<Seq<char>>, Seq<char>)> {
    let parts = split3_colon(e);
    if parts.len() == 2 {
        Some((parts[0], None, spec_expand_home(parts[1], home)))
    } else if parts.len() == 3 {
        Some((
            parts[0],
            if parts[1] == "local"@ {
                None
            } else {
                Some(parts[1])
            },
            spec_expand_home(parts[2], home),
        ))
    } else {
        None
    }
}

/// What the entries `list` say, in order, leaving out those that say
/// nothing.
pub open spec fn spec_local_node_entries(list: Seq<String>, home: Seq<char>) -> Seq<(Seq<char>, Option<Seq<char>>, Seq<char>)>
    decreases list.len(),
{
    if list.len() == 0 {
        Seq::empty()
    } else {
        let prev = spec_local_node_entries(list.drop_last(), home);
        match spec_local_node_entry(list.last()@, home) {
            Some(x) => prev.push(x),
            None => prev,
        }
    }
}

/// The characters of an optional string, kept optional.
pub open spec fn opt_view(o: Option<String>) -> Option<Seq<char>> {
    match o {
        Some(s) => Some(s@),
        None => None,
    }
}

/// A local node as its setting entry describes it, before its path is
/// resolved on disk. `unknown_type` holds a node type other than `local`,
/// which is read as `local`.
#[derive(Debug, Clone)]
pub struct LocalNodeEntry {
    pub name: String,
    pub node_type: LocalNodeType,
    pub unknown_type: Option<String>,
    pub path: String,
}

impl LocalNodeEntry {
    /// The name, the unknown type and the path of this entry.
    pub open spec fn fields(self) -> (Seq<char>, Option<Seq<char>>, Seq<char>) {
        (self.name@, opt_view(self.unknown_type), self.path@)
    }
}

/// `raw` with a leading `~/` replaced by the home directory `home` (without
/// its trailing slashes) and a slash.
pub fn expand_home(raw: &str, home: &str) -> (r: String)
    ensures
        r@ == spec_expand_home(raw@, home@),
{
    proof {
        reveal_strlit("~/");
        reveal_strlit("/");
    }
    if starts_with(raw, "~/") {
        let n = raw.unicode_len();
        let base = concat(trim_end_matches(home, '/'), "/");
        concat(base.as_str(), raw.substring_char(2, n))
    } else {
        String::from_str(raw)
    }
}

/// The directory that holds the servers of a node at `path` (see
/// `spec_server_dir`).
pub fn server_dir(path: &str) -> (r: String)
    ensures
        r@ == spec_server_dir(path@),
{
    if ends_with(path, "/server") || ends_with(path, "/server/") {
        String::from_str(path)
    } else {
        concat(trim_end_matches(path, '/'), "/server")
    }
}

/// Reads one entry of the local-node setting (see
/// `spec_local_node_entry`).
pub fn parse_local_node_entry(entry: &str, home: &str) -> (r: Option<LocalNodeEntry>)
    ensures
        match spec_local_node_entry(entry@, home@) {
            Some(f) => r matches Some(e) && e.fields() == f && e.node_type == LocalNodeType::Local,
            None => r is None,
        },
        r is Some <==> entry@.contains(':'),
        r matches Some(e) ==> e.name@ == split3_colon(entry@)[0],
        r matches Some(e) ==> e.path@ == spec_expand_home(split3_colon(entry@).last(), home@),
{
    proof {
        reveal_strlit(":");
        lemma_find_from(entry@, ":"@, 0);
    }
    let n = entry.unicode_len();
    let i = match find(entry, ":") {
        Some(i) => i,
        None => {
            proof {
                assert forall|k: int| 0 <= k < entry@.len() implies entry@[k] != ':' by {
                    if entry@[k] == ':' {
                        assert(entry@.subrange(k, k + 1) =~= ":"@);
                        assert(occurs_at(entry@, ":"@, k));
                    }
                }
            }
            return None;
        },
    };
    proof {
        assert(entry@.subrange(i as int, i + 1)[0] == entry@[i as int]);
        assert(entry@[i as int] == ':');
    }
    let name = entry.substring_char(0, i);
    let rest = entry.substring_char(i + 1, n);
    assert(rest@ == entry@.skip(i + 1));
    assert(name@ == entry@.take(i as int));
    let m = rest.unicode_len();
    proof {
        lemma_find_from(rest@, ":"@, 0);
    }
    match find(rest, ":") {
        None => Some(
            LocalNodeEntry {
                name: String::from_str(name),
                node_type: LocalNodeType::Local,
                unknown_type: None,
                path: expand_home(rest, home),
            },
        ),
        Some(j) => {
            let node_type = rest.substring_char(0, j);
            let raw_path = rest.substring_char(j + 1, m);
            assert(node_type@ == rest@.take(j as int));
            assert(raw_path@ == rest@.skip(j + 1));
            let unknown_type = if str_eq(node_type, "local") {
                None
            } else {
                Some(String::from_str(node_type))
            };
            Some(
                LocalNodeEntry {
                    name: String::from_str(name),
                    node_type: LocalNodeType::Local,
                    unknown_type,
                    path: expand_home(raw_path, home),
                },
            )
        },
    }
}

/// A colon at `k`, with none before it, is the first colon of `s`.
proof fn lemma_first_colon_at(s: Seq<char>, k: int)
    requires
        0 <= k < s.len(),
        s[k] == ':',
        forall|j: int| 0 <= j < k ==> s[j] != ':',
    ensures
        first_occurrence(s, ":"@) == Some(k),
{
    reveal_strlit(":");
    assert forall|j: int| 0 <= j < k implies !occurs_at(s, ":"@, j) by {
        if occurs_at(s, ":"@, j) {
            assert(s.subrange(j, j + 1)[0] == s[j]);
        }
    }
    assert(s.subrange(k, k + 1) =~= ":"@);
    lemma_find_first_at(s, ":"@, 0, k);
}

/// A text without a colon has no first colon.
proof fn lemma_no_colon(s: Seq<char>)
    requires
        !s.contains(':'),
    ensures
        first_occurrence(s, ":"@) is None,
{
    reveal_strlit(":");
    lemma_find_from(s, ":"@, 0);
    if first_occurrence(s, ":"@) is Some {
        let i = first_occurrence(s, ":"@)->0;
        assert(s.subrange(i, i + 1)[0] == s[i]);
        assert(s[i] == ':');
    }
}

/// Whether an entry names the type `local` or no type at all, it gives the
/// node the same name and the same path; a path that begins with `~/` is
/// read under the home directory `home`, any other path as it is.
pub proof fn lemma_local_node_entry_path(name: Seq<char>, path: Seq<char>, home: Seq<char>)
    requires
        !name.contains(':'),
        !path.contains(':'),
    ensures
        spec_local_node_entry(name + ":"@ + path, home) == spec_local_node_entry(name + ":local:"@ + path, home),
        spec_local_node_entry(name + ":"@ + path, home) == Some((
            name,
            None::<Seq<char>>,
            if "~/"@.is_prefix_of(path) {
                trim_end_char(home, '/') + "/"@ + path.skip(2)
            } else {
                path
            },
        )),
{
    reveal_strlit(":");
    reveal_strlit(":local:");
    reveal_strlit("local:");
    reveal_strlit("local");
    assert(":local:"@ =~= ":"@ + "local:"@);
    assert(name + ":local:"@ + path =~= name + ":"@ + ("local:"@ + path));
    let n = name.len() as int;
    let short = name + ":"@ + path;
    let long = name + ":local:"@ + path;
    assert forall|j: int| 0 <= j < n implies short[j] != ':' && long[j] != ':' by {
        assert(short[j] == name[j]);
        assert(long[j] == name[j]);
    }
    lemma_first_colon_at(short, n);
    lemma_first_colon_at(long, n);
    assert(short.skip(n + 1) =~= path);
    assert(short.take(n) =~= name);
    lemma_no_colon(path);
    let rest = long.skip(n + 1);
    assert(rest =~= "local:"@ + path);
    assert(rest[5] == ':');
    lemma_first_colon_at(rest, 5);
    assert(rest.take(5) =~= "local"@);
    assert(rest.skip(6) =~= path);
    assert(long.take(n) =~= name);
}

impl CommandSettings {
    /// The entries of the local-node setting; none when it is not set.
    pub open spec fn local_node_list(self) -> Seq<String> {
        match self.local_nodes {
            Some(list) => list@,
            None => Seq::empty(),
        }
    }

    /// What the entries of the local-node setting say (see
    /// `spec_local_node_entries`), with `home` as the home directory.
    pub open spec fn spec_local_nodes(self, home: Seq<char>) -> Seq<(Seq<char>, Option<Seq<char>>, Seq<char>)> {
        spec_local_node_entries(self.local_node_list(), home)
    }

    /// The local nodes the setting `local_nodes` describes, in order, with
    /// `home` as the home directory; entries without a colon are left out.
    pub fn local_node_entries(&self, home: &str) -> (r: Vec<LocalNodeEntry>)
        ensures
            r@.map_values(|e: LocalNodeEntry| e.fields()) == self.spec_local_nodes(home@),
            forall|k: int| 0 <= k < r@.len() ==> #[trigger] r@[k].node_type == LocalNodeType::Local,
    {
        let mut r: Vec<LocalNodeEntry> = Vec::new();
        match &self.local_nodes {
            None => {
                assert(r@.map_values(|e: LocalNodeEntry| e.fields()) =~= Seq::empty());
                r
            },
            Some(list) => {
                let mut i: usize = 0;
                assert(list@.take(0) =~= Seq::<String>::empty());
                assert(r@.map_values(|e: LocalNodeEntry| e.fields()) =~= Seq::empty());
                while i < list.len()
                    invariant
                        i <= list@.len(),
                        r@.map_values(|e: LocalNodeEntry| e.fields()) == spec_local_node_entries(
                            list@.take(i as int),
                            home@,
                        ),
                        forall|k: int| 0 <= k < r@.len() ==> #[trigger] r@[k].node_type == LocalNodeType::Local,
                    decreases list@.len() - i,
                {
                    let ghost before = r@;
                    assert(list@.take(i + 1).drop_last() =~= list@.take(i as int));
                    assert(list@.take(i + 1).last() == list@[i as int]);
                    match parse_local_node_entry(list[i].as_str(), home) {
                        Some(e) => {
                            r.push(e);
                            assert(r@.map_values(|e: LocalNodeEntry| e.fields()) =~= before.map_values(
                                |e: LocalNodeEntry| e.fields(),
                            ).push(r@.last().fields()));
                        },
                        None => {},
                    }
                    i = i + 1;
                }
                assert(list@.take(list@.len() as int) =~= list@);
                r
            },
        }
    }

    /// The local nodes the setting describes (see `local_node_entries`).
    /// `resolved[k]` is where the path of the `k`-th of them resolves on
    /// disk; where it is `None` or missing the path is used as written. Each
    /// node's path is then the directory that holds its servers.
    pub fn parsed_local_nodes(&self, home: &str, resolved: &Vec<Option<String>>) -> (r: Vec<LocalNode>)
        ensures
            r@.len() == self.spec_local_nodes(home@).len(),
            forall|k: int|
                0 <= k < r@.len() ==> #[trigger] node_from_entry(
                    r@[k],
                    self.spec_local_nodes(home@)[k],
                    resolved@,
                    k,
                ),
    {
        let entries = self.local_node_entries(home);
        let ghost fields = entries@.map_values(|e: LocalNodeEntry| e.fields());
        let mut r: Vec<LocalNode> = Vec::new();
        let mut k: usize = 0;
        while k < entries.len()
            invariant
                k <= entries@.len(),
                fields == entries@.map_values(|e: LocalNodeEntry| e.fields()),
                r@.len() == k,
                forall|q: int| 0 <= q < k ==> #[trigger] node_from_entry(r@[q], fields[q], resolved@, q),
            decreases entries@.len() - k,
        {
            let entry = &entries[k];
            assert(fields[k as int] == entries@[k as int].fields());
            let ghost before = r@;
            let path = if k < resolved.len() {
                match &resolved[k] {
                    Some(p) => server_dir(p.as_str()),
                    None => server_dir(entry.path.as_str()),
                }
            } else {
                server_dir(entry.path.as_str())
            };
            r.push(LocalNode { name: entry.name.clone(), node_type: LocalNodeType::Local, path });
            assert(node_from_entry(r@[k as int], fields[k as int], resolved@, k as int));
            assert forall|q: int| 0 <= q < k + 1 implies #[trigger] node_from_entry(
                r@[q],
                fields[q],
                resolved@,
                q,
            ) by {
                if q < k {
                    assert(r@[q] == before[q]);
                }
            }
            k = k + 1;
        }
        r
    }
}

/// The path at which the `k`-th local node is found: where `resolved`
/// says it resolves, or else as written.
pub open spec fn resolved_path(resolved: Seq<Option<String>>, k: int, written: Seq<char>) -> Seq<char> {
    if 0 <= k < resolved.len() && resolved[k] is Some {
        resolved[k]->0@
    } else {
        written
    }
}

/// `node` is the local node that the `k`-th entry `entry` describes, its
/// path resolved by `resolved` and turned into the directory that holds its
/// servers.
pub open spec fn node_from_entry(
    node: LocalNode,
    entry: (Seq<char>, Option<Seq<char>>, Seq<char>),
    resolved: Seq<Option<String>>,
    k: int,
) -> bool {
    &&& node.name@ == entry.0
    &&& node.node_type == LocalNodeType::Local
    &&& node.path@ == spec_server_dir(resolved_path(resolved, k, entry.2))
}

/// How the node for a preset server is chosen.
pub const AUTO_SCHEDULE: AutoSchedule = AutoSchedule::ByAvailability;

/// Whether a preset's file must lie inside a local node's directory.
pub const FORCE_LOCATION_IN_SERVER: bool = false;

/// Whether a preset run must name its server.
pub const REQUIRE_SERVER_NAME: bool = false;

/// Whether an unnamed preset server takes the name of the working
/// directory.
pub const USES_CWD_AS_SERVERNAME: bool = true;

/// The address of the panel's `route` (such as `/api/servers`).
pub fn api_url(state: &AppState, route: &str) -> (r: String)
    ensures
        r@ == spec_base_url(or_empty(state.db.command_settings.url)) + route@,
{
    let base = base_url(state);
    concat(base.as_str(), route)
}

/// The web-socket address for the panel at `url`: every `http://` becomes
/// `ws://`, then every `https://` becomes `wss://`, and `/api/ws` follows.
pub open spec fn spec_ws_url(url: Seq<char>) -> Seq<char> {
    spec_replace(spec_replace(url, "http://"@, "ws://"@), "https://"@, "wss://"@) + "/api/ws"@
}

/// The web-socket address for the panel at `url` (see `spec_ws_url`).
pub fn ws_url(url: &str) -> (r: String)
    ensures
        r@ == spec_ws_url(url@),
{
    proof {
        reveal_strlit("http://");
        reveal_strlit("https://");
    }
    let plain = replace_all(url, "http://", "ws://");
    let secure = replace_all(plain.as_str(), "https://", "wss://");
    concat(secure.as_str(), "/api/ws")
}

/// A preset run is refused when it must name its server, has not, and may
/// not take the working directory's name.
pub fn servername_missing(servername: &Option<String>) -> (r: bool)
    ensures
        r == (REQUIRE_SERVER_NAME && servername is None && !USES_CWD_AS_SERVERNAME),
{
    REQUIRE_SERVER_NAME && servername.is_none() && !USES_CWD_AS_SERVERNAME
}

/// The name of a preset server: an unnamed one takes the working
/// directory's name (`cwd_name`) when that is allowed; otherwise the given
/// name, else the name of the directory that holds the preset's file
/// (`file_dir_name`); `server` when the name needed is unknown.
pub fn choose_servername(
    servername: Option<String>,
    cwd_name: Option<String>,
    file_dir_name: Option<String>,
) -> (r: String)
    ensures
        r@ == if USES_CWD_AS_SERVERNAME && servername is None {
            match cwd_name {
                Some(n) => n@,
                None => "server"@,
            }
        } else {
            match servername {
                Some(n) => n@,
                None => match file_dir_name {
                    Some(n) => n@,
                    None => "server"@,
                },
            }
        },
{
    if USES_CWD_AS_SERVERNAME && servername.is_none() {
        match cwd_name {
            Some(n) => n,
            None => String::from_str("server"),
        }
    } else {
        match servername {
            Some(n) => n,
            None => match file_dir_name {
                Some(n) => n,
                None => String::from_str("server"),
            },
        }
    }
}

/// The node at index `i` is the first of `nodes` named `name`.
pub open spec fn first_node_named(nodes: Seq<LocalNode>, name: Seq<char>, i: int) -> bool {
    &&& 0 <= i < nodes.len()
    &&& nodes[i].name@ == name
    &&& forall|j: int| 0 <= j < i ==> nodes[j].name@ != name
}

/// The first node named `name`.
pub fn find_node_by_name<'a>(nodes: &'a [LocalNode], name: &str) -> (r: Option<&'a LocalNode>)
    ensures
        r matches Some(n) ==> exists|i: int| first_node_named(nodes@, name@, i) && *n == nodes@[i],
        r is None ==> forall|i: int| 0 <= i < nodes@.len() ==> nodes@[i].name@ != name@,
{
    let mut i: usize = 0;
    while i < nodes.len()
        invariant
            i <= nodes@.len(),
            forall|j: int| 0 <= j < i ==> nodes@[j].name@ != name@,
        decreases nodes@.len() - i,
    {
        if str_eq(nodes[i].name.as_str(), name) {
            assert(first_node_named(nodes@, name@, i as int));
            return Some(&nodes[i]);
        }
        i = i + 1;
    }
    None
}

/// Whether `file` lies inside the directory of some node.
pub fn file_in_any_node(nodes: &[LocalNode], file: &str) -> (r: bool)
    ensures
        r == exists|i: int| 0 <= i < nodes@.len() && nodes@[i].path@.is_prefix_of(file@),
{
    match find_node_for_path(nodes, file) {
        Some(_) => true,
        None => false,
    }
}

/// A node whose server reports this status can take a new server: it is
/// `down` or `unknown`.
pub fn node_is_available(status: &str) -> (r: bool)
    ensures
        r == (status@ == "down"@ || status@ == "unknown"@),
{
    str_eq(status, "down") || str_eq(status, "unknown")
}

/// The `location` of a preset's provider: the file's name when a file was
/// given, else empty.
pub fn provider_location(file_given: bool, file_name: String) -> (r: String)
    ensures
        r@ == if file_given {
            file_name@
        } else {
            Seq::empty()
        },
{
    if file_given {
        file_name
    } else {
        String::new()
    }
}

/// Whether the panel's server list, given by the name each listed server
/// has (`None` where it has none), holds a server named `servername`.
pub fn servers_contain(listed: &Vec<Option<String>>, servername: &str) -> (r: bool)
    ensures
        r == exists|i: int| 0 <= i < listed@.len() && opt_view(listed@[i]) == Some(servername@),
{
    let mut i: usize = 0;
    while i < listed.len()
        invariant
            i <= listed@.len(),
            forall|j: int| 0 <= j < i ==> opt_view(listed@[j]) != Some(servername@),
        decreases listed@.len() - i,
    {
        match &listed[i] {
            Some(n) => {
                if str_eq(n.as_str(), servername) {
                    return true;
                }
            },
            None => {},
        }
        i = i + 1;
    }
    false
}

/// What asking a node for its server's status gave.
#[derive(Debug)]
pub enum NodeProbe {
    /// The panel could not be switched to the node.
    SwitchFailed,
    /// The node's status events could not be read.
    StatusUnreadable,
    /// The node's server reported this status.
    Status(String),
}

/// What the scheduler of a preset server does next.
#[derive(Debug, PartialEq, Eq, Structural)]
pub enum ScheduleAction {
    /// Ask the node at this index for its server's status.
    Probe(usize),
    /// Place the server on the node at this index.
    Choose(usize),
    /// No node can take the server.
    GiveUp,
}

/// Whether a probe shows a node that can take a new server: its server
/// reported `down` or `unknown`.
pub open spec fn probe_available(probe: NodeProbe) -> bool {
    match probe {
        NodeProbe::Status(s) => s@ == "down"@ || s@ == "unknown"@,
        _ => false,
    }
}

/// The first action of the scheduler over `node_count` nodes: ask the
/// first node, or give up when there is none.
pub fn schedule_start(node_count: usize) -> (r: ScheduleAction)
    ensures
        r == if node_count > 0 {
            ScheduleAction::Probe(0)
        } else {
            ScheduleAction::GiveUp
        },
{
    if node_count > 0 {
        ScheduleAction::Probe(0)
    } else {
        ScheduleAction::GiveUp
    }
}

/// The action that follows asking the node at `index`, of `node_count`
/// nodes in order.
pub open spec fn spec_schedule_next(node_count: int, index: int, probe: NodeProbe) -> ScheduleAction {
    if probe_available(probe) {
        ScheduleAction::Choose(index as usize)
    } else if index + 1 < node_count {
        ScheduleAction::Probe((index + 1) as usize)
    } else {
        ScheduleAction::GiveUp
    }
}

/// What the scheduler does after asking the node at `index`: take it when
/// its server is down or unknown; otherwise, whether the switch failed, the
/// status could not be read or the server is up, ask the next node, and
/// give up after the last.
pub fn schedule_next(node_count: usize, index: usize, probe: &NodeProbe) -> (r: ScheduleAction)
    ensures
        r == spec_schedule_next(node_count as int, index as int, *probe),
        match r {
            ScheduleAction::Probe(j) => j == index + 1 && j < node_count && !probe_available(*probe),
            ScheduleAction::Choose(j) => j == index && probe_available(*probe),
            ScheduleAction::GiveUp => index + 1 >= node_count && !probe_available(*probe),
        },
{
    let available = match probe {
        NodeProbe::Status(status) => node_is_available(status.as_str()),
        _ => false,
    };
    if available {
        ScheduleAction::Choose(index)
    } else if node_count > 0 && index < node_count - 1 {
        ScheduleAction::Probe(index + 1)
    } else {
        ScheduleAction::GiveUp
    }
}

/// After asking one node the scheduler either takes that node, when its
/// server is down or unknown, or asks the node right after it, or, after
/// the last node, gives up: it never goes back to a node it has asked.
pub proof fn lemma_schedule_next_moves_forward(node_count: int, index: int, probe: NodeProbe)
    requires
        0 <= index < node_count <= usize::MAX,
    ensures
        probe_available(probe) ==> spec_schedule_next(node_count, index, probe) == ScheduleAction::Choose(
            index as usize,
        ),
        !probe_available(probe) && index + 1 < node_count ==> spec_schedule_next(node_count, index, probe)
            == ScheduleAction::Probe((index + 1) as usize),
        !probe_available(probe) && index + 1 >= node_count ==> spec_schedule_next(node_count, index, probe)
            == ScheduleAction::GiveUp,
        match spec_schedule_next(node_count, index, probe) {
            ScheduleAction::Probe(j) => j as int == index + 1 && j < node_count,
            ScheduleAction::Choose(j) => j as int == index,
            ScheduleAction::GiveUp => index == node_count - 1,
        },
{
}

/// The first index from `i` on whose probe shows an available node.
pub open spec fn first_available_from(probes: Seq<NodeProbe>, i: int) -> Option<int>
    decreases probes.len() - i,
{
    if i < 0 || i >= probes.len() {
        None
    } else if probe_available(probes[i]) {
        Some(i)
    } else {
        first_available_from(probes, i + 1)
    }
}

/// Where the scheduler ends when it asks the nodes from `i` on and the
/// `k`-th node answers `probes[k]`.
pub open spec fn spec_schedule_from(probes: Seq<NodeProbe>, i: int) -> ScheduleAction
    decreases probes.len() - i,
{
    if i < 0 || i >= probes.len() {
        ScheduleAction::GiveUp
    } else {
        match spec_schedule_next(probes.len() as int, i, probes[i]) {
            ScheduleAction::Probe(j) => if j as int == i + 1 {
                spec_schedule_from(probes, i + 1)
            } else {
                ScheduleAction::GiveUp
            },
            other => other,
        }
    }
}

/// The scheduler places the server on the first node, in order, whose
/// server is down or unknown, and gives up only when there is none.
pub proof fn lemma_schedule_takes_first_available(probes: Seq<NodeProbe>, i: int)
    requires
        0 <= i,
        probes.len() <= usize::MAX,
    ensures
        spec_schedule_from(probes, i) == match first_available_from(probes, i) {
            Some(k) => ScheduleAction::Choose(k as usize),
            None => ScheduleAction::GiveUp,
        },
    decreases probes.len() - i,
{
    if i < probes.len() && !probe_available(probes[i]) && i + 1 < probes.len() {
        assert(((i + 1) as usize) as int == i + 1);
        lemma_schedule_takes_first_available(probes, i + 1);
    } else if i < probes.len() && !probe_available(probes[i]) {
        assert(first_available_from(probes, i + 1) is None);
    }
}

/// What the reader of a server-sent event stream has seen: the status
/// carried by the last `data:` line, and how many such lines came.
#[derive(Debug)]
pub struct StatusEvents {
    pub status: String,
    pub events: u64,
}

/// One more event, counted up to the largest count.
pub open spec fn count_up(events: u64) -> u64 {
    if events < u64::MAX {
        (events + 1) as u64
    } else {
        events
    }
}

/// The status and event count after reading `lines` from the state
/// `(status, events)`, and whether a second event was reached, at which
/// point reading stops.
pub open spec fn spec_read_status_lines(status: Seq<char>, events: u64, lines: Seq<Seq<char>>) -> (Seq<char>, u64, bool)
    decreases lines.len(),
{
    if lines.len() == 0 {
        (status, events, false)
    } else if "data:"@.is_prefix_of(lines[0]) {
        let next_status = spec_trim(lines[0].skip("data:"@.len() as int));
        let next_events = count_up(events);
        if next_events >= 2 {
            (next_status, next_events, true)
        } else {
            spec_read_status_lines(next_status, next_events, lines.skip(1))
        }
    } else {
        spec_read_status_lines(status, events, lines.skip(1))
    }
}

impl StatusEvents {
    /// Nothing seen yet.
    pub fn new() -> (r: StatusEvents)
        ensures
            r.status@ == Seq::<char>::empty(),
            r.events == 0,
    {
        StatusEvents { status: String::new(), events: 0 }
    }

    /// Reads one chunk of the stream line by line: each line that starts
    /// with `data:` is an event whose status is the rest of the line
    /// without surrounding white space. Returns whether a second event has
    /// been seen, so that the first, stale one is passed over; reading
    /// stops there.
    pub fn read_chunk(&mut self, chunk: &str) -> (done: bool)
        ensures
            (final(self).status@, final(self).events, done) == spec_read_status_lines(
                old(self).status@,
                old(self).events,
                spec_lines(chunk@),
            ),
    {
        proof {
            reveal_strlit("data:");
        }
        let all = lines(chunk);
        let ghost views = all@.map_values(|l: String| l@);
        let mut i: usize = 0;
        assert(views.skip(0) =~= views);
        while i < all.len()
            invariant
                i <= all@.len(),
                views == all@.map_values(|l: String| l@),
                views == spec_lines(chunk@),
                spec_read_status_lines(self.status@, self.events, views.skip(i as int))
                    == spec_read_status_lines(old(self).status@, old(self).events, views),
            decreases all@.len() - i,
        {
            let line = all[i].as_str();
            assert(views.skip(i as int)[0] == line@);
            assert(views.skip(i as int).skip(1) =~= views.skip(i + 1));
            if starts_with(line, "data:") {
                proof {
                    reveal_strlit("data:");
                }
                let n = line.unicode_len();
                let status = trim(line.substring_char("data:".unicode_len(), n));
                self.status = String::from_str(status);
                self.events = if self.events < u64::MAX {
                    self.events + 1
                } else {
                    self.events
                };
                if self.events >= 2 {
                    return true;
                }
            }
            i = i + 1;
        }
        false
    }
}

/// What the client shows of streamed messages: empty messages never, and,
/// when duplicates are suppressed, no message right after the same one.
#[derive(Debug)]
pub struct MessageFilter {
    pub no_duplicates: bool,
    pub last_message: Option<String>,
}

impl MessageFilter {
    /// Whether this filter shows `message`: it is not empty and, when
    /// duplicates are suppressed, it is not the last message shown.
    pub open spec fn spec_shown(self, message: Seq<char>) -> bool {
        message.len() > 0 && !(self.no_duplicates && opt_view(self.last_message) == Some(message))
    }

    /// A filter that has shown nothing yet.
    pub fn new(no_duplicates: bool) -> (r: MessageFilter)
        ensures
            r.no_duplicates == no_duplicates,
            r.last_message is None,
    {
        MessageFilter { no_duplicates, last_message: None }
    }

    /// Whether `message` is shown: not when it is empty, nor when
    /// duplicates are suppressed and it repeats the last message shown.
    /// With duplicates suppressed, a shown message becomes the last one.
    pub fn accept(&mut self, message: &String) -> (shown: bool)
        ensures
            shown == old(self).spec_shown(message@),
            final(self).no_duplicates == old(self).no_duplicates,
            final(self).last_message == if shown && old(self).no_duplicates {
                Some(*message)
            } else {
                old(self).last_message
            },
    {
        if message.as_str().unicode_len() == 0 {
            return false;
        }
        if self.no_duplicates {
            let repeated = match &self.last_message {
                Some(last) => *last == *message,
                None => false,
            };
            if repeated {
                return false;
            }
            self.last_message = Some(message.clone());
        }
        true
    }
}

/// What to do with a line typed in an interactive session.
#[derive(Debug, PartialEq)]
pub enum InputAction {
    Skip,
    Quit,
    Send(String),
}

/// What to do with a typed line: nothing for an empty line, end the
/// session on `/quit`, else send it (as `modify_message` leaves it).
pub fn input_action(line: String) -> (r: InputAction)
    ensures
        line@.len() == 0 ==> r == InputAction::Skip,
        line@.len() > 0 && line@ == "/quit"@ ==> r == InputAction::Quit,
        line@.len() > 0 && line@ != "/quit"@ ==> r == InputAction::Send(line),
{
    let modified = modify_message(line);
    if modified.as_str().unicode_len() == 0 {
        InputAction::Skip
    } else if str_eq(modified.as_str(), "/quit") {
        InputAction::Quit
    } else {
        InputAction::Send(modified)
    }
}

/// A setting given wins over the stored one, and a setting left out keeps
/// the stored one.
pub proof fn lemma_command_settings_given_wins(given: CommandSettings, stored: CommandSettings)
    ensures
        given.auth_token is Some ==> given.spec_merge(stored).auth_token == given.auth_token,
        given.auth_token is None ==> given.spec_merge(stored).auth_token == stored.auth_token,
        given.url is Some ==> given.spec_merge(stored).url == given.url,
        given.url is None ==> given.spec_merge(stored).url == stored.url,
        given.external_process_pid is Some ==> given.spec_merge(stored).external_process_pid == given.external_process_pid,
        given.external_process_pid is None ==> given.spec_merge(stored).external_process_pid == stored.external_process_pid,
        given.external_process_systemd is Some ==> given.spec_merge(stored).external_process_systemd == given.external_process_systemd,
        given.external_process_systemd is None ==> given.spec_merge(stored).external_process_systemd == stored.external_process_systemd,
        given.forward_actions_url is Some ==> given.spec_merge(stored).forward_actions_url == given.forward_actions_url,
        given.forward_actions_url is None ==> given.spec_merge(stored).forward_actions_url == stored.forward_actions_url,
        given.forward_actions is Some ==> given.spec_merge(stored).forward_actions == given.forward_actions,
        given.forward_actions is None ==> given.spec_merge(stored).forward_actions == stored.forward_actions,
        given.local_nodes is Some ==> given.spec_merge(stored).local_nodes == given.local_nodes,
        given.local_nodes is None ==> given.spec_merge(stored).local_nodes == stored.local_nodes,
{
}

/// Laying settings that record nothing over others leaves those as they
/// are.
pub proof fn lemma_command_settings_merge_empty_left(empty: CommandSettings, other: CommandSettings)
    requires
        empty.is_empty(),
    ensures
        empty.spec_merge(other) == other,
{
}

/// Laying settings over others that record nothing leaves the first as they
/// are.
pub proof fn lemma_command_settings_merge_empty_right(settings: CommandSettings, empty: CommandSettings)
    requires
        empty.is_empty(),
    ensures
        settings.spec_merge(empty) == settings,
{
}

/// Laying `a` over `b` and the result over `c` is laying `a` over `b`
/// laid over `c`.
pub proof fn lemma_command_settings_merge_associative(a: CommandSettings, b: CommandSettings, c: CommandSettings)
    ensures
        a.spec_merge(b).spec_merge(c) == a.spec_merge(b.spec_merge(c)),
{
}

/// Laying settings over themselves changes nothing.
pub proof fn lemma_command_settings_merge_idempotent(a: CommandSettings)
    ensures
        a.spec_merge(a) == a,
{
}

/// The panel's address always carries a scheme, and giving it a scheme
/// again changes nothing.
pub proof fn lemma_base_url_scheme(url: Seq<char>)
    ensures
        "http://"@.is_prefix_of(spec_base_url(url)) || "https://"@.is_prefix_of(spec_base_url(url)),
        spec_base_url(spec_base_url(url)) == spec_base_url(url),
{
    let p = "http://"@;
    assert((p + url).subrange(0, p.len() as int) =~= p);
}

/// The directory that holds a node's servers ends in `/server` or
/// `/server/`, and taking it again changes nothing.
pub proof fn lemma_server_dir(path: Seq<char>)
    ensures
        "/server"@.is_suffix_of(spec_server_dir(path)) || "/server/"@.is_suffix_of(spec_server_dir(path)),
        spec_server_dir(spec_server_dir(path)) == spec_server_dir(path),
{
    let suffix = "/server"@;
    let base = trim_end_char(path, '/');
    let r = base + suffix;
    assert(r.subrange(r.len() - suffix.len(), r.len() as int) =~= suffix);
}

/// With duplicates suppressed, a message that was just shown is not shown
/// again right after it.
pub proof fn lemma_message_filter_no_repeat(no_duplicates: bool, message: String)
    requires
        no_duplicates,
    ensures
        !(MessageFilter { no_duplicates, last_message: Some(message) }).spec_shown(message@),
{
}

} // verus!
