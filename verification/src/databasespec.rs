//! What the client keeps in its local database file.

use vstd::prelude::*;

use crate::client::CommandSettings;

verus! {

/// The client's local database: how it reaches the panel.
#[derive(Debug)]
pub struct Database {
    pub command_settings: CommandSettings,
}

impl Database {
    /// The database `Database::default` gives: no settings recorded.
    pub open spec fn is_default(self) -> bool {
        self.command_settings.is_empty()
    }
}

impl Default for Database {
    fn default() -> (r: Database)
        ensures
            r.is_default(),
    {
        Database { command_settings: CommandSettings::default() }
    }
}

/// How a local node is reached.
#[derive(Debug, Clone, PartialEq, Eq, Structural)]
pub enum LocalNodeType {
    Local,
}

impl Default for LocalNodeType {
    fn default() -> (r: LocalNodeType)
        ensures
            r == LocalNodeType::Local,
    {
        LocalNodeType::Local
    }
}

/// A node on this machine: its name and the directory that holds its
/// servers.
#[derive(Debug, Clone)]
pub struct LocalNode {
    pub name: String,
    pub node_type: LocalNodeType,
    pub path: String,
}

impl Default for LocalNode {
    fn default() -> (r: LocalNode)
        ensures
            r.name@ == Seq::<char>::empty(),
            r.node_type == LocalNodeType::Local,
            r.path@ == Seq::<char>::empty(),
    {
        LocalNode { name: String::new(), node_type: LocalNodeType::Local, path: String::new() }
    }
}

} // verus!
