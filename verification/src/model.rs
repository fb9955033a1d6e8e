//! Data carried through one poll cycle: the configuration, the shapes of the
//! remote server list, the monitor target, and the error taxonomy.

use vstd::prelude::*;

verus! {

/// Configuration of the monitor: publisher token, which server to watch
/// (by name or by id), and which game title's endpoint to poll.
pub struct Static {
    pub token: String,
    pub server_name: Option<String>,
    pub server_id: Option<i64>,
    pub game: Option<String>,
}

impl Default for Static {
    /// The default configuration: empty token, no server configured,
    /// and the base game title.
    fn default() -> (r: Self)
        ensures
            r.token@ == Seq::<char>::empty(),
            r.server_name is None,
            r.server_id is None,
            r.game matches Some(g) && g@ == "bf1"@,
    {
        Static {
            token: String::new(),
            server_name: None,
            server_id: None,
            game: Some("bf1".to_owned()),
        }
    }
}

/// Which server the monitor watches: exactly one of a name or an id.
pub enum MonitorTarget {
    ByName(String),
    ById(i64),
}

impl Static {
    /// The tagged monitor target: a configured name wins over a configured
    /// id; with neither configured there is no target and nothing matches.
    pub fn monitor_target(&self) -> (r: Option<MonitorTarget>)
        ensures
            match self.server_name {
                Some(n) => r matches Some(MonitorTarget::ByName(m)) && m@ == n@,
                None => match self.server_id {
                    Some(i) => r == Some(MonitorTarget::ById(i)),
                    None => r is None,
                },
            },
    {
        match &self.server_name {
            Some(n) => Some(MonitorTarget::ByName(n.clone())),
            None => match self.server_id {
                Some(i) => Some(MonitorTarget::ById(i)),
                None => None,
            },
        }
    }
}

/// One player slot as the remote list reports it.
pub struct Player {
    pub name: String,
    pub team: i64,
}

/// One installed modification as the remote list reports it.
pub struct Mod {
    pub category: String,
    pub file_name: String,
    pub link: String,
    pub name: String,
    pub version: String,
}

/// The mod field of the remote list: either structured entries or raw text.
pub enum ModType {
    Vec(Vec<Mod>),
    String(String),
}

/// The player field of the remote list: either structured entries or raw text.
pub enum PlayerType {
    Vec(Vec<Player>),
    String(String),
}

/// One poll's result: the ordered list of server snapshots.
pub struct MarneServerList {
    pub servers: Vec<MarneServerInfo>,
}

/// One server's state as returned by a single poll.
pub struct MarneServerInfo {
    pub id: i64,
    pub name: String,
    pub map_name: String,
    pub game_mode: String,
    pub max_players: i64,
    pub tick_rate: i64,
    pub password: i64,
    pub need_same_mods: i64,
    pub allow_more_mods: i64,
    pub current_players: i64,
    pub region: String,
    pub country: String,
}

/// What can go wrong in one cycle, by stage.
#[derive(Clone, Copy, Debug, PartialEq, Eq, Structural)]
pub enum MonitorError {
    /// Transport failure on the poll or the image fetch.
    Network,
    /// The poll body did not decode into the server list's shape.
    Parse,
    /// No server in the list matches the monitor target.
    NotFound,
    /// Image decode, encode, or write failure.
    Render,
    /// The external publisher rejected the update.
    Publish,
}

} // verus!
