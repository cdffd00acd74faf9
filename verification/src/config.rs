//! The daemon's configuration: five texts, read from a YAML mapping.

use crate::find::found_from;
use vstd::prelude::*;

verus! {

/// The settings of a daemon.
#[derive(Debug, PartialEq, Eq)]
pub struct ConfigData {
    server_name: String,
    client_bind_addr: String,
    server_bind_addr: String,
    server_pass: String,
    server_desc: String,
}

/// A `ConfigData` as plain values.
pub struct ConfigDataView {
    pub server_name: Seq<char>,
    /// The address on which clients are accepted.
    pub client_bind_addr: Seq<char>,
    /// The address on which other servers are accepted.
    pub server_bind_addr: Seq<char>,
    /// The secret that turns a connection into a server link.
    pub server_pass: Seq<char>,
    pub server_desc: Seq<char>,
}

impl View for ConfigData {
    type V = ConfigDataView;

    closed spec fn view(&self) -> ConfigDataView {
        ConfigDataView {
            server_name: self.server_name@,
            client_bind_addr: self.client_bind_addr@,
            server_bind_addr: self.server_bind_addr@,
            server_pass: self.server_pass@,
            server_desc: self.server_desc@,
        }
    }
}

impl Clone for ConfigData {
    fn clone(&self) -> (ret: ConfigData)
        ensures
            ret@ == self@,
    {
        ConfigData {
            server_name: self.server_name.clone(),
            client_bind_addr: self.client_bind_addr.clone(),
            server_bind_addr: self.server_bind_addr.clone(),
            server_pass: self.server_pass.clone(),
            server_desc: self.server_desc.clone(),
        }
    }
}

/// Why a text is no configuration.
#[derive(Debug, PartialEq, Eq)]
pub enum ConfigError {
    /// The text is no YAML mapping from texts to texts; the YAML reader's
    /// message says why.
    Yaml(String),
    /// The mapping lacks this key.
    Missing(&'static str),
}

/// What `serde_yaml::from_str` reads from a text as a map from strings to
/// strings, its entries in the order of the keys; `None` where it reports an
/// error.
pub uninterp spec fn yaml_mapping(text: Seq<char>) -> Option<Seq<(Seq<char>, Seq<char>)>>;

/// `serde_yaml::from_str` for a `BTreeMap<String, String>`, its entries
/// handed out in the map's order, its error as the error's message. What
/// it reads is a function of the text alone, named `yaml_mapping`; nothing
/// is claimed of the message.
#[verifier::external_body]
fn yaml_pairs(text: &str) -> (r: Result<Vec<(String, String)>, String>)
    ensures
        match r {
            Ok(pairs) => yaml_mapping(text@) == Some(pairs.deep_view()),
            Err(_) => yaml_mapping(text@) is None,
        },
{
    match serde_yaml::from_str::<std::collections::BTreeMap<String, String>>(text) {
        Ok(map) => Ok(map.into_iter().collect()),
        Err(e) => Err(e.to_string()),
    }
}

/// The keys of `pairs`, in order.
pub open spec fn keys_of(pairs: Seq<(Seq<char>, Seq<char>)>) -> Seq<Seq<char>> {
    Seq::new(pairs.len(), |i: int| pairs[i].0)
}

/// The value that `pairs` gives to `key`: that of the first entry with the
/// key.
pub open spec fn value_of(pairs: Seq<(Seq<char>, Seq<char>)>, key: Seq<char>) -> Option<Seq<char>> {
    let at = found_from(keys_of(pairs), key, 0);
    if at < pairs.len() {
        Some(pairs[at].1)
    } else {
        None
    }
}

/// The configuration that `pairs` spell, or the first key that they lack.
pub open spec fn config_of(
    pairs: Seq<(Seq<char>, Seq<char>)>,
) -> Result<ConfigDataView, Seq<char>> {
    if value_of(pairs, "server_name"@) is None {
        Err("server_name"@)
    } else if value_of(pairs, "client_bind_addr"@) is None {
        Err("client_bind_addr"@)
    } else if value_of(pairs, "server_bind_addr"@) is None {
        Err("server_bind_addr"@)
    } else if value_of(pairs, "server_pass"@) is None {
        Err("server_pass"@)
    } else if value_of(pairs, "server_desc"@) is None {
        Err("server_desc"@)
    } else {
        Ok(
            ConfigDataView {
                server_name: value_of(pairs, "server_name"@)->0,
                client_bind_addr: value_of(pairs, "client_bind_addr"@)->0,
                server_bind_addr: value_of(pairs, "server_bind_addr"@)->0,
                server_pass: value_of(pairs, "server_pass"@)->0,
                server_desc: value_of(pairs, "server_desc"@)->0,
            },
        )
    }
}

fn lookup(pairs: &Vec<(String, String)>, key: &str) -> (r: Option<String>)
    ensures
        r.deep_view() == value_of(pairs.deep_view(), key@),
{
    let ghost all = pairs.deep_view();
    let wanted = String::from_str(key);
    let mut i: usize = 0;
    while i < pairs.len() && pairs[i].0 != wanted
        invariant
            i <= pairs.len(),
            all == pairs.deep_view(),
            wanted@ == key@,
            found_from(keys_of(all), key@, 0) == found_from(keys_of(all), key@, i as int),
        decreases pairs.len() - i,
    {
        assert(all[i as int] == pairs@[i as int].deep_view());
        i += 1;
    }
    if i < pairs.len() {
        assert(all[i as int] == pairs@[i as int].deep_view());
        Some(pairs[i].1.clone())
    } else {
        None
    }
}

impl ConfigData {
    pub fn new(
        server_name: String,
        client_bind_addr: String,
        server_bind_addr: String,
        server_pass: String,
        server_desc: String,
    ) -> (data: Self)
        ensures
            data@ == (ConfigDataView {
                server_name: server_name@,
                client_bind_addr: client_bind_addr@,
                server_bind_addr: server_bind_addr@,
                server_pass: server_pass@,
                server_desc: server_desc@,
            }),
    {
        ConfigData { server_name, client_bind_addr, server_bind_addr, server_pass, server_desc }
    }

    /// The configuration that the entries of a mapping spell. Where a key
    /// occurs twice its first entry counts.
    pub fn from_pairs(pairs: &Vec<(String, String)>) -> (r: Result<ConfigData, ConfigError>)
        ensures
            match r {
                Ok(data) => config_of(pairs.deep_view()) == Ok::<ConfigDataView, Seq<char>>(data@),
                Err(ConfigError::Missing(key)) => config_of(pairs.deep_view()) == Err::<
                    ConfigDataView,
                    Seq<char>,
                >(key@),
                Err(ConfigError::Yaml(_)) => false,
            },
    {
        let server_name = match lookup(pairs, "server_name") {
            Some(v) => v,
            None => {
                return Err(ConfigError::Missing("server_name"));
            },
        };
        let client_bind_addr = match lookup(pairs, "client_bind_addr") {
            Some(v) => v,
            None => {
                return Err(ConfigError::Missing("client_bind_addr"));
            },
        };
        let server_bind_addr = match lookup(pairs, "server_bind_addr") {
            Some(v) => v,
            None => {
                return Err(ConfigError::Missing("server_bind_addr"));
            },
        };
        let server_pass = match lookup(pairs, "server_pass") {
            Some(v) => v,
            None => {
                return Err(ConfigError::Missing("server_pass"));
            },
        };
        let server_desc = match lookup(pairs, "server_desc") {
            Some(v) => v,
            None => {
                return Err(ConfigError::Missing("server_desc"));
            },
        };
        Ok(ConfigData { server_name, client_bind_addr, server_bind_addr, server_pass, server_desc })
    }
}

/// Reads a configuration from YAML text: a mapping that gives a text to
/// each of `server_name`, `client_bind_addr`, `server_bind_addr`,
/// `server_pass` and `server_desc`.
pub fn parse_config(text: &str) -> (r: Result<ConfigData, ConfigError>)
    ensures
        match r {
            Ok(data) => yaml_mapping(text@) matches Some(pairs) && config_of(pairs) == Ok::<
                ConfigDataView,
                Seq<char>,
            >(data@),
            Err(ConfigError::Missing(key)) => yaml_mapping(text@) matches Some(pairs) && config_of(
                pairs,
            ) == Err::<ConfigDataView, Seq<char>>(key@),
            Err(ConfigError::Yaml(_)) => yaml_mapping(text@) is None,
        },
{
    match yaml_pairs(text) {
        Ok(pairs) => ConfigData::from_pairs(&pairs),
        Err(e) => Err(ConfigError::Yaml(e)),
    }
}

/// A request to the keeper of the configuration.
#[derive(Debug, PartialEq, Eq)]
pub enum ConfigThreadMsg {
    GetServerName,
    GetClientBindAddr,
    GetServerBindAddr,
    GetServerPass,
    GetServerDesc,
}

impl ConfigDataView {
    /// The text that answers `msg`.
    pub open spec fn answer(self, msg: ConfigThreadMsg) -> Seq<char> {
        match msg {
            ConfigThreadMsg::GetServerName => self.server_name,
            ConfigThreadMsg::GetClientBindAddr => self.client_bind_addr,
            ConfigThreadMsg::GetServerBindAddr => self.server_bind_addr,
            ConfigThreadMsg::GetServerPass => self.server_pass,
            ConfigThreadMsg::GetServerDesc => self.server_desc,
        }
    }
}

/// The keeper of the configuration: it answers requests for single
/// settings.
#[derive(Debug)]
pub struct ConfigWorker {
    data: ConfigData,
}

impl View for ConfigWorker {
    type V = ConfigDataView;

    closed spec fn view(&self) -> ConfigDataView {
        self.data@
    }
}

impl ConfigWorker {
    pub fn new(data: ConfigData) -> (worker: Self)
        ensures
            worker@ == data@,
    {
        ConfigWorker { data }
    }

    /// Answers one request. The second part of the result says whether the
    /// keeper shall stop, which no request asks for.
    pub fn handle_msg(&mut self, msg: ConfigThreadMsg) -> (out: (String, bool))
        ensures
            final(self)@ == old(self)@,
            out.0@ == old(self)@.answer(msg),
            !out.1,
    {
        let text = match msg {
            ConfigThreadMsg::GetServerName => self.data.server_name.clone(),
            ConfigThreadMsg::GetClientBindAddr => self.data.client_bind_addr.clone(),
            ConfigThreadMsg::GetServerBindAddr => self.data.server_bind_addr.clone(),
            ConfigThreadMsg::GetServerPass => self.data.server_pass.clone(),
            ConfigThreadMsg::GetServerDesc => self.data.server_desc.clone(),
        };
        (text, false)
    }
}

/// A handle to the configuration.
#[derive(Debug)]
pub struct Config {
    thread: ConfigWorker,
}

impl View for Config {
    type V = ConfigDataView;

    closed spec fn view(&self) -> ConfigDataView {
        self.thread@
    }
}

impl Clone for Config {
    fn clone(&self) -> (ret: Config)
        ensures
            ret@ == self@,
    {
        Config { thread: ConfigWorker { data: self.thread.data.clone() } }
    }
}

impl Config {
    pub fn new(thread: ConfigWorker) -> (config: Self)
        ensures
            config@ == thread@,
    {
        Config { thread }
    }

    pub fn get_server_name(&self) -> (name: String)
        ensures
            name@ == self@.server_name,
    {
        self.thread.data.server_name.clone()
    }

    pub fn get_client_bind_addr(&self) -> (addr: String)
        ensures
            addr@ == self@.client_bind_addr,
    {
        self.thread.data.client_bind_addr.clone()
    }

    pub fn get_server_bind_addr(&self) -> (addr: String)
        ensures
            addr@ == self@.server_bind_addr,
    {
        self.thread.data.server_bind_addr.clone()
    }

    pub fn get_server_pass(&self) -> (pass: String)
        ensures
            pass@ == self@.server_pass,
    {
        self.thread.data.server_pass.clone()
    }

    pub fn get_server_desc(&self) -> (desc: String)
        ensures
            desc@ == self@.server_desc,
    {
        self.thread.data.server_desc.clone()
    }
}

} // verus!
