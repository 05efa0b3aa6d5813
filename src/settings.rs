//! Program configuration: built-in defaults overlaid by environment
//! variables (there is no configuration file), and the strings derived
//! from it.
use vstd::prelude::*;

use crate::decimal::{decimal_string, decimal_text, parse_decimal, parse_unsigned};
use std::path::PathBuf;

verus! {

/// IP address listened on when none is configured.
pub const DEFAULT_IP: &'static str = "127.0.0.1";

/// Port listened on when none is configured.
pub const DEFAULT_PORT: u32 = 8000;

/// Host name used in URLs when none is configured.
pub const DEFAULT_HOST: &'static str = "localhost";

/// Storage directory used when none is configured.
pub const DEFAULT_STORAGE: &'static str = "storage";

/// Request size limit used when none is configured: 50 MiB.
pub const DEFAULT_SIZE_LIMIT: usize = 50 * 1024 * 1024;

/// Program configuration.
#[derive(Debug)]
pub struct Settings {
    /// IP address to listen on.
    ip: String,
    /// Port to listen on.
    private_port: u32,
    /// Port to display in URLs.
    public_port: u32,
    /// Domain name this server is accessible from.
    host: String,
    /// Path to store uploaded files in.
    storage_path: String,
    /// Maximum request size.
    size_limit: usize,
}

/// The abstract value of a [`Settings`].
pub struct SettingsView {
    pub ip: Seq<char>,
    pub private_port: u32,
    pub public_port: u32,
    pub host: Seq<char>,
    pub storage_path: Seq<char>,
    pub size_limit: usize,
}

impl View for Settings {
    type V = SettingsView;

    closed spec fn view(&self) -> SettingsView {
        SettingsView {
            ip: self.ip@,
            private_port: self.private_port,
            public_port: self.public_port,
            host: self.host@,
            storage_path: self.storage_path@,
            size_limit: self.size_limit,
        }
    }
}

/// Grouped environment variable name constants.
pub struct Variable;

impl Variable {
    pub const IP_KEY: &'static str = "FILEDROP_IP";
    pub const PORT_KEY: &'static str = "FILEDROP_PORT";
    pub const PUBLIC_PORT_KEY: &'static str = "FILEDROP_PUBLIC_PORT";
    pub const HOST_KEY: &'static str = "FILEDROP_HOST";
    pub const STORAGE_KEY: &'static str = "FILEDROP_STORAGE";
    pub const SIZE_LIMIT_KEY: &'static str = "FILEDROP_SIZE_LIMIT";
}

/// The value of the first pair in `vars` whose name is `key`.
pub open spec fn lookup(vars: Seq<(String, String)>, key: Seq<char>) -> Option<Seq<char>>
    decreases vars.len(),
{
    if vars.len() == 0 {
        None
    } else if vars[0].0@ == key {
        Some(vars[0].1@)
    } else {
        lookup(vars.drop_first(), key)
    }
}

/// A configured text, or `default` where it is absent.
pub open spec fn text_or(v: Option<Seq<char>>, default: Seq<char>) -> Seq<char> {
    match v {
        Some(t) => t,
        None => default,
    }
}

/// A configured number no greater than `max`, or `default` where it is
/// absent or does not parse.
pub open spec fn number_or(v: Option<Seq<char>>, max: nat, default: nat) -> nat {
    match v {
        Some(t) => match parse_unsigned(t, max) {
            Some(n) => n,
            None => default,
        },
        None => default,
    }
}

/// The configuration that the environment `vars` resolves to.
pub open spec fn resolve(vars: Seq<(String, String)>) -> SettingsView {
    let port = number_or(lookup(vars, Variable::PORT_KEY@), u32::MAX as nat, DEFAULT_PORT as nat);
    SettingsView {
        ip: text_or(lookup(vars, Variable::IP_KEY@), DEFAULT_IP@),
        private_port: port as u32,
        public_port: number_or(lookup(vars, Variable::PUBLIC_PORT_KEY@), u32::MAX as nat, port) as u32,
        host: text_or(lookup(vars, Variable::HOST_KEY@), DEFAULT_HOST@),
        storage_path: text_or(lookup(vars, Variable::STORAGE_KEY@), DEFAULT_STORAGE@),
        size_limit: number_or(
            lookup(vars, Variable::SIZE_LIMIT_KEY@),
            usize::MAX as nat,
            DEFAULT_SIZE_LIMIT as nat,
        ) as usize,
    }
}

/// `text:port`, the port in decimal.
pub open spec fn with_port(text: Seq<char>, port: u32) -> Seq<char> {
    text + seq![':'] + decimal_text(port as nat)
}

/// The host string of URLs: the host alone on port 80, else `host:port`.
pub open spec fn host_text(v: SettingsView) -> Seq<char> {
    if v.public_port == 80 {
        v.host
    } else {
        with_port(v.host, v.public_port)
    }
}

/// The value of the first pair in `vars` named `key`.
fn lookup_var(vars: &Vec<(String, String)>, key: &str) -> (r: Option<String>)
    ensures
        match r {
            Some(t) => lookup(vars@, key@) == Some(t@),
            None => lookup(vars@, key@) is None,
        },
{
    let name = String::from_str(key);
    let mut i: usize = 0;
    assert(vars@.subrange(0, vars@.len() as int) =~= vars@);
    while i < vars.len()
        invariant
            i <= vars@.len(),
            name@ == key@,
            lookup(vars@, key@) == lookup(vars@.subrange(i as int, vars@.len() as int), key@),
        decreases vars.len() - i,
    {
        let ghost rest = vars@.subrange(i as int, vars@.len() as int);
        assert(rest.drop_first() =~= vars@.subrange(i + 1, vars@.len() as int));
        assert(rest[0] == vars@[i as int]);
        if vars[i].0 == name {
            return Some(vars[i].1.clone());
        }
        i = i + 1;
    }
    None
}

/// A configured number no greater than `max`, or `default`.
fn number_var(vars: &Vec<(String, String)>, key: &str, max: usize, default: usize) -> (r: usize)
    requires
        default <= max,
    ensures
        r as nat == number_or(lookup(vars@, key@), max as nat, default as nat),
{
    match lookup_var(vars, key) {
        Some(t) => match parse_decimal(t.as_str(), max) {
            Some(n) => n,
            None => default,
        },
        None => default,
    }
}

/// A configured text, or `default`.
fn text_var(vars: &Vec<(String, String)>, key: &str, default: &str) -> (r: String)
    ensures
        r@ == text_or(lookup(vars@, key@), default@),
{
    match lookup_var(vars, key) {
        Some(t) => t,
        None => String::from_str(default),
    }
}

/// std's owned filesystem path, carried through unopened.
#[verifier::external_type_specification]
#[verifier::external_body]
pub struct ExPathBuf(PathBuf);

/// The text that a path holds.
pub uninterp spec fn path_text(p: PathBuf) -> Seq<char>;

/// Relies on std's `From<&String> for PathBuf`, which builds a path from the
/// text as it stands, copying its bytes unchanged.
#[verifier::external_body]
fn path_from(s: &String) -> (r: PathBuf)
    ensures
        path_text(r) == s@,
{
    PathBuf::from(s)
}

impl Settings {
    /// Load the config from the environment, given as name/value pairs;
    /// missing options and numbers that do not parse are set to their
    /// defaults.
    pub fn from_env(vars: &Vec<(String, String)>) -> (r: Settings)
        ensures
            r@ == resolve(vars@),
    {
        let max_port: usize = u32::MAX as usize;
        let private_port = number_var(vars, Variable::PORT_KEY, max_port, DEFAULT_PORT as usize);
        let public_port = number_var(vars, Variable::PUBLIC_PORT_KEY, max_port, private_port);
        Settings {
            ip: text_var(vars, Variable::IP_KEY, DEFAULT_IP),
            private_port: private_port as u32,
            public_port: public_port as u32,
            host: text_var(vars, Variable::HOST_KEY, DEFAULT_HOST),
            storage_path: text_var(vars, Variable::STORAGE_KEY, DEFAULT_STORAGE),
            size_limit: number_var(vars, Variable::SIZE_LIMIT_KEY, usize::MAX, DEFAULT_SIZE_LIMIT),
        }
    }

    /// Get the listen address string (with port).
    pub fn listen_string(&self) -> (r: String)
        ensures
            r@ == with_port(self@.ip, self@.private_port),
    {
        let mut s = self.ip.clone();
        s.append(":");
        s.append(decimal_string(self.private_port as u64).as_str());
        proof {
            reveal_strlit(":");
        }
        s
    }

    /// Get the host name string (with port if non-standard).
    pub fn host_string(&self) -> (r: String)
        ensures
            r@ == host_text(self@),
    {
        if self.public_port == 80 {
            self.host.clone()
        } else {
            let mut s = self.host.clone();
            s.append(":");
            s.append(decimal_string(self.public_port as u64).as_str());
            proof {
                reveal_strlit(":");
            }
            s
        }
    }

    /// Get the storage directory as a `Path`.
    pub fn storage_path(&self) -> (r: PathBuf)
        ensures
            path_text(r) == self@.storage_path,
    {
        path_from(&self.storage_path)
    }

    /// The storage directory as text.
    pub fn storage_text(&self) -> (r: &str)
        ensures
            r@ == self@.storage_path,
    {
        self.storage_path.as_str()
    }

    /// Get the request size limit.
    pub fn size_limit(&self) -> (r: usize)
        ensures
            r == self@.size_limit,
    {
        self.size_limit
    }
}

} // verus!
