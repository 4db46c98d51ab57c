//! Downloads, unpacks and starts a local MongoDB server for tests and development.
//!
//! The library decides: which release fits the host, where it is stored, how the server is
//! started and reached, and what happens at each step of a start-up. The caller performs the
//! file, network and process work that each decision asks for.
pub mod downloader;
pub mod extractor;
pub mod process;
pub mod startup;
pub mod text;

pub use crate::downloader::{Arch, MongoUrl, Os, PlatformError};

use vstd::prelude::*;
use vstd::string::*;
use crate::text::{
    contains_char, decimal, decimal_text, encode_slashes, encode_slashes_in, ends_with,
    seq_ends_with,
};

verus! {

/// The port a server listens on unless another is set.
pub const DEFAULT_PORT: u16 = 27017;

/// The address a server binds to unless another is set.
pub open spec fn default_bind_ip() -> Seq<char> {
    "127.0.0.1"@
}

/// The sub-directory of the cache directory that holds downloaded archives.
pub const DOWNLOADS_DIR: &'static str = "downloads";

/// The sub-directory of the cache directory that holds unpacked releases, one per version.
pub const EXTRACTED_DIR: &'static str = "extracted";

/// The sub-directory of the data directory that holds the database files.
pub const DB_DIR: &'static str = "db";

/// How to obtain, place and start one MongoDB server.
#[derive(Debug, Clone, PartialEq, Eq)]
pub struct MongoEmbedded {
    pub version: String,
    pub download_path: String,
    pub extract_path: String,
    pub db_path: String,
    pub port: u16,
    pub bind_ip: String,
    pub username: Option<String>,
    pub password: Option<String>,
}

/// The contents of a [`MongoEmbedded`], as character sequences.
pub struct EmbeddedView {
    pub version: Seq<char>,
    pub download_path: Seq<char>,
    pub extract_path: Seq<char>,
    pub db_path: Seq<char>,
    pub port: u16,
    pub bind_ip: Seq<char>,
    pub username: Option<Seq<char>>,
    pub password: Option<Seq<char>>,
}

/// The characters of an optional string.
pub open spec fn opt_text(s: Option<String>) -> Option<Seq<char>> {
    match s {
        Some(t) => Some(t@),
        None => None,
    }
}

impl View for MongoEmbedded {
    type V = EmbeddedView;

    open spec fn view(&self) -> EmbeddedView {
        EmbeddedView {
            version: self.version@,
            download_path: self.download_path@,
            extract_path: self.extract_path@,
            db_path: self.db_path@,
            port: self.port,
            bind_ip: self.bind_ip@,
            username: opt_text(self.username),
            password: opt_text(self.password),
        }
    }
}

impl EmbeddedView {
    pub open spec fn with_port(self, port: u16) -> EmbeddedView {
        EmbeddedView { port, ..self }
    }

    pub open spec fn with_bind_ip(self, bind_ip: Seq<char>) -> EmbeddedView {
        EmbeddedView { bind_ip, ..self }
    }

    pub open spec fn with_db_path(self, db_path: Seq<char>) -> EmbeddedView {
        EmbeddedView { db_path, ..self }
    }

    pub open spec fn with_credentials(self, username: Seq<char>, password: Seq<char>) -> EmbeddedView {
        EmbeddedView { username: Some(username), password: Some(password), ..self }
    }

    /// Access control is switched on exactly when both a user name and a password are set.
    pub open spec fn auth_enabled(self) -> bool {
        self.username is Some && self.password is Some
    }

    /// The server is reached through a Unix socket rather than TCP.
    pub open spec fn uses_socket(self) -> bool {
        uses_socket_address(self.bind_ip)
    }

    /// The address used to wait for the server before any user exists.
    pub open spec fn readiness_uri(self) -> Seq<char> {
        if self.uses_socket() {
            "mongodb://"@ + encode_slashes(self.bind_ip) + "/?directConnection=true"@
        } else {
            "mongodb://"@ + self.bind_ip + ":"@ + decimal(self.port as nat)
                + "/?directConnection=true"@
        }
    }

    /// The address handed to the caller once the server is up: with the credentials when
    /// both are set, else the readiness address.
    pub open spec fn connection_string(self) -> Seq<char> {
        match (self.username, self.password) {
            (Some(user), Some(pass)) => if self.uses_socket() {
                "mongodb://"@ + user + ":"@ + pass + "@"@ + encode_slashes(self.bind_ip)
            } else {
                "mongodb://"@ + user + ":"@ + pass + "@"@ + self.bind_ip + ":"@ + decimal(
                    self.port as nat,
                ) + "/"@
            },
            _ => self.readiness_uri(),
        }
    }
}

/// A bind address names a Unix socket when it holds a `/` or ends with `.sock`.
pub open spec fn uses_socket_address(bind_ip: Seq<char>) -> bool {
    bind_ip.contains('/') || seq_ends_with(bind_ip, ".sock"@)
}

/// Whether `bind_ip` names a Unix socket rather than an IP address.
pub fn is_socket_address(bind_ip: &str) -> (r: bool)
    ensures
        r == uses_socket_address(bind_ip@),
{
    contains_char(bind_ip, '/') || ends_with(bind_ip, ".sock")
}

impl MongoEmbedded {
    /// A server of release `version` whose archives, unpacked releases and database live at
    /// the given paths; it listens on port 27017 at 127.0.0.1, with no credentials.
    pub fn from_paths(version: &str, download_path: &str, extract_path: &str, db_path: &str) -> (r:
        Self)
        ensures
            r@ == (EmbeddedView {
                version: version@,
                download_path: download_path@,
                extract_path: extract_path@,
                db_path: db_path@,
                port: 27017,
                bind_ip: "127.0.0.1"@,
                username: None,
                password: None,
            }),
    {
        MongoEmbedded {
            version: String::from_str(version),
            download_path: String::from_str(download_path),
            extract_path: String::from_str(extract_path),
            db_path: String::from_str(db_path),
            port: DEFAULT_PORT,
            bind_ip: String::from_str("127.0.0.1"),
            username: None,
            password: None,
        }
    }

    /// Listens on `port`; nothing else changes.
    pub fn set_port(self, port: u16) -> (r: Self)
        ensures
            r@ == self@.with_port(port),
    {
        let mut m = self;
        m.port = port;
        m
    }

    /// Binds to `bind_ip`, an IP address or a Unix socket path; nothing else changes.
    pub fn set_bind_ip(self, bind_ip: &str) -> (r: Self)
        ensures
            r@ == self@.with_bind_ip(bind_ip@),
    {
        let mut m = self;
        m.bind_ip = String::from_str(bind_ip);
        m
    }

    /// Keeps the database files at `path`; nothing else changes.
    pub fn set_db_path(self, path: String) -> (r: Self)
        ensures
            r@ == self@.with_db_path(path@),
    {
        let mut m = self;
        m.db_path = path;
        m
    }

    /// Sets the user that start-up creates (or, when it exists, checks), which switches access
    /// control on; nothing else changes.
    pub fn set_credentials(self, username: &str, password: &str) -> (r: Self)
        ensures
            r@ == self@.with_credentials(username@, password@),
    {
        let mut m = self;
        m.username = Some(String::from_str(username));
        m.password = Some(String::from_str(password));
        m
    }

    /// Whether the server is started with access control.
    pub fn auth_enabled(&self) -> (r: bool)
        ensures
            r == self@.auth_enabled(),
    {
        self.username.is_some() && self.password.is_some()
    }

    /// Whether the server is reached through a Unix socket.
    pub fn uses_socket(&self) -> (r: bool)
        ensures
            r == self@.uses_socket(),
    {
        is_socket_address(self.bind_ip.as_str())
    }

    /// The address used to wait for the server to accept connections.
    pub fn readiness_uri(&self) -> (r: String)
        ensures
            r@ == self@.readiness_uri(),
    {
        let mut s = String::from_str("mongodb://");
        if self.uses_socket() {
            let encoded = encode_slashes_in(self.bind_ip.as_str());
            s.append(encoded.as_str());
        } else {
            s.append(self.bind_ip.as_str());
            s.append(":");
            let port = decimal_text(self.port);
            s.append(port.as_str());
        }
        s.append("/?directConnection=true");
        assert(s@ =~= self@.readiness_uri());
        s
    }

    /// The address that reaches the running server, credentials included when both are set.
    pub fn connection_string(&self) -> (r: String)
        ensures
            r@ == self@.connection_string(),
    {
        match (&self.username, &self.password) {
            (Some(user), Some(pass)) => {
                let mut s = String::from_str("mongodb://");
                s.append(user.as_str());
                s.append(":");
                s.append(pass.as_str());
                s.append("@");
                if self.uses_socket() {
                    let encoded = encode_slashes_in(self.bind_ip.as_str());
                    s.append(encoded.as_str());
                } else {
                    s.append(self.bind_ip.as_str());
                    s.append(":");
                    let port = decimal_text(self.port);
                    s.append(port.as_str());
                    s.append("/");
                }
                assert(s@ =~= self@.connection_string());
                s
            },
            _ => self.readiness_uri(),
        }
    }
}

/// Setting credentials switches access control on, and the connection string then carries
/// the user name and password before the host.
pub proof fn law_credentials_enable_auth(m: EmbeddedView, username: Seq<char>, password: Seq<char>)
    ensures
        m.with_credentials(username, password).auth_enabled(),
        m.with_credentials(username, password).connection_string() == (if m.uses_socket() {
            "mongodb://"@ + username + ":"@ + password + "@"@ + encode_slashes(m.bind_ip)
        } else {
            "mongodb://"@ + username + ":"@ + password + "@"@ + m.bind_ip + ":"@ + decimal(
                m.port as nat,
            ) + "/"@
        }),
{
}

/// The setters change separate settings, so the order in which they are applied does not
/// matter.
pub proof fn law_setters_commute(
    m: EmbeddedView,
    port: u16,
    bind_ip: Seq<char>,
    db_path: Seq<char>,
    username: Seq<char>,
    password: Seq<char>,
)
    ensures
        m.with_port(port).with_bind_ip(bind_ip) == m.with_bind_ip(bind_ip).with_port(port),
        m.with_port(port).with_db_path(db_path) == m.with_db_path(db_path).with_port(port),
        m.with_port(port).with_credentials(username, password) == m.with_credentials(
            username,
            password,
        ).with_port(port),
        m.with_bind_ip(bind_ip).with_db_path(db_path) == m.with_db_path(db_path).with_bind_ip(
            bind_ip,
        ),
        m.with_bind_ip(bind_ip).with_credentials(username, password) == m.with_credentials(
            username,
            password,
        ).with_bind_ip(bind_ip),
        m.with_db_path(db_path).with_credentials(username, password) == m.with_credentials(
            username,
            password,
        ).with_db_path(db_path),
{
}

/// Over a socket, the readiness URI names the socket with each `/` encoded, so the address
/// holds no `/` and stands as one host name.
pub proof fn law_socket_host_is_one_segment(m: EmbeddedView)
    requires
        m.uses_socket(),
    ensures
        !encode_slashes(m.bind_ip).contains('/'),
        m.readiness_uri() == "mongodb://"@ + encode_slashes(m.bind_ip) + "/?directConnection=true"@,
{
    crate::text::law_encoded_has_no_slash(m.bind_ip);
}

/// A bind address is taken for a Unix socket exactly when it holds a `/` or its last five
/// characters are `.sock`; any other address (an IPv4 or IPv6 literal, a host name) is reached
/// over TCP, with the port in the readiness URI.
pub proof fn law_socket_iff_slash_or_sock(m: EmbeddedView)
    ensures
        m.uses_socket() <==> (m.bind_ip.contains('/') || (m.bind_ip.len() >= 5
            && m.bind_ip.subrange(m.bind_ip.len() - 5, m.bind_ip.len() as int) == ".sock"@)),
        !m.bind_ip.contains('/') && !(m.bind_ip.len() >= 5 && m.bind_ip.subrange(
            m.bind_ip.len() - 5,
            m.bind_ip.len() as int,
        ) == ".sock"@) ==> m.readiness_uri() == "mongodb://"@ + m.bind_ip + ":"@ + decimal(
            m.port as nat,
        ) + "/?directConnection=true"@,
{
    reveal_strlit(".sock");
}

/// Access control is on exactly when both a user name and a password are set; without both,
/// the connection string handed back is the readiness address.
pub proof fn law_auth_needs_both_credentials(m: EmbeddedView)
    ensures
        m.auth_enabled() <==> (m.username is Some && m.password is Some),
        !(m.username is Some && m.password is Some) ==> m.connection_string() == m.readiness_uri(),
{
}

} // verus!
