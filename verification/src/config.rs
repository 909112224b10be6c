//! The session configuration: the eleven-token configuration line, the
//! web-socket URL the agent connects to, and the HTTP CONNECT request of
//! the proxy tunnel.

use vstd::prelude::*;

use vstd::string::{StringExecFns, StringSliceAdditionalSpecFns};
use vstd::utf8::{encode_utf8, is_char_boundary};

verus! {

/// Errors of configuration parsing.
#[derive(Debug, Clone, Copy, PartialEq, Eq, Structural)]
pub enum ConfigError {
    /// The configuration line holds fewer than eleven tokens.
    NotEnoughTokens,
}

/// The per-session configuration, loaded once and shared by reference.
#[derive(Debug, Clone)]
pub struct Config {
    /// The server host, with any URL scheme stripped.
    pub server_address: String,
    /// The server port, possibly empty.
    pub server_port: String,
    /// The tenant id.
    pub tenant_id: String,
    /// The agent uuid.
    pub uuid: String,
    /// The proxy host, if one is configured.
    pub proxy_url: Option<String>,
    /// The proxy port, if one is configured.
    pub proxy_port: Option<String>,
    /// The proxy credential, if one is configured.
    pub proxy_auth: Option<String>,
    /// Whether the connection goes through the proxy.
    pub use_proxy: bool,
    /// Whether the connection uses TLS.
    pub use_ssl: bool,
    /// Whether the proxy tunnel goes without authentication.
    pub no_auth: bool,
}

/// Whether `p` is a byte prefix of `b`.
pub open spec fn spec_bytes_prefix(b: Seq<u8>, p: Seq<u8>) -> bool {
    p.len() <= b.len() && b.subrange(0, p.len() as int) == p
}

/// `b` with the prefix `p` removed, when `p` is a prefix ending on a
/// character boundary; otherwise `b` itself.
pub open spec fn spec_strip_prefix(b: Seq<u8>, p: Seq<u8>) -> Seq<u8> {
    if spec_bytes_prefix(b, p) && is_char_boundary(b, p.len() as int) {
        b.subrange(p.len() as int, b.len() as int)
    } else {
        b
    }
}

/// A server token with any of the four known URL schemes stripped, each
/// tried once in order.
pub open spec fn spec_clean_address(b: Seq<u8>) -> Seq<u8> {
    spec_strip_prefix(
        spec_strip_prefix(
            spec_strip_prefix(spec_strip_prefix(b, encode_utf8("wss://"@)), encode_utf8("ws://"@)),
            encode_utf8("https://"@),
        ),
        encode_utf8("http://"@),
    )
}

/// Strip one prefix when it matches on a character boundary.
fn strip_prefix<'a>(s: &'a str, prefix: &str) -> (r: &'a str)
    ensures
        r.spec_bytes() == spec_strip_prefix(s.spec_bytes(), prefix.spec_bytes()),
{
    let sb = s.as_bytes();
    let pb = prefix.as_bytes();
    let n = pb.len();
    if sb.len() >= n && s.is_char_boundary(n) {
        let (head, tail) = s.split_at(n);
        if crate::video::bytes_equal(head.as_bytes(), pb) {
            proof {
                assert(s.spec_bytes().subrange(0, n as int) == prefix.spec_bytes());
            }
            return tail;
        }
    }
    s
}

impl Config {
    /// Build a configuration from the eleven whitespace-separated tokens
    /// of the configuration line: server URL, port, tenant, proxy host,
    /// proxy port, two reserved tokens, the proxy switch, the uuid, the
    /// optional proxy credential, and the no-auth marker. Fails exactly
    /// when fewer than eleven tokens are given.
    pub fn from_tokens(tokens: &Vec<String>) -> (r: Result<Config, ConfigError>)
        ensures
            r is Err <==> tokens@.len() < 11,
            r is Ok ==> {
                let c = r->Ok_0;
                &&& encode_utf8(c.server_address@) == spec_clean_address(
                    encode_utf8(tokens@[0]@),
                )
                &&& c.use_ssl == (spec_bytes_prefix(
                    encode_utf8(tokens@[0]@),
                    encode_utf8("wss://"@),
                ) || spec_bytes_prefix(encode_utf8(tokens@[0]@), encode_utf8("https://"@)))
                &&& c.server_port@ == tokens@[1]@
                &&& c.tenant_id@ == tokens@[2]@
                &&& (c.proxy_url is Some <==> tokens@[3]@.len() > 0)
                &&& (c.proxy_url is Some ==> c.proxy_url->0@ == tokens@[3]@)
                &&& (c.proxy_port is Some <==> tokens@[4]@.len() > 0)
                &&& (c.proxy_port is Some ==> c.proxy_port->0@ == tokens@[4]@)
                &&& c.use_proxy == (tokens@[7]@ == "proxy"@)
                &&& c.uuid@ == tokens@[8]@
                &&& (c.proxy_auth is Some <==> tokens@[9]@.len() > 0)
                &&& (c.proxy_auth is Some ==> c.proxy_auth->0@ == tokens@[9]@)
                &&& c.no_auth == (tokens@[10]@ == "isNoAuth"@)
            },
    {
        if tokens.len() < 11 {
            return Err(ConfigError::NotEnoughTokens);
        }
        let addr_token = tokens[0].as_str();
        let wss = strip_prefix(addr_token, "wss://");
        let ws = strip_prefix(wss, "ws://");
        let https = strip_prefix(ws, "https://");
        let cleaned = strip_prefix(https, "http://");
        let use_ssl = starts_with(addr_token, "wss://") || starts_with(addr_token, "https://");

        let proxy_url: Option<String> = if tokens[3].as_str().is_empty() {
            None
        } else {
            Some(tokens[3].as_str().to_owned())
        };
        let proxy_port: Option<String> = if tokens[4].as_str().is_empty() {
            None
        } else {
            Some(tokens[4].as_str().to_owned())
        };
        let proxy_auth: Option<String> = if tokens[9].as_str().is_empty() {
            None
        } else {
            Some(tokens[9].as_str().to_owned())
        };
        let use_proxy = string_eq_literal(&tokens[7], "proxy");
        let no_auth = string_eq_literal(&tokens[10], "isNoAuth");

        Ok(
            Config {
                server_address: cleaned.to_owned(),
                server_port: tokens[1].as_str().to_owned(),
                tenant_id: tokens[2].as_str().to_owned(),
                uuid: tokens[8].as_str().to_owned(),
                proxy_url,
                proxy_port,
                proxy_auth,
                use_proxy,
                use_ssl,
                no_auth,
            },
        )
    }

    /// The web-socket URL for an agent type:
    /// `{ws|wss}://{host}:{port}/ws/rev/{agent_type}/{tenant}/{uuid}`,
    /// with the port defaulting to 443 under TLS and 80 otherwise.
    pub fn get_websocket_url_for(&self, agent_type: &str) -> (r: String)
        ensures
            r@ == spec_websocket_url(
                self.use_ssl,
                self.server_address@,
                self.server_port@,
                agent_type@,
                self.tenant_id@,
                self.uuid@,
            ),
    {
        let protocol: &str = if self.use_ssl {
            "wss"
        } else {
            "ws"
        };
        let port: &str = if self.server_port.as_str().is_empty() {
            if self.use_ssl {
                "443"
            } else {
                "80"
            }
        } else {
            self.server_port.as_str()
        };
        let mut url = String::new();
        url.append(protocol);
        url.append("://");
        url.append(self.server_address.as_str());
        url.append(":");
        url.append(port);
        url.append("/ws/rev/");
        url.append(agent_type);
        url.append("/");
        url.append(self.tenant_id.as_str());
        url.append("/");
        url.append(self.uuid.as_str());
        proof {
            assert(url@ =~= spec_websocket_url(
                self.use_ssl,
                self.server_address@,
                self.server_port@,
                agent_type@,
                self.tenant_id@,
                self.uuid@,
            ));
        }
        url
    }

    /// The web-socket URL of the file service.
    pub fn get_websocket_url(&self) -> (r: String)
        ensures
            r@ == spec_websocket_url(
                self.use_ssl,
                self.server_address@,
                self.server_port@,
                "file_agent"@,
                self.tenant_id@,
                self.uuid@,
            ),
    {
        self.get_websocket_url_for("file_agent")
    }

    /// Whether a proxy is configured and switched on.
    pub fn has_proxy(&self) -> (r: bool)
        ensures
            r == (self.proxy_url is Some && self.proxy_port is Some && self.use_proxy),
    {
        match (&self.proxy_url, &self.proxy_port) {
            (Some(_), Some(_)) => self.use_proxy,
            _ => false,
        }
    }

    /// The `host:port` of the configured proxy, when it is switched on.
    pub fn get_proxy_url(&self) -> (r: Option<String>)
        ensures
            r is Some <==> (self.proxy_url is Some && self.proxy_port is Some
                && self.use_proxy),
            r is Some ==> r->0@ == self.proxy_url->0@ + ":"@ + self.proxy_port->0@,
    {
        if !self.has_proxy() {
            return None;
        }
        match (&self.proxy_url, &self.proxy_port) {
            (Some(ip), Some(port)) => {
                let mut s = ip.as_str().to_owned();
                s.append(":");
                s.append(port.as_str());
                Some(s)
            },
            _ => None,
        }
    }

    /// The configured proxy credential, if any.
    pub fn get_proxy_auth(&self) -> (r: Option<String>)
        ensures
            r is Some <==> self.proxy_auth is Some,
            r is Some ==> r->0@ == self.proxy_auth->0@,
    {
        match &self.proxy_auth {
            Some(a) => Some(a.as_str().to_owned()),
            None => None,
        }
    }
}

/// The web-socket URL built from its parts.
pub open spec fn spec_websocket_url(
    use_ssl: bool,
    address: Seq<char>,
    port: Seq<char>,
    agent_type: Seq<char>,
    tenant: Seq<char>,
    uuid: Seq<char>,
) -> Seq<char> {
    let protocol = if use_ssl {
        "wss"@
    } else {
        "ws"@
    };
    let port_part = if port.len() == 0 {
        if use_ssl {
            "443"@
        } else {
            "80"@
        }
    } else {
        port
    };
    protocol + "://"@ + address + ":"@ + port_part + "/ws/rev/"@ + agent_type + "/"@ + tenant
        + "/"@ + uuid
}

/// Whether a string starts with a byte prefix.
fn starts_with(s: &str, prefix: &str) -> (r: bool)
    ensures
        r == spec_bytes_prefix(s.spec_bytes(), prefix.spec_bytes()),
{
    let sb = s.as_bytes();
    let pb = prefix.as_bytes();
    let n = pb.len();
    if sb.len() < n {
        return false;
    }
    let r = crate::video::bytes_equal(&sb[0..n], pb);
    r
}

/// Whether a string equals a literal.
fn string_eq_literal(s: &String, lit: &str) -> (r: bool)
    ensures
        r == (s@ == lit@),
{
    let owned = lit.to_owned();
    let r = s.eq(&owned);
    r
}

// ---------------------------------------------------------------------------
// The proxy tunnel request
// ---------------------------------------------------------------------------
/// The decimal digits of a number.
pub open spec fn spec_decimal(x: int) -> Seq<char>
    decreases x,
{
    if x < 10 {
        seq![spec_digit_char(x)]
    } else {
        spec_decimal(x / 10) + seq![spec_digit_char(x % 10)]
    }
}

/// The character of one decimal digit.
pub open spec fn spec_digit_char(d: int) -> char {
    (48 + d) as u8 as char
}

/// Relies on String::push: the character is appended to the string.
#[verifier::external_body]
fn push_char(s: &mut String, c: char)
    ensures
        final(s)@ == old(s)@.push(c),
{
    s.push(c)
}

/// The decimal representation of a 16-bit number.
pub fn u16_to_string(x: u16) -> (r: String)
    ensures
        r@ == spec_decimal(x as int),
    decreases x,
{
    if x < 10 {
        let mut s = String::new();
        push_char(&mut s, digit_char(x as u8));
        proof {
            assert(s@ =~= spec_decimal(x as int));
        }
        s
    } else {
        let mut s = u16_to_string(x / 10);
        push_char(&mut s, digit_char((x % 10) as u8));
        proof {
            assert(s@ =~= spec_decimal(x as int));
        }
        s
    }
}

/// The character of one decimal digit.
fn digit_char(d: u8) -> (r: char)
    requires
        d < 10,
    ensures
        r == spec_digit_char(d as int),
{
    (48 + d) as char
}

/// The HTTP CONNECT tunnel through a proxy: hosts, ports, and the
/// optional Basic credential.
pub struct ProxyConnector {
    /// The proxy host.
    pub proxy_host: String,
    /// The proxy port.
    pub proxy_port: u16,
    /// The target host behind the tunnel.
    pub target_host: String,
    /// The target port behind the tunnel.
    pub target_port: u16,
    /// The Basic credential, if any.
    pub auth: Option<String>,
    /// Whether the tunnel goes without authentication.
    pub no_auth: bool,
}

impl ProxyConnector {
    /// Bundle the tunnel parameters.
    pub fn new(
        proxy_host: String,
        proxy_port: u16,
        target_host: String,
        target_port: u16,
        auth: Option<String>,
        no_auth: bool,
    ) -> (r: Self)
        ensures
            r.proxy_host == proxy_host,
            r.proxy_port == proxy_port,
            r.target_host == target_host,
            r.target_port == target_port,
            r.auth == auth,
            r.no_auth == no_auth,
    {
        ProxyConnector { proxy_host, proxy_port, target_host, target_port, auth, no_auth }
    }

    /// The CONNECT request for the tunnel: without authentication a bare
    /// request; with a credential a request carrying the Basic
    /// authorization header; nothing when authentication is required but
    /// no credential exists.
    pub fn connect_request(&self) -> (r: Option<String>)
        ensures
            self.no_auth ==> r is Some && r->0@ == spec_connect_request(
                self.target_host@,
                self.target_port as int,
                None,
            ),
            !self.no_auth && self.auth is Some ==> r is Some && r->0@ == spec_connect_request(
                self.target_host@,
                self.target_port as int,
                Some(self.auth->0@),
            ),
            !self.no_auth && self.auth is None ==> r is None,
    {
        let port = u16_to_string(self.target_port);
        if self.no_auth {
            let mut s = "CONNECT ".to_owned();
            s.append(self.target_host.as_str());
            s.append(":");
            s.append(port.as_str());
            s.append(" HTTP/1.1\r\nHost: ");
            s.append(self.target_host.as_str());
            s.append(":");
            s.append(port.as_str());
            s.append("\r\nConnection: keep-alive\r\n\r\n");
            proof {
                assert(s@ =~= spec_connect_request(
                    self.target_host@,
                    self.target_port as int,
                    None,
                ));
            }
            Some(s)
        } else if let Some(auth) = &self.auth {
            let mut s = "CONNECT ".to_owned();
            s.append(self.target_host.as_str());
            s.append(":");
            s.append(port.as_str());
            s.append(" HTTP/1.1\r\nHost: ");
            s.append(self.target_host.as_str());
            s.append(":");
            s.append(port.as_str());
            s.append("\r\nProxy-Authorization: Basic ");
            s.append(auth.as_str());
            s.append("\r\nConnection: keep-alive\r\n\r\n");
            proof {
                assert(s@ =~= spec_connect_request(
                    self.target_host@,
                    self.target_port as int,
                    Some(self.auth->0@),
                ));
            }
            Some(s)
        } else {
            None
        }
    }
}

/// The CONNECT request text for a target and an optional credential.
pub open spec fn spec_connect_request(
    host: Seq<char>,
    port: int,
    auth: Option<Seq<char>>,
) -> Seq<char> {
    let target = host + ":"@ + spec_decimal(port);
    match auth {
        None => "CONNECT "@ + target + " HTTP/1.1\r\nHost: "@ + target
            + "\r\nConnection: keep-alive\r\n\r\n"@,
        Some(a) => "CONNECT "@ + target + " HTTP/1.1\r\nHost: "@ + target
            + "\r\nProxy-Authorization: Basic "@ + a + "\r\nConnection: keep-alive\r\n\r\n"@,
    }
}

} // verus!
