use vstd::prelude::*;

use crate::auth::{accepts, authorize, token_from_config, token_of};
use crate::failure::{class_of, classify, status_for, status_of, Failure};

verus! {

/// Where the service listens and which token, if any, guards it.
#[derive(Debug)]
pub struct ServerConfig {
    /// The address to bind.
    pub ip: String,
    /// The port to bind.
    pub port: u16,
    /// The shared secret that prove requests must present; absent or blank
    /// turns authentication off.
    pub auth_token: Option<String>,
}

/// The configured token's characters.
pub open spec fn configured_token(c: ServerConfig) -> Option<Seq<char>> {
    match c.auth_token {
        Some(s) => Some(s@),
        None => None,
    }
}

/// What the request handlers share: the prover and the token in force.
pub struct ServerState<P> {
    prover: P,
    auth_token: Option<Vec<char>>,
}

/// The proving service: its configuration, its prover, and the token that
/// guards the prove operation.
pub struct Server<P> {
    pub config: ServerConfig,
    pub state: ServerState<P>,
}

impl<P> ServerState<P> {
    /// The token in force; none where authentication is off.
    pub closed spec fn token(&self) -> Option<Seq<char>> {
        match self.auth_token {
            Some(v) => Some(v@),
            None => None,
        }
    }

    /// The prover that the handlers drive.
    pub closed spec fn prover_spec(&self) -> P {
        self.prover
    }
}

impl<P> Server<P> {
    /// The token in force; none where authentication is off.
    pub open spec fn token(&self) -> Option<Seq<char>> {
        self.state.token()
    }

    /// The prover that the service drives.
    pub open spec fn prover_spec(&self) -> P {
        self.state.prover_spec()
    }

    /// A service over `prover`; the token in force is the configured one
    /// trimmed, and none where it is absent or blank.
    pub fn new(config: ServerConfig, prover: P) -> (r: Self)
        ensures
            r.config == config,
            r.prover_spec() == prover,
            r.token() == token_of(configured_token(config)),
    {
        let auth_token = match &config.auth_token {
            Some(s) => token_from_config(Some(s.as_str())),
            None => token_from_config(None),
        };
        let state = ServerState { prover, auth_token };
        Server { config, state }
    }

    /// The prover that the service drives.
    pub fn prover(&self) -> (r: &P)
        ensures
            *r == self.prover_spec(),
    {
        &self.state.prover
    }

    /// Whether prove requests must present the token.
    pub fn auth_enabled(&self) -> (r: bool)
        ensures
            r == (self.token() is Some),
    {
        self.state.auth_token.is_some()
    }

    /// Whether a prove request whose `Authorization` header value is `header`
    /// (none where it has no usable one) may reach the prover.
    pub fn admits(&self, header: Option<&str>) -> (r: bool)
        ensures
            r == accepts(
                self.token(),
                match header {
                    Some(h) => Some(h@),
                    None => None,
                },
            ),
    {
        match &self.state.auth_token {
            Some(t) => authorize(Some(t.as_slice()), header),
            None => authorize(None, header),
        }
    }
}

/// The HTTP status of an unauthorized prove request.
pub const UNAUTHORIZED: u16 = 401;

/// The HTTP status of a prove operation's outcome: 200 for a proof, and for a
/// failure the status of its class.
pub fn response_status<T>(outcome: &Result<T, Failure>) -> (r: u16)
    ensures
        r == match outcome {
            Ok(_) => 200u16,
            Err(f) => status_of(class_of(*f)),
        },
{
    match outcome {
        Ok(_) => 200,
        Err(f) => status_for(classify(*f)),
    }
}

/// The liveness probe's answer: always 200 with `OK`, whatever state the
/// backend is in; it needs neither the prover nor a token.
pub fn liveness() -> (r: (u16, &'static str))
    ensures
        r.0 == 200,
        r.1@ == "OK"@,
{
    proof {
        reveal_strlit("OK");
    }
    (200, "OK")
}

} // verus!
