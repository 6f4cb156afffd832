use vstd::prelude::*;

pub mod bindings;
pub mod decimal;
pub mod errors;
pub mod health;
pub mod params;
pub mod request;

use crate::decimal::{decimal, to_decimal};

verus! {

/// The port of the agent where none is given.
pub const DEFAULT_PORT: u16 = 8500;

/// The address of an agent on `host` at `port`, or at the default port.
pub open spec fn host_address(host: Seq<char>, port: Option<u16>) -> Seq<char> {
    let p = match port {
        Some(p) => p,
        None => DEFAULT_PORT,
    };
    host + ":"@ + decimal(p as nat)
}

/// Where and how to reach the agent, shared by every call of one client.
/// `H` is the handle of the HTTP transport, which may be shared by
/// concurrent calls.
#[derive(Clone, Debug)]
pub struct Config<H> {
    pub address: String,
    pub datacenter: Option<String>,
    pub http_client: H,
    pub token: Option<String>,
    pub wait_time: Option<core::time::Duration>,
}

impl<H> Config<H> {
    /// A configuration for the agent on `host` at `port` (8500 where none is
    /// given), with the given token and transport, no datacenter and no
    /// default wait.
    pub fn new_from_consul_host(
        host: &str,
        port: Option<u16>,
        token: Option<String>,
        http_client: H,
    ) -> (r: Config<H>)
        ensures
            r.address@ == host_address(host@, port),
            r.datacenter is None,
            r.token == token,
            r.http_client == http_client,
            r.wait_time is None,
    {
        let p: u16 = match port {
            Some(p) => p,
            None => DEFAULT_PORT,
        };
        let mut address = String::from_str(host);
        address.append(":");
        let digits = to_decimal(p as u64);
        address.append(digits.as_str());
        Config { address, datacenter: None, http_client, token, wait_time: None }
    }
}

/// A client of the agent's HTTP API.
#[derive(Clone, Debug)]
pub struct Client<H> {
    config: Config<H>,
}

impl<H> Client<H> {
    /// A client that makes its calls with `config`.
    pub fn new(config: Config<H>) -> (r: Client<H>)
        ensures
            r.config() == config,
    {
        Client { config }
    }

    /// The configuration of this client.
    pub closed spec fn config(&self) -> Config<H> {
        self.config
    }

    /// The configuration that every call of this client uses.
    pub fn configuration(&self) -> (r: &Config<H>)
        ensures
            *r == self.config(),
    {
        &self.config
    }
}

/// Per-call options of a read.
#[derive(Clone, Debug, Default)]
pub struct QueryOptions {
    pub datacenter: Option<String>,
    pub wait_index: Option<u64>,
    pub wait_time: Option<core::time::Duration>,
}

/// What a read reports besides its payload.
#[derive(Clone, Debug)]
pub struct QueryMeta {
    pub last_index: Option<u64>,
    pub request_time: core::time::Duration,
}

/// Per-call options of a write.
#[derive(Clone, Debug, Default)]
pub struct WriteOptions {
    pub datacenter: Option<String>,
}

/// What a write reports besides its payload.
#[derive(Clone, Debug)]
pub struct WriteMeta {
    pub request_time: core::time::Duration,
}

} // verus!
