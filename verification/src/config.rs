//! Where the blog's services listen, and which origins may call them.

use vstd::prelude::*;
use vstd::string::StringExecFns;
use crate::text::{decimal, push_decimal};

verus! {

/// A host, with a port where one is set.
#[derive(Clone, Debug, PartialEq, Eq)]
pub struct ServerConfig {
    pub host: String,
    pub port: Option<u16>,
}

/// The two frontends that call the API.
#[derive(Clone, Debug, PartialEq, Eq)]
pub struct FrontendConfigs {
    pub web: ServerConfig,
    pub admin: ServerConfig,
}

/// The configuration of the API server.
#[derive(Clone, Debug, PartialEq, Eq)]
pub struct AppConfig {
    pub server: ServerConfig,
    pub frontend: FrontendConfigs,
}

/// `host:port`, or the host alone where no port is set.
pub open spec fn address_of(host: Seq<char>, port: Option<u16>) -> Seq<char> {
    match port {
        Some(port) => host + ":"@ + decimal(port as nat),
        None => host,
    }
}

/// The origins under which a frontend is reached. With a port these are two,
/// over plain HTTP: the host with the port, then `localhost` with the port.
/// Without a port it is the host as it is written.
pub open spec fn origins_of(host: Seq<char>, port: Option<u16>) -> Seq<Seq<char>> {
    match port {
        Some(port) => seq![
            "http://"@ + host + ":"@ + decimal(port as nat),
            "http://localhost:"@ + decimal(port as nat),
        ],
        None => seq![host],
    }
}

/// The characters of each text of a list.
pub open spec fn texts(list: Seq<String>) -> Seq<Seq<char>> {
    Seq::new(list.len(), |i: int| list[i]@)
}

impl ServerConfig {
    fn push_origins(&self, origins: &mut Vec<String>)
        ensures
            texts(final(origins)@) == texts(old(origins)@) + origins_of(self.host@, self.port),
    {
        match self.port {
            Some(port) => {
                let mut with_host = "http://".to_owned();
                with_host.append(self.host.as_str());
                with_host.append(":");
                push_decimal(port, &mut with_host);
                let mut local = "http://localhost:".to_owned();
                push_decimal(port, &mut local);
                origins.push(with_host);
                origins.push(local);
            },
            None => {
                origins.push(self.host.clone());
            },
        }
        assert(texts(origins@) =~= texts(old(origins)@) + origins_of(self.host@, self.port));
    }
}

impl AppConfig {
    /// The address the server binds to: `host:port`, or the host alone where
    /// no port is set.
    pub fn server_address(&self) -> (address: String)
        ensures
            address@ == address_of(self.server.host@, self.server.port),
    {
        match self.server.port {
            Some(port) => {
                let mut address = self.server.host.clone();
                address.append(":");
                push_decimal(port, &mut address);
                address
            },
            None => self.server.host.clone(),
        }
    }

    /// The origins that may call the API: those of the web frontend, then
    /// those of the admin frontend.
    pub fn cors_origins(&self) -> (origins: Vec<String>)
        ensures
            texts(origins@) == origins_of(self.frontend.web.host@, self.frontend.web.port)
                + origins_of(self.frontend.admin.host@, self.frontend.admin.port),
    {
        let mut origins: Vec<String> = Vec::new();
        self.frontend.web.push_origins(&mut origins);
        self.frontend.admin.push_origins(&mut origins);
        assert(texts(origins@) =~= origins_of(self.frontend.web.host@, self.frontend.web.port)
            + origins_of(self.frontend.admin.host@, self.frontend.admin.port));
        origins
    }
}

} // verus!
