use crate::decimal::{append_decimal, decimal};
use vstd::prelude::*;

verus! {

/// Where the HTTP server listens.
#[derive(Debug, Clone)]
pub struct Server {
    pub port: i64,
}

/// The limits that the server puts on a request.
#[derive(Debug, Clone)]
pub struct Limits {
    /// The largest body of a request, in MiB.
    pub body_limit: i64,
    /// The longest time that a request may take, in seconds.
    pub timeout: i64,
}

/// How to reach the PostgreSQL database that holds the users.
#[derive(Debug, Clone)]
pub struct Database {
    pub host: String,
    pub port: i64,
    pub user: String,
    pub password: String,
    pub dbname: String,
    pub schema: String,
}

/// The whole configuration of the service.
#[derive(Debug, Clone)]
pub struct Setting {
    pub server: Server,
    pub database: Database,
}

impl Server {
    /// The port as a socket takes it: `port` cut down to its low 16 bits.
    pub fn socket_port(&self) -> (port: u16)
        ensures
            port == self.port as int % 65536,
    {
        if self.port >= 0 {
            (self.port % 65536) as u16
        } else {
            let below: i64 = -(self.port + 1);
            (65535 - below % 65536) as u16
        }
    }
}

impl Limits {
    /// The largest body of a request in bytes; `None` where the limit is
    /// negative or counts more bytes than an `i64` or a `usize` can hold.
    pub fn body_limit_bytes(&self) -> (bytes: Option<usize>)
        ensures
            bytes == if 0 <= self.body_limit * 1024 * 1024 <= i64::MAX && self.body_limit * 1024
                * 1024 <= usize::MAX {
                Some((self.body_limit * 1024 * 1024) as usize)
            } else {
                None
            },
    {
        if self.body_limit < 0 || self.body_limit > i64::MAX / (1024 * 1024) {
            return None;
        }
        let bytes: u64 = (self.body_limit * 1024 * 1024) as u64;
        if bytes > usize::MAX as u64 {
            return None;
        }
        Some(bytes as usize)
    }

    /// The longest time that a request may take in seconds; `None` where the
    /// limit is negative.
    pub fn timeout_secs(&self) -> (secs: Option<u64>)
        ensures
            secs == if self.timeout >= 0 {
                Some(self.timeout as u64)
            } else {
                None
            },
    {
        if self.timeout < 0 {
            return None;
        }
        Some(self.timeout as u64)
    }
}

impl Database {
    /// The connection URL of this database:
    /// `postgres://<user>:<password>@<host>:<port>/<dbname>?options=-c search_path=<schema>`,
    /// the port in decimal and every other part as it stands, with no escaping.
    pub open spec fn url(&self) -> Seq<char> {
        "postgres://"@ + self.user@ + ":"@ + self.password@ + "@"@ + self.host@ + ":"@ + decimal(
            self.port as int,
        ) + "/"@ + self.dbname@ + "?options=-c search_path="@ + self.schema@
    }

    /// Builds the connection URL of this database.
    pub fn url_getting(&self) -> (url: String)
        ensures
            url@ == self.url(),
    {
        let mut url = String::from_str("postgres://");
        url.append(self.user.as_str());
        url.append(":");
        url.append(self.password.as_str());
        url.append("@");
        url.append(self.host.as_str());
        url.append(":");
        append_decimal(&mut url, self.port);
        url.append("/");
        url.append(self.dbname.as_str());
        url.append("?options=-c search_path=");
        url.append(self.schema.as_str());
        url
    }
}

} // verus!
