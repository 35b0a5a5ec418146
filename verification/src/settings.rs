//! The parameters of the connection, as they are supplied at startup.
//!
//! The library does not choose them: the program reads them from wherever
//! it keeps its configuration and hands them over.

use vstd::prelude::*;
use vstd::string::StringExecFns;
use crate::decimal::decimal_nat;

verus! {

/// The port on which the server listens unless told otherwise.
pub const DEFAULT_PORT: u16 = 1433;

/// The parameters of one connection.
#[derive(Clone, PartialEq, Eq)]
pub struct ConnectionSettings {
    /// The name or address of the server.
    pub host: String,
    /// The port of the server.
    pub port: u16,
    /// The database to use.
    pub database: String,
    /// The account to log in with.
    pub user: String,
    /// The password of the account.
    pub password: String,
    /// Whether the server's certificate is accepted without validation.
    pub trust_cert: bool,
}

/// Connection parameters as a mathematical value.
pub struct ConnectionSettingsView {
    pub host: Seq<char>,
    pub port: u16,
    pub database: Seq<char>,
    pub user: Seq<char>,
    pub password: Seq<char>,
    pub trust_cert: bool,
}

impl View for ConnectionSettings {
    type V = ConnectionSettingsView;

    open spec fn view(&self) -> ConnectionSettingsView {
        ConnectionSettingsView {
            host: self.host@,
            port: self.port,
            database: self.database@,
            user: self.user@,
            password: self.password@,
            trust_cert: self.trust_cert,
        }
    }
}

/// The address to open the connection to: the host, a colon, and the port in
/// decimal. A host written as a single dot stands for `localhost`.
pub open spec fn address_of(host: Seq<char>, port: u16) -> Seq<char> {
    (if host == "."@ {
        "localhost"@
    } else {
        host
    }) + ":"@ + decimal_nat(port as nat)
}

/// The address that the driver connects to for this host and port.
///
/// Trusted: calls `tiberius::Config::get_addr` on a fresh `tiberius::Config`
/// on which only `host` and `port` were set. The contract claims what the
/// driver's source shows: the result is the host as given (`localhost` in
/// place of a single dot), a colon, and the port as `u16` is displayed.
#[verifier::external_body]
fn driver_address(host: &str, port: u16) -> (address: String)
    ensures
        address@ == address_of(host@, port),
{
    let mut config = tiberius::Config::new();
    config.host(host);
    config.port(port);
    config.get_addr()
}

impl ConnectionSettings {
    /// The parameters with these values.
    pub fn new(
        host: &str,
        port: u16,
        database: &str,
        user: &str,
        password: &str,
        trust_cert: bool,
    ) -> (settings: ConnectionSettings)
        ensures
            settings@ == (ConnectionSettingsView {
                host: host@,
                port,
                database: database@,
                user: user@,
                password: password@,
                trust_cert,
            }),
    {
        ConnectionSettings {
            host: String::from_str(host),
            port,
            database: String::from_str(database),
            user: String::from_str(user),
            password: String::from_str(password),
            trust_cert,
        }
    }

    /// The address to open the connection to.
    pub fn address(&self) -> (address: String)
        ensures
            address@ == address_of(self@.host, self@.port),
    {
        driver_address(self.host.as_str(), self.port)
    }
}

} // verus!
