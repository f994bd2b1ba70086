//! Configuration of one pool instance: credentials and the connection
//! endpoint, fixed for the life of the process.

use vstd::prelude::*;

verus! {

/// Login credentials, supplied at pool construction; never logged.
#[derive(Debug, Clone)]
pub struct Credentials {
    pub user: String,
    pub password: String,
}

/// Mathematical model of credentials.
pub struct CredentialsModel {
    pub user: Seq<char>,
    pub password: Seq<char>,
}

impl View for Credentials {
    type V = CredentialsModel;

    open spec fn view(&self) -> CredentialsModel {
        CredentialsModel { user: self.user@, password: self.password@ }
    }
}

/// Where and how every session of one pool connects. The server's TLS
/// certificate is validated against `domain`; accepting an invalid
/// certificate is a security-sensitive, explicit opt-in for test
/// deployments, never a silent default.
#[derive(Debug, Clone)]
pub struct ConnectionConfig {
    pub credentials: Credentials,
    pub domain: String,
    pub port: u16,
    pub accept_invalid_certs: bool,
}

/// Mathematical model of a connection configuration.
pub struct ConnectionConfigModel {
    pub credentials: CredentialsModel,
    pub domain: Seq<char>,
    pub port: u16,
    pub accept_invalid_certs: bool,
}

impl View for ConnectionConfig {
    type V = ConnectionConfigModel;

    open spec fn view(&self) -> ConnectionConfigModel {
        ConnectionConfigModel {
            credentials: self.credentials@,
            domain: self.domain@,
            port: self.port,
            accept_invalid_certs: self.accept_invalid_certs,
        }
    }
}

/// Process configuration: the mail server endpoint, the account, and the
/// port this service itself listens on. Filled from the environment by the
/// calling layer.
#[derive(Debug, Clone)]
pub struct Config {
    pub server_url: String,
    pub server_port: u16,
    pub user: String,
    pub password: String,
    pub port: u16,
}

/// Mathematical model of the process configuration.
pub struct ConfigModel {
    pub server_url: Seq<char>,
    pub server_port: u16,
    pub user: Seq<char>,
    pub password: Seq<char>,
    pub port: u16,
}

impl View for Config {
    type V = ConfigModel;

    open spec fn view(&self) -> ConfigModel {
        ConfigModel {
            server_url: self.server_url@,
            server_port: self.server_port,
            user: self.user@,
            password: self.password@,
            port: self.port,
        }
    }
}

impl Config {
    /// The connection configuration the pool is built with: the configured
    /// server endpoint and account, with strict certificate validation.
    pub fn connection_config(&self) -> (c: ConnectionConfig)
        ensures
            c@.credentials.user == self@.user,
            c@.credentials.password == self@.password,
            c@.domain == self@.server_url,
            c@.port == self@.server_port,
            !c@.accept_invalid_certs,
    {
        ConnectionConfig {
            credentials: Credentials {
                user: self.user.clone(),
                password: self.password.clone(),
            },
            domain: self.server_url.clone(),
            port: self.server_port,
            accept_invalid_certs: false,
        }
    }
}

} // verus!
