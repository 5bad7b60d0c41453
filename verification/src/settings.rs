//! The configuration of one target backend, and the rules that decide whether
//! a connection may be attempted with it.

use crate::errors::{ConnectionError, DatabaseConnectionErrors};
use vstd::prelude::*;

verus! {

/// The backend kinds that an endpoint address can name. The manager serves the
/// in-memory, the file-backed and the two WebSocket kinds; the others are
/// listed so that asking for one is an error at run time and not at build time.
#[derive(Debug, Clone, Copy, PartialEq, Eq, Structural)]
pub enum DatabaseType {
    /// `mem://`
    Memory,
    /// `rocksdb://path/to/database-folder`
    File,
    /// `surrealkv://path/to/database-folder`
    KeyValue,
    /// `ws://localhost:8000`
    WebSocket,
    /// `wss://cloud.surrealdb.com`
    WebSocketSecure,
    /// `http://localhost:8000`
    Http,
    /// `https://cloud.surrealdb.com`
    Https,
    /// `indxdb://DatabaseName`
    Indxdb,
    /// `tikv://localhost:2379`
    TiKV,
    /// `fdb://path/to/fdb.cluster`
    FoundationDB,
}

impl DatabaseType {
    /// The kinds reached over the network, plaintext or secure: they need a
    /// host, a port and credentials.
    pub open spec fn is_network(self) -> bool {
        self is WebSocket || self is WebSocketSecure
    }

    /// The kinds that run inside the process and need neither host nor
    /// credentials.
    pub open spec fn is_embedded(self) -> bool {
        self is Memory || self is File
    }

    /// The kinds that the manager can connect to.
    pub open spec fn is_implemented(self) -> bool {
        self.is_embedded() || self.is_network()
    }
}

/// What describes one backend. Fields that the backend kind does not use are
/// present and ignored.
#[derive(Debug)]
pub struct DatabaseSettings {
    pub db_type: DatabaseType,
    pub username: String,
    pub password: String,
    pub port: u16,
    pub host: String,
    pub path: String,
    pub namespace: String,
    pub database_name: String,
}

/// The mathematical value of a [`DatabaseSettings`]: each string as the
/// sequence of its characters.
#[verifier::ext_equal]
pub struct SettingsModel {
    pub db_type: DatabaseType,
    pub username: Seq<char>,
    pub password: Seq<char>,
    pub port: u16,
    pub host: Seq<char>,
    pub path: Seq<char>,
    pub namespace: Seq<char>,
    pub database_name: Seq<char>,
}

impl View for DatabaseSettings {
    type V = SettingsModel;

    open spec fn view(&self) -> SettingsModel {
        SettingsModel {
            db_type: self.db_type,
            username: self.username@,
            password: self.password@,
            port: self.port,
            host: self.host@,
            path: self.path@,
            namespace: self.namespace@,
            database_name: self.database_name@,
        }
    }
}

/// Ports up to this one are reserved: a network backend must listen above it.
pub const LAST_RESERVED_PORT: u16 = 1024;

impl SettingsModel {
    /// Settings are valid for a connection when namespace and database name
    /// are set and, for a network backend, host, user name and password are set
    /// and the port lies above the reserved range.
    pub open spec fn is_valid(self) -> bool {
        &&& self.namespace.len() > 0
        &&& self.database_name.len() > 0
        &&& self.db_type.is_network() ==> {
            &&& self.host.len() > 0
            &&& self.port > LAST_RESERVED_PORT
            &&& self.username.len() > 0
            &&& self.password.len() > 0
        }
    }

    /// The error of the first check that fails, the checks taken in their
    /// order: namespace, database name, then by backend kind. For a network
    /// backend: host, port, user name, password. For a kind that is not served:
    /// `NotYetImplemented`. `None` when every check passes.
    pub open spec fn first_error(self) -> Option<DatabaseConnectionErrors> {
        if self.namespace.len() == 0 {
            Some(DatabaseConnectionErrors::InvalidNamespace)
        } else if self.database_name.len() == 0 {
            Some(DatabaseConnectionErrors::InvalidDatabaseName)
        } else if self.db_type.is_embedded() {
            None
        } else if !self.db_type.is_network() {
            Some(DatabaseConnectionErrors::NotYetImplemented)
        } else if self.host.len() == 0 {
            Some(DatabaseConnectionErrors::InvalidHost)
        } else if self.port <= LAST_RESERVED_PORT {
            Some(DatabaseConnectionErrors::InvalidPort)
        } else if self.username.len() == 0 {
            Some(DatabaseConnectionErrors::InvalidUsername)
        } else if self.password.len() == 0 {
            Some(DatabaseConnectionErrors::InvalidPassword)
        } else {
            None
        }
    }
}

/// The checks find no error exactly in valid settings of a backend kind that the
/// manager serves.
pub proof fn lemma_no_error_iff_valid(s: SettingsModel)
    ensures
        s.first_error() is None <==> s.is_valid() && s.db_type.is_implemented(),
{
}

/// For a network backend with namespace and database name, the fields are
/// checked in the order host, port, user name, password: each error is
/// reported exactly when its own field fails and every field before it passes.
pub proof fn lemma_network_check_order(s: SettingsModel)
    requires
        s.namespace.len() > 0,
        s.database_name.len() > 0,
        s.db_type.is_network(),
    ensures
        s.first_error() == Some(DatabaseConnectionErrors::InvalidHost) <==> s.host.len() == 0,
        s.first_error() == Some(DatabaseConnectionErrors::InvalidPort) <==> s.host.len() > 0
            && s.port <= LAST_RESERVED_PORT,
        s.first_error() == Some(DatabaseConnectionErrors::InvalidUsername) <==> s.host.len() > 0
            && s.port > LAST_RESERVED_PORT && s.username.len() == 0,
        s.first_error() == Some(DatabaseConnectionErrors::InvalidPassword) <==> s.host.len() > 0
            && s.port > LAST_RESERVED_PORT && s.username.len() > 0 && s.password.len() == 0,
        s.first_error() is None <==> s.host.len() > 0 && s.port > LAST_RESERVED_PORT
            && s.username.len() > 0 && s.password.len() > 0,
{
}

/// With namespace and database name, a backend kind that the manager does not
/// serve is reported as not yet implemented, whatever the other fields hold.
pub proof fn lemma_unserved_backend(s: SettingsModel)
    requires
        s.namespace.len() > 0,
        s.database_name.len() > 0,
        !s.db_type.is_implemented(),
    ensures
        s.first_error() == Some(DatabaseConnectionErrors::NotYetImplemented),
{
}

/// The checks report a configuration error or `NotYetImplemented`, never
/// another kind.
pub proof fn lemma_error_kinds(s: SettingsModel)
    ensures
        s.first_error() matches Some(kind) ==> kind.is_configuration_error()
            || kind is NotYetImplemented,
{
}

impl DatabaseSettings {
    /// Settings for the in-memory backend. Only namespace and database name
    /// are taken; the other fields are empty, the port 0. Nothing is checked
    /// here: an empty namespace is found when a connection is attempted.
    pub fn new_memory_db(namespace: String, database_name: String) -> (settings: Self)
        ensures
            settings@ == (SettingsModel {
                db_type: DatabaseType::Memory,
                username: Seq::empty(),
                password: Seq::empty(),
                port: 0,
                host: Seq::empty(),
                path: Seq::empty(),
                namespace: namespace@,
                database_name: database_name@,
            }),
    {
        DatabaseSettings {
            db_type: DatabaseType::Memory,
            username: String::new(),
            password: String::new(),
            port: 0,
            host: String::new(),
            path: String::new(),
            namespace,
            database_name,
        }
    }

    /// Settings for the file-backed backend at `path`. The other fields are
    /// empty, the port 0. Nothing is checked here.
    pub fn new_file_db(path: String, namespace: String, database_name: String) -> (settings: Self)
        ensures
            settings@ == (SettingsModel {
                db_type: DatabaseType::File,
                username: Seq::empty(),
                password: Seq::empty(),
                port: 0,
                host: Seq::empty(),
                path: path@,
                namespace: namespace@,
                database_name: database_name@,
            }),
    {
        DatabaseSettings {
            db_type: DatabaseType::File,
            username: String::new(),
            password: String::new(),
            port: 0,
            host: String::new(),
            path,
            namespace,
            database_name,
        }
    }

    /// Runs the checks in their order and returns the first error, if any.
    pub fn validate(&self) -> (checked: Result<(), ConnectionError>)
        ensures
            match checked {
                Ok(_) => self@.first_error() is None,
                Err(e) => self@.first_error() == Some(e.error),
            },
    {
        if self.namespace.as_str().is_empty() {
            return Err(ConnectionError { error: DatabaseConnectionErrors::InvalidNamespace });
        }
        if self.database_name.as_str().is_empty() {
            return Err(ConnectionError { error: DatabaseConnectionErrors::InvalidDatabaseName });
        }
        match self.db_type {
            DatabaseType::Memory | DatabaseType::File => Ok(()),
            DatabaseType::WebSocket | DatabaseType::WebSocketSecure => {
                if self.host.as_str().is_empty() {
                    return Err(ConnectionError { error: DatabaseConnectionErrors::InvalidHost });
                }
                if self.port <= LAST_RESERVED_PORT {
                    return Err(ConnectionError { error: DatabaseConnectionErrors::InvalidPort });
                }
                if self.username.as_str().is_empty() {
                    return Err(
                        ConnectionError { error: DatabaseConnectionErrors::InvalidUsername },
                    );
                }
                if self.password.as_str().is_empty() {
                    return Err(
                        ConnectionError { error: DatabaseConnectionErrors::InvalidPassword },
                    );
                }
                Ok(())
            },
            _ => Err(ConnectionError { error: DatabaseConnectionErrors::NotYetImplemented }),
        }
    }
}

} // verus!
