//! The connection manager: what a pool asks to create a connection, to check
//! that one is alive, and to learn that one is beyond repair.

use crate::errors::{ConnectionError, DatabaseConnectionErrors};
use crate::settings::{DatabaseSettings, DatabaseType, SettingsModel, LAST_RESERVED_PORT};
use vstd::prelude::*;

verus! {

/// The credentials of the root user, with which a network backend is signed
/// in to.
#[derive(Debug)]
pub struct RootCredentials {
    pub username: String,
    pub password: String,
}

/// How one connection is established: open `endpoint`, sign in with
/// `credentials` where there are any, then select `namespace` and
/// `database_name`. A handle that went through all of it is ready for queries.
#[derive(Debug)]
pub struct ConnectionPlan {
    pub endpoint: String,
    pub credentials: Option<RootCredentials>,
    pub namespace: String,
    pub database_name: String,
}

/// The mathematical value of [`RootCredentials`].
#[verifier::ext_equal]
pub struct CredentialsModel {
    pub username: Seq<char>,
    pub password: Seq<char>,
}

/// The mathematical value of a [`ConnectionPlan`].
#[verifier::ext_equal]
pub struct PlanModel {
    pub endpoint: Seq<char>,
    pub credentials: Option<CredentialsModel>,
    pub namespace: Seq<char>,
    pub database_name: Seq<char>,
}

impl View for RootCredentials {
    type V = CredentialsModel;

    open spec fn view(&self) -> CredentialsModel {
        CredentialsModel { username: self.username@, password: self.password@ }
    }
}

impl View for ConnectionPlan {
    type V = PlanModel;

    open spec fn view(&self) -> PlanModel {
        PlanModel {
            endpoint: self.endpoint@,
            credentials: match self.credentials {
                Some(c) => Some(c@),
                None => None,
            },
            namespace: self.namespace@,
            database_name: self.database_name@,
        }
    }
}

impl SettingsModel {
    /// The plan that these settings call for: their endpoint, their namespace
    /// and database name, and the credentials if the backend is a network one.
    pub open spec fn plan(self) -> PlanModel {
        PlanModel {
            endpoint: self.endpoint(),
            credentials: if self.db_type.is_network() {
                Some(CredentialsModel { username: self.username, password: self.password })
            } else {
                None
            },
            namespace: self.namespace,
            database_name: self.database_name,
        }
    }

    /// What an attempt to connect comes to: the first error of the checks, or,
    /// when all pass, the plan.
    pub open spec fn connect_outcome(self) -> Result<PlanModel, DatabaseConnectionErrors> {
        match self.first_error() {
            Some(kind) => Err(kind),
            None => Ok(self.plan()),
        }
    }
}

/// An attempt to connect with an empty namespace fails with
/// `InvalidNamespace`, whatever the other fields hold, and yields no plan: no
/// handle is opened.
pub proof fn lemma_connect_empty_namespace(s: SettingsModel)
    requires
        s.namespace.len() == 0,
    ensures
        s.connect_outcome() == Err::<PlanModel, DatabaseConnectionErrors>(
            DatabaseConnectionErrors::InvalidNamespace,
        ),
{
}

/// An attempt to connect with a namespace and an empty database name fails
/// with `InvalidDatabaseName`.
pub proof fn lemma_connect_empty_database_name(s: SettingsModel)
    requires
        s.namespace.len() > 0,
        s.database_name.len() == 0,
    ensures
        s.connect_outcome() == Err::<PlanModel, DatabaseConnectionErrors>(
            DatabaseConnectionErrors::InvalidDatabaseName,
        ),
{
}

/// An attempt to connect to a network backend, namespace and database name
/// set, fails with the error of the first of host, port, user name and
/// password that is not in order, and succeeds when all four are.
pub proof fn lemma_connect_network(s: SettingsModel)
    requires
        s.namespace.len() > 0,
        s.database_name.len() > 0,
        s.db_type.is_network(),
    ensures
        s.connect_outcome() == (if s.host.len() == 0 {
            Err::<PlanModel, DatabaseConnectionErrors>(DatabaseConnectionErrors::InvalidHost)
        } else if s.port <= LAST_RESERVED_PORT {
            Err(DatabaseConnectionErrors::InvalidPort)
        } else if s.username.len() == 0 {
            Err(DatabaseConnectionErrors::InvalidUsername)
        } else if s.password.len() == 0 {
            Err(DatabaseConnectionErrors::InvalidPassword)
        } else {
            Ok(s.plan())
        }),
{
}

/// An attempt to connect succeeds exactly with valid settings of a backend
/// kind that the manager serves; the plan then carries the namespace and the
/// database name of the settings, and credentials exactly for a network
/// backend.
pub proof fn lemma_connect_succeeds_iff_valid(s: SettingsModel)
    ensures
        s.connect_outcome() is Ok <==> s.is_valid() && s.db_type.is_implemented(),
        s.connect_outcome() matches Ok(plan) ==> {
            &&& plan.namespace == s.namespace
            &&& plan.database_name == s.database_name
            &&& plan.endpoint == s.endpoint()
            &&& plan.credentials is Some <==> s.db_type.is_network()
        },
{
}

/// An attempt to connect fails only with a configuration error or with
/// `NotYetImplemented`.
pub proof fn lemma_connect_error_kinds(s: SettingsModel)
    ensures
        s.connect_outcome() matches Err(kind) ==> kind.is_configuration_error()
            || kind is NotYetImplemented,
{
}

/// The health of a handle, as judged from a probe: the probe's own error is
/// dropped, a failure is always `HealthCheckFailed`.
pub open spec fn probe_verdict<E>(probe: Result<(), E>) -> Result<(), ConnectionError> {
    match probe {
        Ok(_) => Ok(()),
        Err(_) => Err(ConnectionError { error: DatabaseConnectionErrors::HealthCheckFailed }),
    }
}

/// Manages the connections to one backend. It owns the settings and keeps no
/// other state: every call of `connect` decides anew, from the settings alone.
pub struct ConnectionManager {
    settings: DatabaseSettings,
}

impl View for ConnectionManager {
    type V = SettingsModel;

    closed spec fn view(&self) -> SettingsModel {
        self.settings@
    }
}

impl ConnectionManager {
    /// A manager for the backend that `settings` describe. The settings are
    /// taken as they are; they are checked when a connection is attempted.
    pub fn new(settings: DatabaseSettings) -> (manager: Self)
        ensures
            manager@ == settings@,
    {
        ConnectionManager { settings }
    }

    /// The settings that this manager was made with.
    pub fn settings(&self) -> (settings: &DatabaseSettings)
        ensures
            settings@ == self@,
    {
        &self.settings
    }

    /// Decides how a connection is made. The settings are checked first, in
    /// the order namespace, database name, backend kind, and for a network
    /// backend host, port, user name, password; the first check that fails
    /// gives the error and nothing is to be opened. Otherwise the result is
    /// the plan to carry out.
    pub fn connect(&self) -> (outcome: Result<ConnectionPlan, ConnectionError>)
        ensures
            match outcome {
                Ok(plan) => self@.connect_outcome() == Ok::<PlanModel, DatabaseConnectionErrors>(
                    plan@,
                ),
                Err(e) => self@.connect_outcome() == Err::<PlanModel, DatabaseConnectionErrors>(
                    e.error,
                ),
            },
    {
        match self.settings.validate() {
            Err(e) => Err(e),
            Ok(_) => {
                let credentials = match self.settings.db_type {
                    DatabaseType::WebSocket | DatabaseType::WebSocketSecure => Some(
                        RootCredentials {
                            username: self.settings.username.clone(),
                            password: self.settings.password.clone(),
                        },
                    ),
                    _ => None,
                };
                let plan = ConnectionPlan {
                    endpoint: self.settings.endpoint(),
                    credentials,
                    namespace: self.settings.namespace.clone(),
                    database_name: self.settings.database_name.clone(),
                };
                assert(plan@ =~= self@.plan());
                Ok(plan)
            },
        }
    }

    /// Judges the result of a health probe that was sent on a handle: a probe
    /// that came back is success, one that failed, for whatever reason, is
    /// `HealthCheckFailed`.
    pub fn is_valid<E>(&self, probe: Result<(), E>) -> (verdict: Result<(), ConnectionError>)
        ensures
            verdict == probe_verdict(probe),
    {
        match probe {
            Ok(_) => Ok(()),
            Err(_) => Err(ConnectionError { error: DatabaseConnectionErrors::HealthCheckFailed }),
        }
    }

    /// Whether the handle is known to be beyond repair. No handle is ever
    /// reported broken: nothing is probed here, and a pool learns of a dead
    /// handle from `is_valid`.
    pub fn has_broken<C>(&self, _conn: &C) -> (broken: bool)
        ensures
            !broken,
    {
        false
    }
}

} // verus!
