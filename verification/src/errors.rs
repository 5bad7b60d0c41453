//! The closed set of failures that a connection manager reports, each with one
//! fixed message.

use vstd::prelude::*;
use vstd::string::StringExecFns;

verus! {

/// The kinds of failure. Six are configuration errors, found in the settings
/// before anything is opened; `HealthCheckFailed` comes from a failed health
/// probe; `NotYetImplemented` from a backend kind that the manager does not
/// serve; `PoolConnectionError` is raised by callers that cannot obtain the
/// pool itself.
#[derive(Debug, Clone, Copy, PartialEq, Eq, Structural)]
pub enum DatabaseConnectionErrors {
    Default,
    InvalidNamespace,
    InvalidDatabaseName,
    InvalidHost,
    InvalidPort,
    InvalidUsername,
    InvalidPassword,
    HealthCheckFailed,
    NotYetImplemented,
    PoolConnectionError,
}

/// The message of each kind, as the string that holds it.
pub open spec fn message_str(kind: DatabaseConnectionErrors) -> &'static str {
    match kind {
        DatabaseConnectionErrors::Default => "Database error",
        DatabaseConnectionErrors::InvalidNamespace => "Namespace not set error",
        DatabaseConnectionErrors::InvalidDatabaseName => "Database Name not set error",
        DatabaseConnectionErrors::InvalidHost => "Host not set error",
        DatabaseConnectionErrors::InvalidPort => "Port not set error: Port must be greater than 1024",
        DatabaseConnectionErrors::InvalidUsername => "Username not set error",
        DatabaseConnectionErrors::InvalidPassword => "Password not set error",
        DatabaseConnectionErrors::HealthCheckFailed => "Health check failed error",
        DatabaseConnectionErrors::NotYetImplemented => "Connection type not yet implemented error",
        DatabaseConnectionErrors::PoolConnectionError => "Pool connection error",
    }
}

impl DatabaseConnectionErrors {
    /// The message of each kind, as the sequence of its characters.
    pub open spec fn message(self) -> Seq<char> {
        message_str(self)@
    }

    /// True of the six kinds that the settings alone decide.
    pub open spec fn is_configuration_error(self) -> bool {
        ||| self is InvalidNamespace
        ||| self is InvalidDatabaseName
        ||| self is InvalidHost
        ||| self is InvalidPort
        ||| self is InvalidUsername
        ||| self is InvalidPassword
    }

    /// The message of this kind, as a string slice.
    pub fn as_str(&self) -> (s: &str)
        ensures
            s@ == self.message(),
    {
        <&str>::from(self)
    }

    /// The message of this kind: what an error trait object would describe
    /// itself with.
    pub fn description(&self) -> (s: &str)
        ensures
            s@ == self.message(),
    {
        self.as_str()
    }

    /// The display text of each kind: the name of the taxonomy, a colon and a
    /// space, then the message.
    pub open spec fn display_text(self) -> Seq<char> {
        "DatabaseConnectionError: "@ + self.message()
    }

    /// The display string of this kind.
    pub fn to_string(&self) -> (s: String)
        ensures
            s@ == self.display_text(),
    {
        let mut s = String::from_str("DatabaseConnectionError: ");
        s.append(self.as_str());
        s
    }
}

impl<'a> From<&'a DatabaseConnectionErrors> for &'a str {
    fn from(error: &'a DatabaseConnectionErrors) -> (s: &'a str) {
        match error {
            DatabaseConnectionErrors::Default => "Database error",
            DatabaseConnectionErrors::InvalidNamespace => "Namespace not set error",
            DatabaseConnectionErrors::InvalidDatabaseName => "Database Name not set error",
            DatabaseConnectionErrors::InvalidHost => "Host not set error",
            DatabaseConnectionErrors::InvalidPort => {
                "Port not set error: Port must be greater than 1024"
            },
            DatabaseConnectionErrors::InvalidUsername => "Username not set error",
            DatabaseConnectionErrors::InvalidPassword => "Password not set error",
            DatabaseConnectionErrors::HealthCheckFailed => "Health check failed error",
            DatabaseConnectionErrors::NotYetImplemented => {
                "Connection type not yet implemented error"
            },
            DatabaseConnectionErrors::PoolConnectionError => "Pool connection error",
        }
    }
}

impl<'a> vstd::std_specs::convert::FromSpecImpl<&'a DatabaseConnectionErrors> for &'a str {
    open spec fn obeys_from_spec() -> bool {
        true
    }

    open spec fn from_spec(error: &'a DatabaseConnectionErrors) -> &'a str {
        message_str(*error)
    }
}

/// The error type of a connection manager: one kind, nothing else.
#[derive(Debug, Clone, Copy, PartialEq, Eq, Structural)]
pub struct ConnectionError {
    pub error: DatabaseConnectionErrors,
}

impl ConnectionError {
    /// The message of the error: that of its kind.
    pub open spec fn message(self) -> Seq<char> {
        self.error.message()
    }

    /// The message of the error: what an error trait object would describe
    /// itself with.
    pub fn description(&self) -> (s: &str)
        ensures
            s@ == self.message(),
    {
        self.error.as_str()
    }

    /// The display text of the error: the name of the error type, a colon and
    /// a space, then the display text of its kind.
    pub open spec fn display_text(self) -> Seq<char> {
        "ConnectionError: "@ + self.error.display_text()
    }

    /// The display string of the error.
    pub fn to_string(&self) -> (s: String)
        ensures
            s@ == self.display_text(),
    {
        let mut s = String::from_str("ConnectionError: ");
        let kind = self.error.to_string();
        s.append(kind.as_str());
        s
    }
}

/// The display text of an error starts with the name of the error type, ends
/// with the message of its kind, and is the same for two errors of one kind.
pub proof fn lemma_display_text_shape(e: ConnectionError, other: ConnectionError)
    ensures
        "ConnectionError: "@.is_prefix_of(e.display_text()),
        e.error.message().is_suffix_of(e.display_text()),
        e.error.message().is_suffix_of(e.error.display_text()),
        "DatabaseConnectionError: "@.is_prefix_of(e.error.display_text()),
        e.error == other.error ==> e.display_text() == other.display_text(),
{
    let head = "ConnectionError: "@;
    let inner = "DatabaseConnectionError: "@;
    let msg = e.error.message();
    let kind_text = e.error.display_text();
    let text = e.display_text();
    assert(kind_text.subrange(0, inner.len() as int) =~= inner);
    assert(kind_text.subrange(kind_text.len() - msg.len(), kind_text.len() as int) =~= msg);
    assert(text.subrange(0, head.len() as int) =~= head);
    assert(text.subrange(text.len() - msg.len(), text.len() as int) =~= msg);
}

} // verus!
