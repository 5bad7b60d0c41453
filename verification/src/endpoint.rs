//! The address of a backend: a scheme, then a path or a host and a port.

use crate::settings::{DatabaseSettings, DatabaseType, SettingsModel};
use vstd::prelude::*;
use vstd::string::StringExecFns;

verus! {

/// The character of a decimal digit.
pub open spec fn digit_char(d: nat) -> char
    recommends
        d < 10,
{
    if d == 0 {
        '0'
    } else if d == 1 {
        '1'
    } else if d == 2 {
        '2'
    } else if d == 3 {
        '3'
    } else if d == 4 {
        '4'
    } else if d == 5 {
        '5'
    } else if d == 6 {
        '6'
    } else if d == 7 {
        '7'
    } else if d == 8 {
        '8'
    } else {
        '9'
    }
}

/// A number in decimal, most significant digit first, without leading zeros;
/// zero is the one digit `0`.
pub open spec fn decimal(n: nat) -> Seq<char>
    decreases n,
{
    if n < 10 {
        seq![digit_char(n)]
    } else {
        decimal(n / 10).push(digit_char(n % 10))
    }
}

/// The scheme that an address of this backend kind starts with; empty for a
/// kind that the manager does not serve.
pub open spec fn scheme(db_type: DatabaseType) -> Seq<char> {
    match db_type {
        DatabaseType::Memory => "mem://"@,
        DatabaseType::File => "rocksdb://"@,
        DatabaseType::WebSocket => "ws://"@,
        DatabaseType::WebSocketSecure => "wss://"@,
        _ => Seq::empty(),
    }
}

impl SettingsModel {
    /// The address at which the backend is opened: the scheme alone for the
    /// in-memory backend, scheme and path for the file-backed one, and scheme,
    /// host, a colon and the port in decimal for a network backend.
    pub open spec fn endpoint(self) -> Seq<char> {
        match self.db_type {
            DatabaseType::Memory => scheme(self.db_type),
            DatabaseType::File => scheme(self.db_type) + self.path,
            DatabaseType::WebSocket | DatabaseType::WebSocketSecure => scheme(self.db_type)
                + self.host + seq![':'] + decimal(self.port as nat),
            _ => Seq::empty(),
        }
    }
}

/// One decimal digit as a string.
fn digit_str(d: u16) -> (s: &'static str)
    requires
        d < 10,
    ensures
        s@ == seq![digit_char(d as nat)],
{
    proof {
        reveal_strlit("0");
        reveal_strlit("1");
        reveal_strlit("2");
        reveal_strlit("3");
        reveal_strlit("4");
        reveal_strlit("5");
        reveal_strlit("6");
        reveal_strlit("7");
        reveal_strlit("8");
        reveal_strlit("9");
    }
    let s = if d == 0 {
        "0"
    } else if d == 1 {
        "1"
    } else if d == 2 {
        "2"
    } else if d == 3 {
        "3"
    } else if d == 4 {
        "4"
    } else if d == 5 {
        "5"
    } else if d == 6 {
        "6"
    } else if d == 7 {
        "7"
    } else if d == 8 {
        "8"
    } else {
        "9"
    };
    assert(s@ =~= seq![digit_char(d as nat)]);
    s
}

/// Appends `n` in decimal to `out`.
pub fn push_decimal(out: &mut String, n: u16)
    ensures
        final(out)@ == old(out)@ + decimal(n as nat),
    decreases n,
{
    if n >= 10 {
        push_decimal(out, n / 10);
    }
    out.append(digit_str(n % 10));
    assert(out@ =~= old(out)@ + decimal(n as nat));
}

impl DatabaseSettings {
    /// The address at which the backend of these settings is opened. For a
    /// backend kind that the manager does not serve it is empty.
    pub fn endpoint(&self) -> (address: String)
        ensures
            address@ == self@.endpoint(),
    {
        match self.db_type {
            DatabaseType::Memory => String::from_str("mem://"),
            DatabaseType::File => {
                let mut address = String::from_str("rocksdb://");
                address.append(self.path.as_str());
                address
            },
            DatabaseType::WebSocket => {
                let mut address = String::from_str("ws://");
                self.push_authority(&mut address);
                address
            },
            DatabaseType::WebSocketSecure => {
                let mut address = String::from_str("wss://");
                self.push_authority(&mut address);
                address
            },
            _ => String::new(),
        }
    }

    /// Appends host, a colon and the port in decimal.
    fn push_authority(&self, out: &mut String)
        ensures
            final(out)@ == old(out)@ + self@.host + seq![':'] + decimal(self@.port as nat),
    {
        proof {
            reveal_strlit(":");
        }
        out.append(self.host.as_str());
        out.append(":");
        assert(":"@ =~= seq![':']);
        push_decimal(out, self.port);
    }
}

} // verus!
