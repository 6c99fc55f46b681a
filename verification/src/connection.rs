//! The two supported strategies for reaching the target device.

use vstd::prelude::*;

verus! {

/// How control of the target device is established: over an adb executable
/// and a device address, or natively, with only an address.  Immutable once
/// constructed; no validation of the contents happens here — malformed
/// values surface only when the engine's connect call is attempted.
#[derive(Clone, Debug)]
pub enum Connection {
    /// Connect through adb: an adb executable path and a device address.
    Adb(String, String),
    /// Native run: only a device address.
    PlayCover(String),
}

impl Connection {
    /// Build an adb connection from an executable path and a device address.
    pub fn adb(path: &str, address: &str) -> (r: Connection)
        ensures
            r matches Connection::Adb(p, a) && p@ == path@ && a@ == address@,
    {
        Connection::Adb(path.to_owned(), address.to_owned())
    }

    /// Build a native connection from a device address alone.
    pub fn playcover(address: &str) -> (r: Connection)
        ensures
            r matches Connection::PlayCover(a) && a@ == address@,
    {
        Connection::PlayCover(address.to_owned())
    }

    /// The adb executable path, present exactly for the adb strategy.
    pub fn adb_path(&self) -> (r: Option<String>)
        ensures
            match self {
                Connection::Adb(p, _) => r matches Some(s) && s@ == p@,
                Connection::PlayCover(_) => r is None,
            },
    {
        match self {
            Connection::Adb(path, _) => Some(path.clone()),
            Connection::PlayCover(_) => None,
        }
    }

    /// The device address, present for both strategies.
    pub fn address(&self) -> (r: Option<String>)
        ensures
            match self {
                Connection::Adb(_, a) => r matches Some(s) && s@ == a@,
                Connection::PlayCover(a) => r matches Some(s) && s@ == a@,
            },
    {
        match self {
            Connection::Adb(_, address) => Some(address.clone()),
            Connection::PlayCover(address) => Some(address.clone()),
        }
    }
}

} // verus!
