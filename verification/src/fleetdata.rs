//! What is kept of the fleet between runs.

use vstd::prelude::*;
use vstd::string::StringExecFns;

verus! {

/// What is kept of one host.
#[derive(Clone, Debug, PartialEq, Eq)]
pub struct HostData {
    /// The key that secrets for the host are encrypted to, or nothing if
    /// none is known yet.
    pub encryption_key: String,
}

impl Default for HostData {
    fn default() -> (r: HostData)
        ensures
            r.encryption_key@ == Seq::<char>::empty(),
    {
        HostData { encryption_key: String::new() }
    }
}

impl HostData {
    /// Whether there is nothing to keep of the host.
    pub fn is_empty(&self) -> (r: bool)
        ensures
            r == (self.encryption_key@.len() == 0),
    {
        self.encryption_key.as_str().is_empty()
    }
}

/// The version of the kept data that this library reads and writes.
pub open spec fn spec_version() -> Seq<char> {
    "0.1.0"@
}

/// What is said of data of another version.
pub open spec fn spec_version_mismatch(found: Seq<char>) -> Seq<char> {
    "fleet.nix data version mismatch, expected "@ + spec_version() + ", got "@ + found
        + ".\nFollow the docs for migration instruction"@
}

/// The mark of kept data whose version is the one that this library reads.
#[derive(Clone, Copy, Debug, PartialEq, Eq, Structural)]
pub struct FleetDataVersion;

impl FleetDataVersion {
    /// The version, as it is written into the data.
    pub fn as_str(&self) -> (r: &'static str)
        ensures
            r@ == spec_version(),
    {
        "0.1.0"
    }

    /// Checks the version that some data is marked with: it has to be the
    /// one that this library reads, letter for letter.
    pub fn check(version: &str) -> (r: Result<FleetDataVersion, String>)
        ensures
            match r {
                Ok(_) => version@ == spec_version(),
                Err(message) => version@ != spec_version() && message@ == spec_version_mismatch(
                    version@,
                ),
            },
    {
        let found = version.to_owned();
        let expected = "0.1.0".to_owned();
        if found == expected {
            Ok(FleetDataVersion)
        } else {
            Err(
                "fleet.nix data version mismatch, expected ".to_owned().concat("0.1.0").concat(
                    ", got ",
                ).concat(version).concat(".\nFollow the docs for migration instruction"),
            )
        }
    }
}

} // verus!
