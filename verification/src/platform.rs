//! The coarse operating-system category that selects where the database is
//! kept, and the lookup of the per-user data directory.

use std::path::PathBuf;
use vstd::prelude::*;

verus! {

/// `std::path::PathBuf`, carried through as an opaque value.
#[verifier::external_type_specification]
#[verifier::external_body]
pub struct ExPathBuf(std::path::PathBuf);

/// The operating-system categories that have a storage policy of their own.
#[derive(Debug, Clone, Copy, PartialEq, Eq, Structural)]
pub enum Platform {
    /// Keeps per-user data under the roaming application-data directory.
    Windows,
    /// Keeps per-user data under the local share directory.
    Linux,
    /// Any other system: the database lives below the working directory.
    Unknown,
}

/// The platform that an operating-system name stands for.
pub open spec fn platform_of(os: Seq<char>) -> Platform {
    if os == "windows"@ {
        Platform::Windows
    } else if os == "linux"@ {
        Platform::Linux
    } else {
        Platform::Unknown
    }
}

/// Classifies an operating-system name, as `std::env::consts::OS` gives it.
pub fn get_platform(os: &str) -> (platform: Platform)
    ensures
        platform == platform_of(os@),
{
    let name = os.to_owned();
    if name == "windows".to_owned() {
        Platform::Windows
    } else if name == "linux".to_owned() {
        Platform::Linux
    } else {
        Platform::Unknown
    }
}

/// Calls `dirs::data_dir`. The answer depends on the environment of the
/// process, so nothing is claimed about it.
#[verifier::external_body]
fn os_data_dir() -> (root: Option<PathBuf>) {
    dirs::data_dir()
}

/// The per-user data directory, asked of the operating system on the
/// platforms that keep the database there. On any other platform no lookup
/// is made.
pub fn data_root(platform: Platform) -> (root: Option<PathBuf>)
    ensures
        platform is Unknown ==> root is None,
{
    match platform {
        Platform::Windows => os_data_dir(),
        Platform::Linux => os_data_dir(),
        Platform::Unknown => None,
    }
}

} // verus!
