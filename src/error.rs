//! Failures of metric production.
use vstd::prelude::*;

verus! {

/// A failure during sled metric production.
#[derive(Clone, Debug, PartialEq, Eq)]
pub enum Error {
    /// The kernel-statistics sampler failed, or is not available here.
    Kstat(String),
    /// The metric producer could not be inserted into the registry.
    Registry(String),
    /// The hostname could not be fetched.
    Hostname(String),
    /// The hostname is not valid UTF-8.
    NonUtf8Hostname,
    /// The hostname buffer holds no NUL byte.
    HostnameMissingNull,
}

/// What the unsupported-platform failure says.
pub open spec fn unsupported_message() -> Seq<char> {
    "kstat metrics are not supported on this platform"@
}

/// Whether `e` is the failure of kstat-based tracking on a platform without kstats.
pub open spec fn is_unsupported(e: Error) -> bool {
    match e {
        Error::Kstat(m) => m@ == unsupported_message(),
        _ => false,
    }
}

/// The failure of kstat-based tracking on a platform without kstats.
pub fn unsupported() -> (e: Error)
    ensures
        is_unsupported(e),
{
    Error::Kstat(String::from_str("kstat metrics are not supported on this platform"))
}

/// The sampler's outcome, with its failure as a kstat error.
pub fn kstat_result(outcome: Result<(), String>) -> (r: Result<(), Error>)
    ensures
        outcome is Ok ==> r is Ok,
        forall|m: String| outcome == Err::<(), String>(m) ==> r == Err::<(), Error>(Error::Kstat(m)),
{
    match outcome {
        Ok(()) => Ok(()),
        Err(m) => Err(Error::Kstat(m)),
    }
}

} // verus!
