use vstd::prelude::*;

verus! {

/// One failed login attempt, attributed to an origin host.
///
/// `failure_timestamp` is in minutes since the Unix epoch: cheap, monotonic,
/// and tolerant of clock skew between instances sharing a database.
pub struct Model {
    pub id: i64,
    pub host: String,
    pub failure_timestamp: i64,
}

} // verus!
