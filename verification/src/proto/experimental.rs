//! Message shapes of the experimental metric-configuration service.
//!
//! Only the shapes live here: the service that matches schedules against
//! metric names and fingerprints configurations is an external collaborator,
//! not part of the bridge.

use vstd::prelude::*;

use crate::proto::resource::Resource;

verus! {

/// A request for the metric configuration of one resource.
pub struct MetricConfigRequest {
    /// The resource whose configuration is asked for
    pub resource: Option<Resource>,
    /// The fingerprint of the last configuration the caller applied; empty
    /// on the first request
    pub last_known_fingerprint: Vec<u8>,
}

/// The configuration returned for one resource.
pub struct MetricConfigResponse {
    /// A deterministic fingerprint of this configuration: the same
    /// configuration yields the same fingerprint on every implementation
    pub fingerprint: Vec<u8>,
    /// The schedules to apply; when a metric matches several, the smallest
    /// period wins
    pub schedules: Vec<Schedule>,
    /// How long the caller is suggested to wait, in seconds, before asking
    /// again
    pub suggested_wait_time_sec: i32,
}

/// A scheduling configuration applied to every metric whose name matches the
/// inclusion patterns and none of the exclusion patterns.
pub struct Schedule {
    /// Metrics matching one of these are never targeted, even when included
    pub exclusion_patterns: Vec<Pattern>,
    /// Metrics matching one of these are targeted
    pub inclusion_patterns: Vec<Pattern>,
    /// The collection period in seconds; zero means do not export
    pub period_sec: i32,
}

/// A light-weight pattern matched against metric names.
pub struct Pattern {
    /// How the pattern matches a metric name, if set
    pub matcher: Option<Match>,
}

/// The ways a [`Pattern`] can match a metric name.
pub enum Match {
    /// Matches the metric name exactly
    Equals(String),
    /// Prefix-matches the metric name
    StartsWith(String),
}

} // verus!
