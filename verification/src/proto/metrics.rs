//! Metric signal record shapes.
//!
//! Only the integer-valued metric shapes are modelled here: floating-point
//! payload values cannot be carried through verified code, and the bridge
//! never inspects a metric's numbers in any case.

use vstd::prelude::*;

use crate::proto::common::{InstrumentationLibrary, StringKeyValue};
use crate::proto::resource::Resource;

verus! {

/// A collection of [`InstrumentationLibraryMetrics`] from one [`Resource`].
pub struct ResourceMetrics {
    /// The resource the metrics originate from; unset when unknown
    pub resource: Option<Resource>,
    /// The per-library batches of metrics
    pub instrumentation_library_metrics: Vec<InstrumentationLibraryMetrics>,
}

/// A collection of metrics produced by one instrumentation library.
pub struct InstrumentationLibraryMetrics {
    /// The producing library; unset means an unknown library
    pub instrumentation_library: Option<InstrumentationLibrary>,
    /// The metrics themselves
    pub metrics: Vec<Metric>,
}

/// A metric with one or more timeseries: a name, description and unit,
/// together with the data points of one aggregation shape.
pub struct Metric {
    /// The metric's unique name
    pub name: String,
    /// A description for documentation
    pub description: String,
    /// The unit the value is reported in
    pub unit: String,
    /// The aggregation shape and its data points, if set
    pub data: Option<Data>,
}

/// The aggregation shape of a metric's data points.
pub enum Data {
    /// Current-value points with unknown aggregation
    IntGauge(IntGauge),
    /// Points summed over a time interval
    IntSum(IntSum),
}

/// A gauge of integer data points: each point carries the current value at
/// its moment, with no aggregation across points.
pub struct IntGauge {
    /// The gauge's data points
    pub data_points: Vec<IntDataPoint>,
}

/// A sum of integer measurements over a time interval.
pub struct IntSum {
    /// The sum's data points
    pub data_points: Vec<IntDataPoint>,
    /// How reported values relate to the interval, as the wire value of an
    /// [`AggregationTemporality`]
    pub aggregation_temporality: i32,
    /// Whether the sum is monotonic
    pub is_monotonic: bool,
}

/// A single integer data point in a timeseries.
pub struct IntDataPoint {
    /// The labels that identify this timeseries
    pub labels: Vec<StringKeyValue>,
    /// When the aggregation was last reset to zero, in nanoseconds since the
    /// UNIX epoch; zero when unspecified
    pub start_time_unix_nano: u64,
    /// When this value was reported, in nanoseconds since the UNIX epoch
    pub time_unix_nano: u64,
    /// The value itself
    pub value: i64,
    /// Sample measurements that went into this point
    pub exemplars: Vec<IntExemplar>,
}

/// A sample integer measurement recorded alongside an aggregation, with the
/// environment it was taken in.
pub struct IntExemplar {
    /// Labels the aggregator filtered out but recorded here
    pub filtered_labels: Vec<StringKeyValue>,
    /// When the exemplar was recorded, in nanoseconds since the UNIX epoch
    pub time_unix_nano: u64,
    /// The measured value
    pub value: i64,
    /// Span identifier of the exemplar's trace; empty when unsampled
    pub span_id: Vec<u8>,
    /// Trace identifier of the exemplar's trace; empty when unsampled
    pub trace_id: Vec<u8>,
}

/// How a metric aggregator's reported values relate to the time interval
/// they are aggregated over. Each variant stands for one wire value, given
/// by [`AggregationTemporality::code`].
#[derive(Clone, Copy, PartialEq, Eq, Structural)]
pub enum AggregationTemporality {
    /// The default value; must not be used
    Unspecified,
    /// Values report changes since the last report time
    Delta,
    /// Values report changes since a fixed start time
    Cumulative,
}

/// The wire value of each temporality.
pub open spec fn aggregation_temporality_code(t: AggregationTemporality) -> i32 {
    match t {
        AggregationTemporality::Unspecified => 0,
        AggregationTemporality::Delta => 1,
        AggregationTemporality::Cumulative => 2,
    }
}

impl AggregationTemporality {
    /// The wire value carried in [`IntSum::aggregation_temporality`].
    pub fn code(&self) -> (c: i32)
        ensures
            c == aggregation_temporality_code(*self),
    {
        match self {
            AggregationTemporality::Unspecified => 0,
            AggregationTemporality::Delta => 1,
            AggregationTemporality::Cumulative => 2,
        }
    }
}

} // verus!
