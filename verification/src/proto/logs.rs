//! Log signal record shapes.

use vstd::prelude::*;

use crate::proto::common::{AnyValue, InstrumentationLibrary, KeyValue};
use crate::proto::resource::Resource;

verus! {

/// A collection of [`InstrumentationLibraryLogs`] from one [`Resource`].
pub struct ResourceLogs {
    /// The resource the logs originate from; unset when unknown
    pub resource: Option<Resource>,
    /// The per-library batches of log records
    pub instrumentation_library_logs: Vec<InstrumentationLibraryLogs>,
}

/// A collection of log records produced by one instrumentation library.
pub struct InstrumentationLibraryLogs {
    /// The producing library; unset means an unknown library
    pub instrumentation_library: Option<InstrumentationLibrary>,
    /// The log records themselves
    pub logs: Vec<LogRecord>,
}

/// A single log record.
pub struct LogRecord {
    /// When the event occurred, in nanoseconds since the UNIX epoch; zero
    /// when unknown
    pub time_unix_nano: u64,
    /// Numerical severity, normalised to the values of [`SeverityNumber`]
    pub severity_number: i32,
    /// The severity text (log level) as known at the source
    pub severity_text: String,
    /// Short event identifier without varying parts
    pub name: String,
    /// The body of the record, free-form or structured
    pub body: Option<AnyValue>,
    /// Attributes describing this specific occurrence
    pub attributes: Vec<KeyValue>,
    /// How many attributes were dropped before export
    pub dropped_attributes_count: u32,
    /// Bit field whose 8 least significant bits are the trace flags
    pub flags: u32,
    /// 16-byte trace identifier; all zeroes or empty when unset
    pub trace_id: Vec<u8>,
    /// 8-byte span identifier; all zeroes or empty when unset
    pub span_id: Vec<u8>,
}

/// The normalised severity of a [`LogRecord`]. Each variant stands for one
/// wire value, given by [`SeverityNumber::code`].
#[derive(Clone, Copy, PartialEq, Eq, Structural)]
pub enum SeverityNumber {
    /// The default value; must not be used
    Unspecified,
    /// Trace-level severity
    Trace,
    /// Trace-level severity, second rank
    Trace2,
    /// Trace-level severity, third rank
    Trace3,
    /// Trace-level severity, fourth rank
    Trace4,
    /// Debug-level severity
    Debug,
    /// Debug-level severity, second rank
    Debug2,
    /// Debug-level severity, third rank
    Debug3,
    /// Debug-level severity, fourth rank
    Debug4,
    /// Info-level severity
    Info,
    /// Info-level severity, second rank
    Info2,
    /// Info-level severity, third rank
    Info3,
    /// Info-level severity, fourth rank
    Info4,
    /// Warn-level severity
    Warn,
    /// Warn-level severity, second rank
    Warn2,
    /// Warn-level severity, third rank
    Warn3,
    /// Warn-level severity, fourth rank
    Warn4,
    /// Error-level severity
    Error,
    /// Error-level severity, second rank
    Error2,
    /// Error-level severity, third rank
    Error3,
    /// Error-level severity, fourth rank
    Error4,
    /// Fatal-level severity
    Fatal,
    /// Fatal-level severity, second rank
    Fatal2,
    /// Fatal-level severity, third rank
    Fatal3,
    /// Fatal-level severity, fourth rank
    Fatal4,
}

/// The wire value of each severity.
pub open spec fn severity_number_code(s: SeverityNumber) -> i32 {
    match s {
        SeverityNumber::Unspecified => 0,
        SeverityNumber::Trace => 1,
        SeverityNumber::Trace2 => 2,
        SeverityNumber::Trace3 => 3,
        SeverityNumber::Trace4 => 4,
        SeverityNumber::Debug => 5,
        SeverityNumber::Debug2 => 6,
        SeverityNumber::Debug3 => 7,
        SeverityNumber::Debug4 => 8,
        SeverityNumber::Info => 9,
        SeverityNumber::Info2 => 10,
        SeverityNumber::Info3 => 11,
        SeverityNumber::Info4 => 12,
        SeverityNumber::Warn => 13,
        SeverityNumber::Warn2 => 14,
        SeverityNumber::Warn3 => 15,
        SeverityNumber::Warn4 => 16,
        SeverityNumber::Error => 17,
        SeverityNumber::Error2 => 18,
        SeverityNumber::Error3 => 19,
        SeverityNumber::Error4 => 20,
        SeverityNumber::Fatal => 21,
        SeverityNumber::Fatal2 => 22,
        SeverityNumber::Fatal3 => 23,
        SeverityNumber::Fatal4 => 24,
    }
}

impl SeverityNumber {
    /// The wire value carried in [`LogRecord::severity_number`].
    pub fn code(&self) -> (c: i32)
        ensures
            c == severity_number_code(*self),
    {
        match self {
            SeverityNumber::Unspecified => 0,
            SeverityNumber::Trace => 1,
            SeverityNumber::Trace2 => 2,
            SeverityNumber::Trace3 => 3,
            SeverityNumber::Trace4 => 4,
            SeverityNumber::Debug => 5,
            SeverityNumber::Debug2 => 6,
            SeverityNumber::Debug3 => 7,
            SeverityNumber::Debug4 => 8,
            SeverityNumber::Info => 9,
            SeverityNumber::Info2 => 10,
            SeverityNumber::Info3 => 11,
            SeverityNumber::Info4 => 12,
            SeverityNumber::Warn => 13,
            SeverityNumber::Warn2 => 14,
            SeverityNumber::Warn3 => 15,
            SeverityNumber::Warn4 => 16,
            SeverityNumber::Error => 17,
            SeverityNumber::Error2 => 18,
            SeverityNumber::Error3 => 19,
            SeverityNumber::Error4 => 20,
            SeverityNumber::Fatal => 21,
            SeverityNumber::Fatal2 => 22,
            SeverityNumber::Fatal3 => 23,
            SeverityNumber::Fatal4 => 24,
        }
    }
}

/// Masks for the [`LogRecord::flags`] bit field. Each variant stands for one
/// wire value, given by [`LogRecordFlags::code`].
#[derive(Clone, Copy, PartialEq, Eq, Structural)]
pub enum LogRecordFlags {
    /// The default, empty mask
    LogRecordFlagUnspecified,
    /// Mask selecting the 8 trace-flag bits
    LogRecordFlagTraceFlagsMask,
}

/// The wire value of each flags mask.
pub open spec fn log_record_flags_code(f: LogRecordFlags) -> u32 {
    match f {
        LogRecordFlags::LogRecordFlagUnspecified => 0,
        LogRecordFlags::LogRecordFlagTraceFlagsMask => 255,
    }
}

impl LogRecordFlags {
    /// The mask's numeric value, applied to [`LogRecord::flags`].
    pub fn code(&self) -> (c: u32)
        ensures
            c == log_record_flags_code(*self),
    {
        match self {
            LogRecordFlags::LogRecordFlagUnspecified => 0,
            LogRecordFlags::LogRecordFlagTraceFlagsMask => 255,
        }
    }
}

} // verus!
