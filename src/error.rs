//! Why one raw message could not be decoded.

use vstd::prelude::*;

verus! {

/// The reason a single raw message was rejected. Each one concerns that message
/// alone: the messages after it are decoded as usual.
#[derive(Debug, PartialEq, Eq)]
pub enum DecodeError {
    /// An observation without its timestamp.
    MissingTimestamp,
    /// An observation without its battery voltage.
    MissingBatteryVoltage,
    /// An observation without its report interval.
    MissingReportInterval,
    /// An observation whose precipitation type is none of the known codes.
    UnrecognizedPrecipType { code: i64 },
    /// A hub status whose reset flags hold a label that is none of the known ones.
    UnrecognizedResetFlag { label: String },
}

} // verus!
