//! Error kinds and per-interval diagnostics. A failing interval or hour is
//! reported and the run continues; nothing in the engine aborts a run.

use vstd::prelude::*;

verus! {

/// The kinds of failure a dispatch run can meet. None of them ends the run:
/// each is surfaced for the interval, hour or record it concerns.
#[derive(Clone, Copy, Debug, PartialEq, Eq, Structural)]
pub enum DispatchError {
    /// Demand exceeds the grid limit and the battery cannot cover the
    /// shortfall.
    UnmetDemand,
    /// No price record resolves for an hour that has demand intervals.
    MissingPriceForHour,
    /// An input timestamp failed to parse; the record is skipped.
    MalformedTimestamp,
    /// A discharge asked for more energy than the battery stores.
    InsufficientCapacity,
}

/// Mathematical model of a [`Diagnostic`]: the same shape over sequences of
/// characters.
#[verifier::ext_equal]
pub ghost enum DiagModel {
    UnmetDemand { start: Seq<char>, end: Seq<char>, shortfall_wh: u64 },
    MissingPriceForHour { hour: u32 },
    MalformedTimestamp { start: Seq<char>, end: Seq<char> },
}

/// One structured diagnostic attached to a run's result, carrying the
/// interval, hour or record it concerns.
#[derive(Clone, Debug, PartialEq)]
pub enum Diagnostic {
    /// Demand over the interval `start..end` exceeded the grid limit by
    /// `shortfall_wh` more than the battery could cover; the battery was
    /// left unchanged.
    UnmetDemand { start: String, end: String, shortfall_wh: u64 },
    /// The hour had demand intervals but no price record.
    MissingPriceForHour { hour: u32 },
    /// The record with these timestamps had an unparsable start and was
    /// skipped.
    MalformedTimestamp { start: String, end: String },
}

impl View for Diagnostic {
    type V = DiagModel;

    open spec fn view(&self) -> DiagModel {
        match self {
            Diagnostic::UnmetDemand { start, end, shortfall_wh } => DiagModel::UnmetDemand {
                start: start@,
                end: end@,
                shortfall_wh: *shortfall_wh,
            },
            Diagnostic::MissingPriceForHour { hour } => DiagModel::MissingPriceForHour {
                hour: *hour,
            },
            Diagnostic::MalformedTimestamp { start, end } => DiagModel::MalformedTimestamp {
                start: start@,
                end: end@,
            },
        }
    }
}

} // verus!
