//! The failure taxonomy of one invocation, and its mapping onto the four
//! outcome classes that the surrounding process distinguishes.

use vstd::prelude::*;

verus! {

/// Everything that can go wrong while resolving and dispatching one command.
///
/// A player that is active but reports no usable track data is not an error:
/// that case is the success-shaped [`crate::report::ReportOutcome::EmptyMetadata`].
#[derive(Debug, PartialEq, Eq)]
pub enum CoreError {
    /// The input token is outside the fixed vocabulary; carries that token.
    UnrecognizedCommand(String),
    /// The control bus itself is unreachable.
    NoBusConnection,
    /// The bus is reachable but no player is registered and active.
    NoActivePlayer,
    /// A metadata field was absent although the presence flag was set:
    /// an internal-consistency failure of the player, reported loudly.
    MetadataFieldMissing,
    /// The player rejected the requested transport or volume operation.
    UnsupportedOperation,
    /// The player rejected the volume value written back to it.
    VolumeWriteFailed,
}

/// The four outcome classes the surrounding process can distinguish.
/// How they map onto process exit codes is the caller's policy.
#[derive(Debug, Clone, Copy, PartialEq, Eq)]
pub enum Outcome {
    Success,
    UnrecognizedCommand,
    PlayerUnavailable,
    OperationFailed,
}

/// The outcome class of each failure.
pub open spec fn spec_outcome_class(e: CoreError) -> Outcome {
    match e {
        CoreError::UnrecognizedCommand(_) => Outcome::UnrecognizedCommand,
        CoreError::NoBusConnection => Outcome::PlayerUnavailable,
        CoreError::NoActivePlayer => Outcome::PlayerUnavailable,
        CoreError::MetadataFieldMissing => Outcome::OperationFailed,
        CoreError::UnsupportedOperation => Outcome::OperationFailed,
        CoreError::VolumeWriteFailed => Outcome::OperationFailed,
    }
}

/// Classifies a failure for the surrounding process; a run without a failure
/// is [`Outcome::Success`].
pub fn outcome_class(e: &CoreError) -> (o: Outcome)
    ensures
        o == spec_outcome_class(*e),
{
    match e {
        CoreError::UnrecognizedCommand(_) => Outcome::UnrecognizedCommand,
        CoreError::NoBusConnection => Outcome::PlayerUnavailable,
        CoreError::NoActivePlayer => Outcome::PlayerUnavailable,
        CoreError::MetadataFieldMissing => Outcome::OperationFailed,
        CoreError::UnsupportedOperation => Outcome::OperationFailed,
        CoreError::VolumeWriteFailed => Outcome::OperationFailed,
    }
}

} // verus!
