//! Player acquisition and playback-control dispatch.
//!
//! The surrounding program performs the bus calls themselves and reports
//! what happened as plain values; the decisions on those values are made
//! and verified here.

use vstd::prelude::*;

use crate::command::Command;
use crate::outcome::CoreError;

verus! {

/// One transport operation on the player, named so the surrounding program
/// knows which facade call to make.
#[derive(Debug, Clone, Copy, PartialEq, Eq)]
pub enum PlayerOp {
    PlayPause,
    Play,
    Pause,
    Stop,
    Next,
    Previous,
}

/// The transport operation each playback command performs.
pub open spec fn spec_playback_operation(cmd: Command) -> PlayerOp
    recommends
        cmd.is_playback_command(),
{
    match cmd {
        Command::TogglePlayPause => PlayerOp::PlayPause,
        Command::Play => PlayerOp::Play,
        Command::Pause => PlayerOp::Pause,
        Command::Stop => PlayerOp::Stop,
        Command::Next => PlayerOp::Next,
        Command::Previous => PlayerOp::Previous,
        _ => PlayerOp::PlayPause,
    }
}

/// Picks the single transport operation that `cmd` performs on the player.
pub fn playback_operation(cmd: &Command) -> (op: PlayerOp)
    requires
        cmd.is_playback_command(),
    ensures
        op == spec_playback_operation(*cmd),
{
    match cmd {
        Command::TogglePlayPause => PlayerOp::PlayPause,
        Command::Play => PlayerOp::Play,
        Command::Pause => PlayerOp::Pause,
        Command::Stop => PlayerOp::Stop,
        Command::Next => PlayerOp::Next,
        Command::Previous => PlayerOp::Previous,
        _ => vstd::pervasive::unreached(),
    }
}

/// The outcome of one playback interaction: nothing on success (a playback
/// command prints no line), and the player's rejection of the operation
/// surfaced unchanged as [`CoreError::UnsupportedOperation`].
///
/// `accepted` is whether the player accepted the operation that
/// [`playback_operation`] picked for `cmd`.
#[allow(unused_variables)]
pub fn interact_with_player(cmd: &Command, accepted: bool) -> (r: Result<(), CoreError>)
    requires
        cmd.is_playback_command(),
    ensures
        accepted ==> r == Ok::<(), CoreError>(()),
        !accepted ==> r == Err::<(), CoreError>(CoreError::UnsupportedOperation),
{
    if accepted {
        Ok(())
    } else {
        Err(CoreError::UnsupportedOperation)
    }
}

/// The outcome of acquiring the active player: the two acquisition failures
/// stay distinct, a bus that cannot be reached from a bus with no active
/// player.
pub open spec fn spec_get_player(connected: bool, found: bool) -> Result<(), CoreError> {
    if !connected {
        Err(CoreError::NoBusConnection)
    } else if !found {
        Err(CoreError::NoActivePlayer)
    } else {
        Ok(())
    }
}

/// Decides how player acquisition went: `connected` is whether the control
/// bus could be reached at all, `found` whether an active player was
/// registered on it (meaningful only when `connected` holds).
pub fn get_player(connected: bool, found: bool) -> (r: Result<(), CoreError>)
    ensures
        r == spec_get_player(connected, found),
{
    if !connected {
        Err(CoreError::NoBusConnection)
    } else if !found {
        Err(CoreError::NoActivePlayer)
    } else {
        Ok(())
    }
}

/// Law: an unreachable bus and a missing player are distinguishable
/// outcomes; the two distinct facade failures never collapse into one.
pub proof fn lemma_player_failures_distinguishable(found: bool)
    ensures
        spec_get_player(false, found) == Err::<(), CoreError>(CoreError::NoBusConnection),
        spec_get_player(true, false) == Err::<(), CoreError>(CoreError::NoActivePlayer),
        spec_get_player(false, found) != spec_get_player(true, false),
{
}

} // verus!
