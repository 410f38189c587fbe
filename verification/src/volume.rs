//! Volume policy: reading the level for display and the raise/lower step.
//!
//! The player reports its volume as a fraction of full scale. This crate
//! works on that fraction in thousandths of full scale, so a level of
//! `837` thousandths is 83.7% and prints as `83.7`; the surrounding
//! program converts between the bus's fractional value and thousandths.
//!
//! The clamp direction of the raise and lower steps is deliberate and
//! documented: raising clamps the proposed level with *max against the
//! ceiling*, so every proposed level below full scale is replaced by full
//! scale, and lowering clamps with *min against the floor*, so every
//! proposed level above silence is replaced by silence. Raising therefore
//! snaps the volume to 100% and lowering snaps it to 0%; the usual
//! `min`/`max` roles would have to be swapped to get a gradual 5% step.

use vstd::prelude::*;
use vstd::string::StringExecFns;

use crate::command::Command;
use crate::outcome::CoreError;

verus! {

/// One volume step, in thousandths of full scale: 5% of full volume.
pub const VOLUME_STEP: i64 = 50;

/// Full scale, in thousandths: 100% volume.
pub const FULL_VOLUME: i64 = 1000;

/// Silence, in thousandths: 0% volume.
pub const SILENT: i64 = 0;

/// The digit character for one value below ten.
pub open spec fn spec_digit_char(d: nat) -> char
    recommends
        d < 10,
{
    if d == 0 {
        '0'
    } else if d == 1 {
        '1'
    } else if d == 2 {
        '2'
    } else if d == 3 {
        '3'
    } else if d == 4 {
        '4'
    } else if d == 5 {
        '5'
    } else if d == 6 {
        '6'
    } else if d == 7 {
        '7'
    } else if d == 8 {
        '8'
    } else {
        '9'
    }
}

/// The decimal digits of `n`, most significant first, without leading
/// zeros (a single `'0'` for zero itself).
pub open spec fn spec_decimal_digits(n: nat) -> Seq<char>
    decreases n,
{
    if n < 10 {
        seq![spec_digit_char(n)]
    } else {
        spec_decimal_digits(n / 10).push(spec_digit_char(n % 10))
    }
}

/// How a volume of `n` thousandths of full scale is displayed: the level
/// scaled to the 0 to 100 range with exactly one fractional digit.
pub open spec fn spec_volume_display(n: nat) -> Seq<char> {
    spec_decimal_digits(n / 10) + seq!['.'] + seq![spec_digit_char(n % 10)]
}

/// The single-character string for one digit.
fn digit_str(d: u64) -> (s: &'static str)
    requires
        d < 10,
    ensures
        s@ =~= seq![spec_digit_char(d as nat)],
{
    proof {
        reveal_strlit("0");
        reveal_strlit("1");
        reveal_strlit("2");
        reveal_strlit("3");
        reveal_strlit("4");
        reveal_strlit("5");
        reveal_strlit("6");
        reveal_strlit("7");
        reveal_strlit("8");
        reveal_strlit("9");
    }
    if d == 0 {
        "0"
    } else if d == 1 {
        "1"
    } else if d == 2 {
        "2"
    } else if d == 3 {
        "3"
    } else if d == 4 {
        "4"
    } else if d == 5 {
        "5"
    } else if d == 6 {
        "6"
    } else if d == 7 {
        "7"
    } else if d == 8 {
        "8"
    } else {
        "9"
    }
}

/// Renders `n` in decimal, most significant digit first.
fn decimal_string(n: u64) -> (s: String)
    ensures
        s@ == spec_decimal_digits(n as nat),
    decreases n,
{
    if n < 10 {
        let s = digit_str(n).to_owned();
        proof {
            assert(s@ =~= spec_decimal_digits(n as nat));
        }
        s
    } else {
        let mut s = decimal_string(n / 10);
        s.append(digit_str(n % 10));
        proof {
            assert(s@ =~= spec_decimal_digits(n as nat));
        }
        s
    }
}

/// Formats a volume of `level` thousandths of full scale for display:
/// scaled to 0 to 100 with one fractional digit, so `837` prints as `83.7`.
pub fn volume_display(level: i64) -> (s: String)
    requires
        0 <= level,
    ensures
        s@ == spec_volume_display(level as nat),
{
    let n = level as u64;
    let mut s = decimal_string(n / 10);
    s.append(".");
    s.append(digit_str(n % 10));
    proof {
        reveal_strlit(".");
        assert(s@ =~= spec_volume_display(level as nat));
    }
    s
}

/// The level written back by a raise: one step up, then clamped with max
/// against the ceiling, so every proposed level below full scale becomes
/// full scale and only levels already at or above full scale pass through.
pub open spec fn spec_raised_volume(current: int) -> int {
    let proposed = current + VOLUME_STEP;
    if proposed >= FULL_VOLUME {
        proposed
    } else {
        FULL_VOLUME as int
    }
}

/// The level written back by a lower: one step down, then clamped with min
/// against the floor, so every proposed level above silence becomes silence
/// and only levels already at or below silence pass through.
pub open spec fn spec_lowered_volume(current: int) -> int {
    let proposed = current - VOLUME_STEP;
    if proposed <= SILENT {
        proposed
    } else {
        SILENT as int
    }
}

/// What a volume command does, for the surrounding program to carry out:
/// print the line, or write the level (in thousandths) back to the player.
#[derive(Debug, PartialEq, Eq)]
pub enum VolumeAction {
    /// Print this line on standard output.
    Print(String),
    /// Write this level back to the player.
    SetVolume(i64),
}

/// Decides what a volume command does with the current level (in
/// thousandths of full scale): display it, or step it and write the
/// clamped result back. See the module note on the clamp direction.
pub fn player_volume(cmd: &Command, current: i64) -> (action: VolumeAction)
    requires
        cmd.is_volume_command(),
        *cmd == Command::GetVolume ==> 0 <= current,
        *cmd == Command::RaiseVolume ==> current <= i64::MAX - VOLUME_STEP,
        *cmd == Command::LowerVolume ==> i64::MIN + VOLUME_STEP <= current,
    ensures
        *cmd == Command::GetVolume ==> (action matches VolumeAction::Print(s) && s@
            == spec_volume_display(current as nat)),
        *cmd == Command::RaiseVolume ==> (action matches VolumeAction::SetVolume(v) && v
            == spec_raised_volume(current as int)),
        *cmd == Command::LowerVolume ==> (action matches VolumeAction::SetVolume(v) && v
            == spec_lowered_volume(current as int)),
{
    match cmd {
        Command::GetVolume => VolumeAction::Print(volume_display(current)),
        Command::RaiseVolume => {
            let proposed = current + VOLUME_STEP;
            if proposed >= FULL_VOLUME {
                VolumeAction::SetVolume(proposed)
            } else {
                VolumeAction::SetVolume(FULL_VOLUME)
            }
        },
        Command::LowerVolume => {
            let proposed = current - VOLUME_STEP;
            if proposed <= SILENT {
                VolumeAction::SetVolume(proposed)
            } else {
                VolumeAction::SetVolume(SILENT)
            }
        },
        _ => vstd::pervasive::unreached(),
    }
}

/// The outcome of writing a level back: the player's rejection surfaces
/// unchanged as [`CoreError::VolumeWriteFailed`].
pub fn volume_write_outcome(accepted: bool) -> (r: Result<(), CoreError>)
    ensures
        accepted ==> r == Ok::<(), CoreError>(()),
        !accepted ==> r == Err::<(), CoreError>(CoreError::VolumeWriteFailed),
{
    if accepted {
        Ok(())
    } else {
        Err(CoreError::VolumeWriteFailed)
    }
}

} // verus!
