//! The closed command vocabulary and its resolver.

use vstd::prelude::*;
use vstd::string::StrSliceExecFns;

use crate::outcome::CoreError;

verus! {

/// One user command, resolved from a single input token.
#[derive(Debug, Clone, Copy, PartialEq, Eq)]
pub enum Command {
    ReportArtist,
    ReportSong,
    ReportBoth,
    TogglePlayPause,
    Play,
    Pause,
    Stop,
    Next,
    Previous,
    GetVolume,
    RaiseVolume,
    LowerVolume,
}

impl Command {
    /// Commands that report now-playing metadata.
    pub open spec fn is_metadata_command(self) -> bool {
        self == Command::ReportArtist || self == Command::ReportSong || self == Command::ReportBoth
    }

    /// Commands that drive playback on the player.
    pub open spec fn is_playback_command(self) -> bool {
        self == Command::TogglePlayPause || self == Command::Play || self == Command::Pause
            || self == Command::Stop || self == Command::Next || self == Command::Previous
    }

    /// Commands that read or change the player volume.
    pub open spec fn is_volume_command(self) -> bool {
        self == Command::GetVolume || self == Command::RaiseVolume || self == Command::LowerVolume
    }
}

/// Law: every command falls under exactly one of the three dispatch groups,
/// so the dispatcher's branch on the group is total and unambiguous.
pub proof fn lemma_command_kinds_partition(cmd: Command)
    ensures
        cmd.is_metadata_command() || cmd.is_playback_command() || cmd.is_volume_command(),
        cmd.is_metadata_command() ==> !cmd.is_playback_command() && !cmd.is_volume_command(),
        cmd.is_playback_command() ==> !cmd.is_metadata_command() && !cmd.is_volume_command(),
        cmd.is_volume_command() ==> !cmd.is_metadata_command() && !cmd.is_playback_command(),
{
}

/// The fixed, case-sensitive lookup table over the literal vocabulary:
/// the command a token resolves to, or `None` outside the vocabulary.
pub open spec fn spec_resolve(token: Seq<char>) -> Option<Command> {
    if token == "artist"@ {
        Some(Command::ReportArtist)
    } else if token == "song"@ {
        Some(Command::ReportSong)
    } else if token == "both"@ {
        Some(Command::ReportBoth)
    } else if token == "pause_play"@ {
        Some(Command::TogglePlayPause)
    } else if token == "play"@ {
        Some(Command::Play)
    } else if token == "pause"@ {
        Some(Command::Pause)
    } else if token == "stop"@ {
        Some(Command::Stop)
    } else if token == "next"@ {
        Some(Command::Next)
    } else if token == "previous"@ {
        Some(Command::Previous)
    } else if token == "get_volume"@ {
        Some(Command::GetVolume)
    } else if token == "raise_volume"@ {
        Some(Command::RaiseVolume)
    } else if token == "lower_volume"@ {
        Some(Command::LowerVolume)
    } else {
        None
    }
}

/// Character-for-character string equality, decided without assumptions
/// about either argument.
fn str_eq(a: &str, b: &str) -> (r: bool)
    ensures
        r == (a@ == b@),
{
    let a_len = a.unicode_len();
    let b_len = b.unicode_len();
    if a_len != b_len {
        return false;
    }
    let mut i: usize = 0;
    while i < a_len
        invariant
            a_len == a@.len(),
            a_len == b@.len(),
            i <= a_len,
            forall|j: int| 0 <= j < i ==> a@[j] == b@[j],
        decreases a_len - i,
    {
        if a.get_char(i) != b.get_char(i) {
            return false;
        }
        i = i + 1;
    }
    proof {
        assert(a@ =~= b@);
    }
    true
}

/// Resolves one input token against the fixed vocabulary: exact,
/// case-sensitive matching, no aliases, no partial matches. Every token
/// outside the table is rejected with an error carrying that token.
pub fn resolve(token: &str) -> (r: Result<Command, CoreError>)
    ensures
        spec_resolve(token@) matches Some(c) ==> r == Ok::<Command, CoreError>(c),
        spec_resolve(token@) is None ==> (r matches Err(e) && e matches
            CoreError::UnrecognizedCommand(t) && t@ == token@),
{
    if str_eq(token, "artist") {
        Ok(Command::ReportArtist)
    } else if str_eq(token, "song") {
        Ok(Command::ReportSong)
    } else if str_eq(token, "both") {
        Ok(Command::ReportBoth)
    } else if str_eq(token, "pause_play") {
        Ok(Command::TogglePlayPause)
    } else if str_eq(token, "play") {
        Ok(Command::Play)
    } else if str_eq(token, "pause") {
        Ok(Command::Pause)
    } else if str_eq(token, "stop") {
        Ok(Command::Stop)
    } else if str_eq(token, "next") {
        Ok(Command::Next)
    } else if str_eq(token, "previous") {
        Ok(Command::Previous)
    } else if str_eq(token, "get_volume") {
        Ok(Command::GetVolume)
    } else if str_eq(token, "raise_volume") {
        Ok(Command::RaiseVolume)
    } else if str_eq(token, "lower_volume") {
        Ok(Command::LowerVolume)
    } else {
        Err(CoreError::UnrecognizedCommand(token.to_owned()))
    }
}

} // verus!
