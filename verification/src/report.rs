//! Now-playing metadata reports: the line a metadata command prints, and the
//! policy for missing or partial track data.

use vstd::prelude::*;
use vstd::string::StringExecFns;

use crate::command::Command;
use crate::outcome::CoreError;

verus! {

/// The playback state of the player, read fresh for every report.
#[derive(Debug, Clone, Copy, PartialEq, Eq)]
pub enum PlaybackStatus {
    Playing,
    Paused,
    Stopped,
}

/// A read-only snapshot of the player's track metadata. Each attribute the
/// player may leave out is optional; `album_artists_present` is the
/// presence flag that decides whether the track data is usable at all.
#[derive(Debug, PartialEq, Eq)]
pub struct TrackMetadata {
    pub title: Option<String>,
    pub artists: Option<Vec<String>>,
    pub album_artists_present: bool,
}

/// What a metadata command produced: a line to print, or nothing.
///
/// A player can report itself active while its metadata is an empty
/// placeholder; printing that would be misleading, so such a report ends as
/// `EmptyMetadata`: a success-shaped outcome with no printed line.
#[derive(Debug, PartialEq, Eq)]
pub enum ReportOutcome {
    /// The single line to print on standard output.
    Line(String),
    /// Nothing usable to report; print no line and end successfully.
    EmptyMetadata,
}

/// The symbol that leads every report line, derived from playback state.
pub open spec fn spec_playback_symbol(status: PlaybackStatus) -> Seq<char> {
    match status {
        PlaybackStatus::Playing => "\u{25b6}"@,
        PlaybackStatus::Paused => "\u{2759}\u{2759}"@,
        PlaybackStatus::Stopped => "\u{25fc}"@,
    }
}

/// The leading status symbol of a report line.
pub fn playback_symbol(status: PlaybackStatus) -> (s: &'static str)
    ensures
        s@ == spec_playback_symbol(status),
{
    match status {
        PlaybackStatus::Playing => "\u{25b6}",
        PlaybackStatus::Paused => "\u{2759}\u{2759}",
        PlaybackStatus::Stopped => "\u{25fc}",
    }
}

/// Whether the snapshot carries everything a report needs: the presence
/// flag, a title, and a non-empty artist list.
pub open spec fn metadata_usable(md: TrackMetadata) -> bool {
    &&& md.album_artists_present
    &&& md.title is Some
    &&& md.artists is Some
    &&& md.artists->0@.len() > 0
}

/// The body of a report for a usable snapshot, without the status symbol:
/// the first artist, the title, or both joined by a dash.
pub open spec fn spec_report_line_plain(cmd: Command, md: TrackMetadata) -> Seq<char>
    recommends
        cmd.is_metadata_command(),
        metadata_usable(md),
{
    if cmd == Command::ReportArtist {
        md.artists->0@[0]@
    } else if cmd == Command::ReportSong {
        md.title->0@
    } else {
        md.artists->0@[0]@ + " - "@ + md.title->0@
    }
}

/// The exact line a metadata command prints for a usable snapshot in the
/// canonical, status-aware form: the status symbol, a space, then the
/// report body.
pub open spec fn spec_report_line(
    cmd: Command,
    md: TrackMetadata,
    status: PlaybackStatus,
) -> Seq<char>
    recommends
        cmd.is_metadata_command(),
        metadata_usable(md),
{
    spec_playback_symbol(status) + " "@ + spec_report_line_plain(cmd, md)
}

/// Builds the line a metadata command prints.
///
/// An absent presence flag means the track data is unusable: the report is
/// the silent [`ReportOutcome::EmptyMetadata`], whatever the other fields
/// hold. After the presence flag passed, a missing title or a missing or
/// empty artist list should not occur; it is defended against as the
/// internal-consistency failure [`CoreError::MetadataFieldMissing`].
pub fn print_player_metadata(
    cmd: &Command,
    md: &TrackMetadata,
    status: PlaybackStatus,
) -> (r: Result<ReportOutcome, CoreError>)
    requires
        cmd.is_metadata_command(),
    ensures
        !md.album_artists_present ==> r == Ok::<ReportOutcome, CoreError>(
            ReportOutcome::EmptyMetadata,
        ),
        md.album_artists_present && !metadata_usable(*md) ==> r == Err::<
            ReportOutcome,
            CoreError,
        >(CoreError::MetadataFieldMissing),
        metadata_usable(*md) ==> (r matches Ok(out) && out matches ReportOutcome::Line(line)
            && line@ == spec_report_line(*cmd, *md, status)),
{
    if !md.album_artists_present {
        return Ok(ReportOutcome::EmptyMetadata);
    }
    let title = match &md.title {
        Some(t) => t,
        None => {
            return Err(CoreError::MetadataFieldMissing);
        },
    };
    let artists = match &md.artists {
        Some(a) => a,
        None => {
            return Err(CoreError::MetadataFieldMissing);
        },
    };
    if artists.len() == 0 {
        return Err(CoreError::MetadataFieldMissing);
    }
    let artist = &artists[0];
    let mut line = playback_symbol(status).to_owned();
    line.append(" ");
    match cmd {
        Command::ReportArtist => {
            line.append(artist.as_str());
        },
        Command::ReportSong => {
            line.append(title.as_str());
        },
        Command::ReportBoth => {
            line.append(artist.as_str());
            line.append(" - ");
            line.append(title.as_str());
        },
        _ => {
            proof {
                assert(false);
            }
        },
    }
    proof {
        assert(line@ =~= spec_report_line(*cmd, *md, status));
    }
    Ok(ReportOutcome::Line(line))
}

/// The symbol-less legacy form of a report: the same policy and the same
/// line as [`print_player_metadata`], without the leading status symbol
/// (and so without a playback-status read).
pub fn print_player_metadata_plain(cmd: &Command, md: &TrackMetadata) -> (r: Result<
    ReportOutcome,
    CoreError,
>)
    requires
        cmd.is_metadata_command(),
    ensures
        !md.album_artists_present ==> r == Ok::<ReportOutcome, CoreError>(
            ReportOutcome::EmptyMetadata,
        ),
        md.album_artists_present && !metadata_usable(*md) ==> r == Err::<
            ReportOutcome,
            CoreError,
        >(CoreError::MetadataFieldMissing),
        metadata_usable(*md) ==> (r matches Ok(out) && out matches ReportOutcome::Line(line)
            && line@ == spec_report_line_plain(*cmd, *md)),
{
    if !md.album_artists_present {
        return Ok(ReportOutcome::EmptyMetadata);
    }
    let title = match &md.title {
        Some(t) => t,
        None => {
            return Err(CoreError::MetadataFieldMissing);
        },
    };
    let artists = match &md.artists {
        Some(a) => a,
        None => {
            return Err(CoreError::MetadataFieldMissing);
        },
    };
    if artists.len() == 0 {
        return Err(CoreError::MetadataFieldMissing);
    }
    let artist = &artists[0];
    let line = match cmd {
        Command::ReportArtist => artist.clone(),
        Command::ReportSong => title.clone(),
        Command::ReportBoth => {
            let mut both = artist.clone();
            both.append(" - ");
            both.append(title.as_str());
            both
        },
        _ => vstd::pervasive::unreached(),
    };
    Ok(ReportOutcome::Line(line))
}

} // verus!
