use mpris_ctl::command::Command;
use mpris_ctl::outcome::CoreError;
use mpris_ctl::report::{
    playback_symbol, print_player_metadata, print_player_metadata_plain, PlaybackStatus,
    ReportOutcome, TrackMetadata,
};

fn usable_metadata() -> TrackMetadata {
    TrackMetadata {
        title: Some("T".to_string()),
        artists: Some(vec!["A".to_string(), "B".to_string()]),
        album_artists_present: true,
    }
}

#[test]
fn artist_report_prints_first_artist() {
    let r = print_player_metadata(&Command::ReportArtist, &usable_metadata(), PlaybackStatus::Playing);
    assert_eq!(r, Ok(ReportOutcome::Line("\u{25b6} A".to_string())));
}

#[test]
fn song_report_prints_title() {
    let r = print_player_metadata(&Command::ReportSong, &usable_metadata(), PlaybackStatus::Playing);
    assert_eq!(r, Ok(ReportOutcome::Line("\u{25b6} T".to_string())));
}

#[test]
fn both_report_joins_artist_and_title() {
    let r = print_player_metadata(&Command::ReportBoth, &usable_metadata(), PlaybackStatus::Playing);
    assert_eq!(r, Ok(ReportOutcome::Line("\u{25b6} A - T".to_string())));
}

#[test]
fn paused_and_stopped_symbols() {
    let r = print_player_metadata(&Command::ReportSong, &usable_metadata(), PlaybackStatus::Paused);
    assert_eq!(r, Ok(ReportOutcome::Line("\u{2759}\u{2759} T".to_string())));
    let r = print_player_metadata(&Command::ReportSong, &usable_metadata(), PlaybackStatus::Stopped);
    assert_eq!(r, Ok(ReportOutcome::Line("\u{25fc} T".to_string())));
    assert_eq!(playback_symbol(PlaybackStatus::Playing), "\u{25b6}");
}

#[test]
fn absent_presence_flag_is_empty_metadata_for_every_command() {
    let md = TrackMetadata {
        album_artists_present: false,
        ..usable_metadata()
    };
    for cmd in [Command::ReportArtist, Command::ReportSong, Command::ReportBoth] {
        let r = print_player_metadata(&cmd, &md, PlaybackStatus::Playing);
        assert_eq!(r, Ok(ReportOutcome::EmptyMetadata));
    }
}

#[test]
fn absent_presence_flag_wins_over_missing_fields() {
    let md = TrackMetadata {
        title: None,
        artists: None,
        album_artists_present: false,
    };
    let r = print_player_metadata(&Command::ReportBoth, &md, PlaybackStatus::Stopped);
    assert_eq!(r, Ok(ReportOutcome::EmptyMetadata));
}

#[test]
fn legacy_reports_have_no_symbol() {
    let md = usable_metadata();
    assert_eq!(
        print_player_metadata_plain(&Command::ReportArtist, &md),
        Ok(ReportOutcome::Line("A".to_string()))
    );
    assert_eq!(
        print_player_metadata_plain(&Command::ReportSong, &md),
        Ok(ReportOutcome::Line("T".to_string()))
    );
    assert_eq!(
        print_player_metadata_plain(&Command::ReportBoth, &md),
        Ok(ReportOutcome::Line("A - T".to_string()))
    );
}

#[test]
fn legacy_reports_follow_the_same_metadata_policy() {
    let empty = TrackMetadata {
        album_artists_present: false,
        ..usable_metadata()
    };
    assert_eq!(
        print_player_metadata_plain(&Command::ReportBoth, &empty),
        Ok(ReportOutcome::EmptyMetadata)
    );
    let broken = TrackMetadata {
        title: None,
        ..usable_metadata()
    };
    assert_eq!(
        print_player_metadata_plain(&Command::ReportSong, &broken),
        Err(CoreError::MetadataFieldMissing)
    );
}

#[test]
fn missing_title_is_a_field_failure() {
    let md = TrackMetadata {
        title: None,
        ..usable_metadata()
    };
    let r = print_player_metadata(&Command::ReportArtist, &md, PlaybackStatus::Playing);
    assert_eq!(r, Err(CoreError::MetadataFieldMissing));
}

#[test]
fn missing_artist_list_is_a_field_failure() {
    let md = TrackMetadata {
        artists: None,
        ..usable_metadata()
    };
    let r = print_player_metadata(&Command::ReportSong, &md, PlaybackStatus::Playing);
    assert_eq!(r, Err(CoreError::MetadataFieldMissing));
}

#[test]
fn empty_artist_list_is_a_field_failure() {
    let md = TrackMetadata {
        artists: Some(Vec::new()),
        ..usable_metadata()
    };
    let r = print_player_metadata(&Command::ReportBoth, &md, PlaybackStatus::Playing);
    assert_eq!(r, Err(CoreError::MetadataFieldMissing));
}
