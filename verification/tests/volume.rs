use mpris_ctl::command::Command;
use mpris_ctl::outcome::CoreError;
use mpris_ctl::volume::{player_volume, volume_display, volume_write_outcome, VolumeAction};

#[test]
fn get_volume_prints_one_fractional_digit() {
    let a = player_volume(&Command::GetVolume, 837);
    assert_eq!(a, VolumeAction::Print("83.7".to_string()));
}

#[test]
fn display_edge_levels() {
    assert_eq!(volume_display(0), "0.0");
    assert_eq!(volume_display(5), "0.5");
    assert_eq!(volume_display(500), "50.0");
    assert_eq!(volume_display(1000), "100.0");
    assert_eq!(volume_display(999), "99.9");
}

#[test]
fn raise_snaps_to_full_scale() {
    // Raising from 50% proposes 55% and the max-against-the-ceiling clamp
    // replaces it with full scale; the gradual policy (which would keep
    // 55%) must never silently agree.
    let a = player_volume(&Command::RaiseVolume, 500);
    assert_eq!(a, VolumeAction::SetVolume(1000));
    assert_ne!(a, VolumeAction::SetVolume(550));
}

#[test]
fn raise_passes_levels_at_or_above_full_scale_through() {
    assert_eq!(
        player_volume(&Command::RaiseVolume, 990),
        VolumeAction::SetVolume(1040)
    );
    assert_eq!(
        player_volume(&Command::RaiseVolume, 950),
        VolumeAction::SetVolume(1000)
    );
}

#[test]
fn lower_snaps_to_silence() {
    // The symmetric case: lowering from 50% proposes 45% and the
    // min-against-the-floor clamp replaces it with silence; the gradual
    // policy (which would keep 45%) must never silently agree.
    let a = player_volume(&Command::LowerVolume, 500);
    assert_eq!(a, VolumeAction::SetVolume(0));
    assert_ne!(a, VolumeAction::SetVolume(450));
}

#[test]
fn lower_passes_levels_at_or_below_silence_through() {
    assert_eq!(
        player_volume(&Command::LowerVolume, 30),
        VolumeAction::SetVolume(-20)
    );
    assert_eq!(
        player_volume(&Command::LowerVolume, 50),
        VolumeAction::SetVolume(0)
    );
}

#[test]
fn volume_write_back_outcome() {
    assert_eq!(volume_write_outcome(true), Ok(()));
    assert_eq!(volume_write_outcome(false), Err(CoreError::VolumeWriteFailed));
}
