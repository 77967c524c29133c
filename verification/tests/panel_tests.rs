use now_playing::config::Config;
use now_playing::label::{album_line, panel_label, progress_labels, status_icon, PanelLabel};
use now_playing::mpris::{PlaybackStatus, PlayerInfo};
use now_playing::panel::{PanelAction, PanelEvent, PanelOutcome, PanelState};

fn info(bus: &str, title: &str, artist: &str, art: Option<&str>) -> PlayerInfo {
    let mut p = PlayerInfo::default();
    p.bus_name = bus.to_string();
    p.title = title.to_string();
    p.artist = artist.to_string();
    p.art_url = art.map(|a| a.to_string());
    p.position_us = 42_000_000;
    p.status = PlaybackStatus::Playing;
    p
}

fn quiet(action: PanelAction) -> PanelOutcome {
    PanelOutcome { action, clear_art: false, clear_seek: false }
}

fn miss() -> PanelEvent {
    PanelEvent::PlayerUpdated { info: None, seek_settled: false }
}

fn shown(p: PlayerInfo) -> PanelEvent {
    PanelEvent::PlayerUpdated { info: Some(p), seek_settled: false }
}

#[test]
fn new_state_shows_no_player() {
    let s = PanelState::new(Config::default());
    assert_eq!(s.player, PlayerInfo::default());
    assert_eq!(s.missed_polls, 0);
    assert!(s.current_art_url.is_none());
}

#[test]
fn tick_asks_for_a_poll() {
    let mut s = PanelState::new(Config::default());
    assert_eq!(s.update(PanelEvent::Tick), quiet(PanelAction::Poll));
}

#[test]
fn update_shows_player_and_loads_art() {
    let mut s = PanelState::new(Config::default());
    let out = s.update(shown(info("vlc", "Song", "Band", Some("file:///a.png"))));
    assert_eq!(
        out,
        PanelOutcome {
            action: PanelAction::LoadArt("file:///a.png".to_string()),
            clear_art: true,
            clear_seek: false
        }
    );
    assert_eq!(s.player.bus_name, "vlc");
    assert_eq!(s.current_art_url.as_deref(), Some("file:///a.png"));
}

#[test]
fn same_art_is_not_loaded_again() {
    let mut s = PanelState::new(Config::default());
    s.update(shown(info("vlc", "Song", "Band", Some("u"))));
    let out = s.update(shown(info("vlc", "Next song", "Band", Some("u"))));
    assert_eq!(out, quiet(PanelAction::Nothing));
    assert_eq!(s.player.title, "Next song");
}

#[test]
fn art_removed_clears_art_without_loading() {
    let mut s = PanelState::new(Config::default());
    s.update(shown(info("vlc", "Song", "Band", Some("u"))));
    let out = s.update(shown(info("vlc", "Song 2", "Band", None)));
    assert_eq!(out, PanelOutcome { action: PanelAction::Nothing, clear_art: true, clear_seek: false });
    assert!(s.current_art_url.is_none());
}

#[test]
fn identical_update_changes_nothing() {
    let mut s = PanelState::new(Config::default());
    s.update(shown(info("vlc", "Song", "Band", None)));
    s.update(miss());
    assert_eq!(s.missed_polls, 1);
    let out = s.update(PanelEvent::PlayerUpdated {
        info: Some(info("vlc", "Song", "Band", None)),
        seek_settled: true,
    });
    assert_eq!(out, quiet(PanelAction::Nothing));
    assert_eq!(s.missed_polls, 0);
}

#[test]
fn seek_pin_cleared_when_caught_up() {
    let mut s = PanelState::new(Config::default());
    s.update(shown(info("vlc", "Song", "Band", None)));
    let mut moved = info("vlc", "Song", "Band", None);
    moved.position_us = 90_000_000;
    let out = s.update(PanelEvent::PlayerUpdated { info: Some(moved), seek_settled: true });
    assert!(out.clear_seek);
}

#[test]
fn player_kept_for_three_misses_then_cleared() {
    let mut s = PanelState::new(Config::default());
    s.update(shown(info("vlc", "Song", "Band", Some("u"))));
    for expected in 1..=3u8 {
        assert_eq!(s.update(miss()), quiet(PanelAction::Nothing));
        assert_eq!(s.missed_polls, expected);
        assert_eq!(s.player.bus_name, "vlc");
    }
    let out = s.update(miss());
    assert_eq!(out, PanelOutcome { action: PanelAction::Nothing, clear_art: true, clear_seek: true });
    assert_eq!(s.player, PlayerInfo::default());
    assert!(s.current_art_url.is_none());
    assert_eq!(s.missed_polls, 4);
    // Nothing is shown any more, so further misses change nothing.
    assert_eq!(s.update(miss()), quiet(PanelAction::Nothing));
    assert_eq!(s.missed_polls, 4);
}

#[test]
fn miss_without_player_is_ignored() {
    let mut s = PanelState::new(Config::default());
    assert_eq!(s.update(miss()), quiet(PanelAction::Nothing));
    assert_eq!(s.missed_polls, 0);
}

#[test]
fn missed_polls_saturate() {
    let mut s = PanelState::new(Config::default());
    s.player = info("vlc", "Song", "", None);
    s.missed_polls = 255;
    s.update(miss());
    assert_eq!(s.missed_polls, 255);
    assert_eq!(s.player, PlayerInfo::default());
}

#[test]
fn commands_go_to_shown_player() {
    let mut s = PanelState::new(Config::default());
    s.update(shown(info("vlc", "Song", "Band", None)));
    assert_eq!(s.update(PanelEvent::PlayPause), quiet(PanelAction::PlayPause("vlc".to_string())));
    assert_eq!(s.update(PanelEvent::Next), quiet(PanelAction::Next("vlc".to_string())));
    assert_eq!(s.update(PanelEvent::Previous), quiet(PanelAction::Previous("vlc".to_string())));
    assert_eq!(
        s.update(PanelEvent::SeekForward),
        quiet(PanelAction::SeekBy("vlc".to_string(), 10_000_000))
    );
    assert_eq!(
        s.update(PanelEvent::SeekBackward),
        quiet(PanelAction::SeekBy("vlc".to_string(), -10_000_000))
    );
    assert_eq!(
        s.update(PanelEvent::SeekCommit(Some(100_000_000))),
        quiet(PanelAction::SeekTo("vlc".to_string(), 100_000_000, 42_000_000))
    );
    assert_eq!(s.update(PanelEvent::SeekCommit(None)), quiet(PanelAction::Nothing));
}

#[test]
fn settings_changes_are_saved() {
    let mut s = PanelState::new(Config::default());
    let out = s.update(PanelEvent::LabelMaxLengthChanged(12));
    let expected = Config { panel_label_max_length: 12, track_first: false };
    assert_eq!(out, quiet(PanelAction::SaveConfig(expected.clone())));
    let out = s.update(PanelEvent::TrackFirstChanged(true));
    let expected = Config { panel_label_max_length: 12, track_first: true };
    assert_eq!(out, quiet(PanelAction::SaveConfig(expected.clone())));
    assert_eq!(s.config, expected);
    let out = s.update(PanelEvent::UpdateConfig(Config::default()));
    assert_eq!(out, quiet(PanelAction::Nothing));
    assert_eq!(s.config, Config::default());
}

#[test]
fn label_icon_without_player() {
    assert_eq!(panel_label(&PlayerInfo::default(), &Config::default(), 40), PanelLabel::Icon);
}

#[test]
fn label_stacks_on_tall_panels() {
    let p = info("vlc", "Song", "Band", None);
    let c = Config::default();
    assert_eq!(
        panel_label(&p, &c, 28),
        PanelLabel::Stacked { top: "Band".to_string(), bottom: "Song".to_string() }
    );
    let tf = Config { panel_label_max_length: 3, track_first: true };
    assert_eq!(
        panel_label(&p, &tf, 32),
        PanelLabel::Stacked { top: "Son\u{2026}".to_string(), bottom: "Ban\u{2026}".to_string() }
    );
}

#[test]
fn label_single_line_on_thin_panels() {
    let p = info("vlc", "Song", "Band", None);
    assert_eq!(
        panel_label(&p, &Config::default(), 27),
        PanelLabel::Line("Band \u{2014} Song".to_string())
    );
    let tf = Config { panel_label_max_length: 6, track_first: true };
    assert_eq!(panel_label(&p, &tf, 20), PanelLabel::Line("Song \u{2014}\u{2026}".to_string()));
}

#[test]
fn label_title_alone_without_artist() {
    let p = info("vlc", "A rather long title", "", None);
    let c = Config { panel_label_max_length: 8, track_first: false };
    assert_eq!(panel_label(&p, &c, 40), PanelLabel::Line("A rather\u{2026}".to_string()));
}

#[test]
fn album_line_with_and_without_year() {
    let mut p = info("vlc", "Song", "Band", None);
    assert_eq!(album_line(&p), None);
    p.album = "Blue".to_string();
    assert_eq!(album_line(&p), Some("Blue".to_string()));
    p.year = Some(1971);
    assert_eq!(album_line(&p), Some("Blue (1971)".to_string()));
}

#[test]
fn status_icons() {
    assert_eq!(status_icon(PlaybackStatus::Playing), "media-playback-pause-symbolic");
    assert_eq!(status_icon(PlaybackStatus::Paused), "media-playback-start-symbolic");
    assert_eq!(status_icon(PlaybackStatus::Stopped), "media-playback-start-symbolic");
}

#[test]
fn progress_labels_need_a_length() {
    assert_eq!(progress_labels(5_000_000, 0), None);
    assert_eq!(
        progress_labels(65_000_000, 200_000_000),
        Some(("1:05".to_string(), "3:20".to_string()))
    );
}
