use now_playing::mpris::{
    find_by_bus, next, parse_year_prefix, pick_active_index, play_pause, player_info, poll,
    position_of_bus, previous, seek_by, seek_delta, seek_to, summarize, Metadata, MetadataValue,
    PlaybackStatus, PlayerCommand, PlayerInfo, PlayerSnapshot, PlayerSummary, Poll,
};

fn summary(bus: &str, status: PlaybackStatus, title: &str) -> PlayerSummary {
    PlayerSummary {
        bus_name: bus.to_string(),
        identity: bus.to_uppercase(),
        status,
        title: title.to_string(),
    }
}

fn snapshot(bus: &str, status: PlaybackStatus, title: Option<&str>) -> PlayerSnapshot {
    let mut m = Metadata::default();
    m.title = title.map(|t| t.to_string());
    PlayerSnapshot {
        bus_name: bus.to_string(),
        identity: format!("{bus} player"),
        status: Some(status),
        metadata: Some(m),
        position_us: Some(1_000),
        can_go_next: Some(true),
        can_go_previous: Some(false),
        can_pause: Some(true),
        can_play: Some(true),
        can_seek: Some(true),
    }
}

fn names(list: &[&str]) -> Vec<String> {
    list.iter().map(|s| s.to_string()).collect()
}

#[test]
fn pick_prefers_playing() {
    let players = vec![
        summary("a", PlaybackStatus::Paused, "x"),
        summary("b", PlaybackStatus::Stopped, "y"),
        summary("c", PlaybackStatus::Playing, ""),
        summary("d", PlaybackStatus::Playing, "z"),
    ];
    assert_eq!(pick_active_index(&players), Some(2));
}

#[test]
fn pick_prefers_paused_over_track() {
    let players = vec![
        summary("a", PlaybackStatus::Stopped, "x"),
        summary("b", PlaybackStatus::Paused, ""),
        summary("c", PlaybackStatus::Paused, "y"),
    ];
    assert_eq!(pick_active_index(&players), Some(1));
}

#[test]
fn pick_prefers_track_over_none() {
    let players = vec![
        summary("a", PlaybackStatus::Stopped, ""),
        summary("b", PlaybackStatus::Stopped, "song"),
        summary("c", PlaybackStatus::Stopped, "other"),
    ];
    assert_eq!(pick_active_index(&players), Some(1));
}

#[test]
fn pick_falls_back_to_first() {
    let players = vec![
        summary("a", PlaybackStatus::Stopped, ""),
        summary("b", PlaybackStatus::Stopped, ""),
    ];
    assert_eq!(pick_active_index(&players), Some(0));
    assert_eq!(pick_active_index(&[]), None);
}

#[test]
fn position_of_bus_finds_first_match() {
    let players = vec![
        summary("a", PlaybackStatus::Stopped, ""),
        summary("b", PlaybackStatus::Stopped, ""),
        summary("b", PlaybackStatus::Playing, ""),
    ];
    assert_eq!(position_of_bus(&players, "b"), Some(1));
    assert_eq!(position_of_bus(&players, "z"), None);
}

#[test]
fn poll_skips_proxy_and_lists_real_players() {
    let found = vec![
        snapshot("playerctld", PlaybackStatus::Playing, Some("mirror")),
        snapshot("spotify", PlaybackStatus::Paused, Some("Song")),
        snapshot("vlc", PlaybackStatus::Stopped, None),
    ];
    let p = poll(None, found);
    assert_eq!(p.players.len(), 2);
    assert_eq!(p.players[0].bus_name, "spotify");
    assert_eq!(p.players[0].identity, "spotify player");
    assert_eq!(p.players[0].title, "Song");
    assert_eq!(p.players[1].bus_name, "vlc");
    assert_eq!(p.players[1].title, "");
    let shown = p.player.expect("a player is shown");
    assert_eq!(shown.bus_name, "spotify");
    assert_eq!(shown.status, PlaybackStatus::Paused);
}

#[test]
fn poll_honors_pinned_player() {
    let found = vec![
        snapshot("spotify", PlaybackStatus::Playing, Some("Song")),
        snapshot("vlc", PlaybackStatus::Stopped, Some("Film")),
    ];
    let p = poll(Some("vlc"), found);
    let shown = p.player.unwrap();
    assert_eq!(shown.bus_name, "vlc");
    assert_eq!(shown.title, "Film");
}

#[test]
fn poll_ignores_pin_when_player_gone() {
    let found = vec![
        snapshot("spotify", PlaybackStatus::Stopped, Some("Song")),
        snapshot("vlc", PlaybackStatus::Playing, None),
    ];
    let p = poll(Some("mpv"), found);
    assert_eq!(p.player.unwrap().bus_name, "vlc");
}

#[test]
fn poll_cannot_pin_the_proxy() {
    let found = vec![
        snapshot("playerctld", PlaybackStatus::Playing, Some("mirror")),
        snapshot("vlc", PlaybackStatus::Stopped, None),
    ];
    let p = poll(Some("playerctld"), found);
    assert_eq!(p.player.unwrap().bus_name, "vlc");
}

#[test]
fn poll_without_players_shows_none() {
    let p = poll(None, Vec::new());
    assert!(p.player.is_none());
    assert!(p.players.is_empty());
    let only_proxy = poll(None, vec![snapshot("playerctld", PlaybackStatus::Playing, None)]);
    assert!(only_proxy.player.is_none());
    assert!(only_proxy.players.is_empty());
    let d = Poll::default();
    assert!(d.player.is_none() && d.players.is_empty());
}

#[test]
fn summary_defaults_when_reads_fail() {
    let mut s = snapshot("x", PlaybackStatus::Playing, Some("t"));
    s.status = None;
    s.metadata = None;
    let sum = summarize(&s);
    assert_eq!(sum.status, PlaybackStatus::Stopped);
    assert_eq!(sum.title, "");
}

#[test]
fn player_info_defaults_when_reads_fail() {
    let s = PlayerSnapshot {
        bus_name: "x".to_string(),
        identity: "X".to_string(),
        status: None,
        metadata: None,
        position_us: None,
        can_go_next: None,
        can_go_previous: None,
        can_pause: None,
        can_play: None,
        can_seek: None,
    };
    let info = player_info(&s);
    let mut expected = PlayerInfo::default();
    expected.title = "Unknown".to_string();
    expected.bus_name = "x".to_string();
    assert_eq!(info, expected);
}

#[test]
fn player_info_reads_metadata() {
    let mut s = snapshot("spotify", PlaybackStatus::Playing, Some("Song"));
    let m = s.metadata.as_mut().unwrap();
    m.artists = Some(vec!["A".to_string(), "B".to_string()]);
    m.album = Some("Album".to_string());
    m.year = Some(MetadataValue::I32(1999));
    m.art_url = Some("file:///tmp/a.png".to_string());
    m.length_us = Some(200_000_000);
    let info = player_info(&s);
    assert_eq!(info.title, "Song");
    assert_eq!(info.artist, "A, B");
    assert_eq!(info.album, "Album");
    assert_eq!(info.year, Some(1999));
    assert_eq!(info.art_url.as_deref(), Some("file:///tmp/a.png"));
    assert_eq!(info.position_us, 1_000);
    assert_eq!(info.length_us, 200_000_000);
    assert!(info.can_go_next && !info.can_go_previous && info.can_pause);
}

fn year_with(year: Option<MetadataValue>, created: Option<MetadataValue>) -> Option<u32> {
    let mut s = snapshot("p", PlaybackStatus::Stopped, None);
    let m = s.metadata.as_mut().unwrap();
    m.year = year;
    m.content_created = created;
    player_info(&s).year
}

#[test]
fn year_from_integer_kinds() {
    assert_eq!(year_with(Some(MetadataValue::I16(1984)), None), Some(1984));
    assert_eq!(year_with(Some(MetadataValue::U32(2001)), None), Some(2001));
    assert_eq!(year_with(Some(MetadataValue::U16(2002)), None), Some(2002));
    assert_eq!(year_with(Some(MetadataValue::U8(99)), None), Some(99));
}

#[test]
fn negative_year_wraps_like_a_cast() {
    assert_eq!(year_with(Some(MetadataValue::I32(-1)), None), Some(u32::MAX));
    assert_eq!(year_with(Some(MetadataValue::I32(i32::MIN)), None), Some(0x8000_0000));
}

#[test]
fn year_falls_back_to_content_created() {
    let created = Some(MetadataValue::Text("2021-05-01T00:00:00".to_string()));
    assert_eq!(year_with(None, created.clone()), Some(2021));
    assert_eq!(year_with(Some(MetadataValue::Text("1999".to_string())), created.clone()), Some(2021));
    assert_eq!(year_with(Some(MetadataValue::Other), created), Some(2021));
    assert_eq!(year_with(None, Some(MetadataValue::U32(2000))), None);
    assert_eq!(year_with(None, None), None);
}

#[test]
fn year_prefix_parsing() {
    assert_eq!(parse_year_prefix("2021-05-01"), Some(2021));
    assert_eq!(parse_year_prefix("0999"), Some(999));
    assert_eq!(parse_year_prefix("+123"), Some(123));
    assert_eq!(parse_year_prefix("-123"), None);
    assert_eq!(parse_year_prefix("20a1"), None);
    assert_eq!(parse_year_prefix("202"), None);
    assert_eq!(parse_year_prefix("\u{e9}123"), None);
    assert_eq!(parse_year_prefix("++12"), None);
}

#[test]
fn year_prefix_matches_std_parse() {
    for s in ["2021", "+999", "-1", "12 4", "0000", "abcd", "9999x", "+", "1"] {
        let std_parse = s.get(..4).and_then(|p| p.parse::<u32>().ok());
        assert_eq!(parse_year_prefix(s), std_parse, "{s}");
    }
}

#[test]
fn find_by_bus_searches_all_names() {
    let bus = names(&["playerctld", "vlc", "vlc"]);
    assert_eq!(find_by_bus(&bus, "vlc"), Some(1));
    assert_eq!(find_by_bus(&bus, "playerctld"), Some(0));
    assert_eq!(find_by_bus(&bus, "mpv"), None);
}

#[test]
fn commands_address_the_named_player() {
    let bus = names(&["spotify", "vlc"]);
    assert_eq!(play_pause(&bus, "vlc"), Some((1, PlayerCommand::PlayPause)));
    assert_eq!(next(&bus, "spotify"), Some((0, PlayerCommand::Next)));
    assert_eq!(previous(&bus, "vlc"), Some((1, PlayerCommand::Previous)));
    assert_eq!(seek_by(&bus, "vlc", -10_000_000), Some((1, PlayerCommand::Seek(-10_000_000))));
    assert_eq!(play_pause(&bus, "mpv"), None);
    assert_eq!(seek_by(&bus, "", 5), None);
}

#[test]
fn seek_to_moves_by_the_difference() {
    let bus = names(&["vlc"]);
    assert_eq!(seek_to(&bus, "vlc", 30_000_000, 10_000_000), Some((0, PlayerCommand::Seek(20_000_000))));
    assert_eq!(seek_to(&bus, "vlc", 0, 10_000_000), Some((0, PlayerCommand::Seek(-10_000_000))));
    assert_eq!(seek_to(&bus, "mpv", 1, 2), None);
}

#[test]
fn seek_delta_wraps_like_casts() {
    assert_eq!(seek_delta(5, 3), 2);
    assert_eq!(seek_delta(u64::MAX, 0), -1);
    assert_eq!(seek_delta(0, u64::MAX), 1);
    assert_eq!(seek_delta(i64::MAX as u64, 0), i64::MAX);
}

#[test]
fn player_info_equality() {
    let a = player_info(&snapshot("a", PlaybackStatus::Playing, Some("t")));
    let mut b = a.clone();
    assert!(a.same_as(&b));
    b.art_url = Some("x".to_string());
    assert!(!a.same_as(&b));
}
