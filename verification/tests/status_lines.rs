use playing::dispatch::{plan, Action, Effect};
use playing::player::ranking;
use playing::snapshot::{Metadata, PlaybackStatus, RunningPlayer};
use playing::status::compose_status_line;

fn player_with(
    identity: &str,
    status: PlaybackStatus,
    title: Option<&str>,
    album: Option<&str>,
    artists: Vec<&str>,
) -> RunningPlayer {
    RunningPlayer {
        identity: String::from(identity),
        status,
        metadata: Metadata {
            title: title.map(String::from),
            album: album.map(String::from),
            artists: artists.into_iter().map(String::from).collect(),
            url: None,
            has_track_id: false,
        },
    }
}

fn status_action(no_icon: bool, spaces_after_icon: usize, quiet: bool) -> Action {
    Action::Status { no_icon, spaces_after_icon, quiet }
}

fn single_line(effects: &[Effect]) -> &str {
    assert_eq!(effects.len(), 1);
    match &effects[0] {
        Effect::PrintLine(s) => s.as_str(),
        _ => panic!("expected a printed line"),
    }
}

#[test]
fn status_reports_first_playing_match_not_first_present() {
    // mpv outranks spotify but is paused; the line must be spotify's.
    let snap = vec![
        player_with("mpv", PlaybackStatus::Paused, Some("MpvTitle"), None, vec![]),
        player_with(
            "Spotify",
            PlaybackStatus::Playing,
            Some("SpotTitle"),
            Some("SpotAlbum"),
            vec!["SpotArtist"],
        ),
    ];
    let p = plan(&status_action(true, 1, false), &ranking(), &snap);
    assert_eq!(single_line(&p.effects), "SpotTitle // SpotAlbum @ SpotArtist");
    assert!(p.outcome);
}

#[test]
fn status_prefers_the_ranked_playing_match() {
    let snap = vec![
        player_with(
            "Spotify",
            PlaybackStatus::Playing,
            Some("SpotTitle"),
            None,
            vec![],
        ),
        player_with("mpv", PlaybackStatus::Playing, Some("MpvTitle"), None, vec![]),
    ];
    let p = plan(&status_action(true, 1, false), &ranking(), &snap);
    assert_eq!(single_line(&p.effects), "MpvTitle // Unknown @ Unknown");
}

#[test]
fn no_playing_player_prints_no_media() {
    let snap = vec![
        player_with("mpv", PlaybackStatus::Paused, Some("T"), None, vec![]),
        player_with("vlc", PlaybackStatus::Stopped, None, None, vec![]),
    ];
    let p = plan(&status_action(false, 1, false), &ranking(), &snap);
    assert_eq!(single_line(&p.effects), "No media");
    assert!(p.outcome);
}

#[test]
fn quiet_status_prints_nothing_and_reports_false() {
    // Quiet with a playing match: boolean-false, no output at all.
    let playing_snap = vec![player_with(
        "mpv",
        PlaybackStatus::Playing,
        Some("T"),
        None,
        vec![],
    )];
    let p = plan(&status_action(false, 1, true), &ranking(), &playing_snap);
    assert!(p.effects.is_empty());
    assert!(!p.outcome);

    // Quiet with nothing playing: the same false outcome, still no output.
    let idle_snap = vec![player_with("mpv", PlaybackStatus::Paused, None, None, vec![])];
    let p = plan(&status_action(false, 1, true), &ranking(), &idle_snap);
    assert!(p.effects.is_empty());
    assert!(!p.outcome);
}

#[test]
fn long_line_truncates_to_67_characters_plus_ellipsis() {
    // 64 title characters + " // " + "Unknown" + " @ " + "Unknown" = 85.
    let title = "a".repeat(64);
    let p = player_with("mpv", PlaybackStatus::Playing, Some(&title), None, vec![]);
    let line = compose_status_line(&p, true, 1);
    assert_eq!(line.chars().count(), 70);
    let expected = format!("{} //...", title);
    assert_eq!(line, expected);
}

#[test]
fn line_of_seventy_characters_is_not_truncated() {
    // 49 title characters give a line of exactly 70.
    let title = "b".repeat(49);
    let p = player_with("mpv", PlaybackStatus::Playing, Some(&title), None, vec![]);
    let line = compose_status_line(&p, true, 1);
    assert_eq!(line.chars().count(), 70);
    assert_eq!(line, format!("{} // Unknown @ Unknown", title));
}

#[test]
fn missing_metadata_defaults_to_unknown() {
    let p = player_with("mpv", PlaybackStatus::Playing, None, None, vec![]);
    let line = compose_status_line(&p, true, 1);
    assert_eq!(line, "Unknown // Unknown @ Unknown");
}

#[test]
fn first_artist_wins() {
    let p = player_with(
        "mpv",
        PlaybackStatus::Playing,
        Some("T"),
        Some("A"),
        vec!["First", "Second"],
    );
    let line = compose_status_line(&p, true, 1);
    assert_eq!(line, "T // A @ First");
}

#[test]
fn no_icon_suppresses_glyph_and_spaces() {
    let p = player_with(
        "Spotify",
        PlaybackStatus::Playing,
        Some("T"),
        Some("A"),
        vec!["B"],
    );
    // Even a large spaces-after-icon value inserts nothing when suppressed.
    let line = compose_status_line(&p, true, 7);
    assert_eq!(line, "T // A @ B");
}

#[test]
fn icon_prefix_uses_glyph_and_requested_spaces() {
    let p = player_with(
        "Spotify",
        PlaybackStatus::Playing,
        Some("T"),
        Some("A"),
        vec!["B"],
    );
    let line = compose_status_line(&p, false, 2);
    assert_eq!(line, "\u{f1bc}  T // A @ B");
}

#[test]
fn unrecognized_identity_gets_no_glyph_but_keeps_spaces() {
    let p = player_with(
        "kodi",
        PlaybackStatus::Playing,
        Some("T"),
        Some("A"),
        vec!["B"],
    );
    let line = compose_status_line(&p, false, 1);
    assert_eq!(line, " T // A @ B");
}
