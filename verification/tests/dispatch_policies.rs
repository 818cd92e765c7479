use playing::dispatch::{plan, seek_ticks, Action, Effect, Operation, TransportCommand};
use playing::player::ranking;
use playing::snapshot::{Metadata, PlaybackStatus, RunningPlayer};

fn meta() -> Metadata {
    Metadata {
        title: None,
        album: None,
        artists: Vec::new(),
        url: None,
        has_track_id: false,
    }
}

fn running(identity: &str, status: PlaybackStatus) -> RunningPlayer {
    RunningPlayer {
        identity: String::from(identity),
        status,
        metadata: meta(),
    }
}

#[test]
fn broadcast_play_reaches_each_running_player_once() {
    // Ranking [mpv, vlc, firefox, spotify, chrome]; mpv and spotify running.
    let snap = vec![
        running("Spotify", PlaybackStatus::Paused),
        running("mpv", PlaybackStatus::Playing),
    ];
    let p = plan(&Action::Operation(Operation::Play), &ranking(), &snap);
    assert!(p.outcome);
    assert_eq!(p.effects.len(), 2);
    // mpv outranks spotify, so its command comes first.
    match p.effects[0] {
        Effect::Transport { target, command } => {
            assert_eq!(target, 1);
            assert_eq!(command, TransportCommand::Play);
        }
        _ => panic!("expected a transport command"),
    }
    match p.effects[1] {
        Effect::Transport { target, command } => {
            assert_eq!(target, 0);
            assert_eq!(command, TransportCommand::Play);
        }
        _ => panic!("expected a transport command"),
    }
}

#[test]
fn broadcast_skips_unranked_players() {
    let snap = vec![
        running("kodi", PlaybackStatus::Playing),
        running("vlc", PlaybackStatus::Playing),
    ];
    let p = plan(&Action::Operation(Operation::Pause), &ranking(), &snap);
    assert_eq!(p.effects.len(), 1);
    match p.effects[0] {
        Effect::Transport { target, command } => {
            assert_eq!(target, 1);
            assert_eq!(command, TransportCommand::Pause);
        }
        _ => panic!("expected a transport command"),
    }
}

#[test]
fn broadcast_hits_duplicate_identities_each() {
    let snap = vec![
        running("vlc", PlaybackStatus::Paused),
        running("vlc", PlaybackStatus::Stopped),
    ];
    let p = plan(&Action::Operation(Operation::Next), &ranking(), &snap);
    assert_eq!(p.effects.len(), 2);
}

#[test]
fn empty_snapshot_plans_nothing() {
    let snap: Vec<RunningPlayer> = Vec::new();
    let p = plan(&Action::Operation(Operation::Play), &ranking(), &snap);
    assert!(p.effects.is_empty());
    assert!(p.outcome);
}

#[test]
fn toggle_pauses_playing_and_plays_the_rest() {
    let snap = vec![
        running("mpv", PlaybackStatus::Playing),
        running("Spotify", PlaybackStatus::Paused),
        running("vlc", PlaybackStatus::Stopped),
    ];
    let p = plan(&Action::Operation(Operation::Toggle), &ranking(), &snap);
    assert_eq!(p.effects.len(), 3);
    // Resolution order: mpv, vlc, spotify.
    match p.effects[0] {
        Effect::Transport { target, command } => {
            assert_eq!(target, 0);
            assert_eq!(command, TransportCommand::Pause);
        }
        _ => panic!("expected a transport command"),
    }
    match p.effects[1] {
        Effect::Transport { target, command } => {
            assert_eq!(target, 2);
            assert_eq!(command, TransportCommand::Play);
        }
        _ => panic!("expected a transport command"),
    }
    match p.effects[2] {
        Effect::Transport { target, command } => {
            assert_eq!(target, 1);
            assert_eq!(command, TransportCommand::Play);
        }
        _ => panic!("expected a transport command"),
    }
}

#[test]
fn rewind_and_forward_become_relative_seeks() {
    let snap = vec![running("mpv", PlaybackStatus::Playing)];
    let p = plan(
        &Action::Operation(Operation::Rewind { millis: 1500 }),
        &ranking(),
        &snap,
    );
    match p.effects[0] {
        Effect::Transport { command, .. } => {
            assert_eq!(command, TransportCommand::SeekBackwards { millis: 1500 });
        }
        _ => panic!("expected a transport command"),
    }
    let p = plan(
        &Action::Operation(Operation::Forward { millis: 250 }),
        &ranking(),
        &snap,
    );
    match p.effects[0] {
        Effect::Transport { command, .. } => {
            assert_eq!(command, TransportCommand::SeekForwards { millis: 250 });
        }
        _ => panic!("expected a transport command"),
    }
}

#[test]
fn seek_without_track_reference_is_silently_skipped() {
    let snap = vec![running("mpv", PlaybackStatus::Playing)];
    let p = plan(
        &Action::Operation(Operation::Seek { millis: 30000 }),
        &ranking(),
        &snap,
    );
    assert!(p.effects.is_empty());
    assert!(p.outcome);
}

#[test]
fn seek_with_track_reference_sets_position() {
    let mut player = running("mpv", PlaybackStatus::Playing);
    player.metadata.has_track_id = true;
    let snap = vec![player];
    let p = plan(
        &Action::Operation(Operation::Seek { millis: 30000 }),
        &ranking(),
        &snap,
    );
    assert_eq!(p.effects.len(), 1);
    match p.effects[0] {
        Effect::Transport { target, command } => {
            assert_eq!(target, 0);
            assert_eq!(command, TransportCommand::SetPosition { millis: 30000 });
        }
        _ => panic!("expected a transport command"),
    }
}

#[test]
fn relative_seek_scales_by_64() {
    assert_eq!(seek_ticks(1000), 64);
    assert_eq!(seek_ticks(-1000), -64);
    assert_eq!(seek_ticks(500), 32);
    assert_eq!(seek_ticks(15), 0);
    assert_eq!(seek_ticks(-15), 0);
    assert_eq!(seek_ticks(0), 0);

    let snap = vec![running("mpv", PlaybackStatus::Playing)];
    let p = plan(
        &Action::Operation(Operation::SeekRelative { offset_millis: -2000 }),
        &ranking(),
        &snap,
    );
    match p.effects[0] {
        Effect::Transport { command, .. } => {
            assert_eq!(command, TransportCommand::SeekRelative { ticks: -128 });
        }
        _ => panic!("expected a transport command"),
    }
}

#[test]
fn player_listing_prints_every_match_in_ranking_order() {
    let snap = vec![
        running("chrome", PlaybackStatus::Stopped),
        running("mpv", PlaybackStatus::Playing),
        running("mpv", PlaybackStatus::Paused),
    ];
    let p = plan(&Action::Player, &ranking(), &snap);
    let lines: Vec<&str> = p
        .effects
        .iter()
        .map(|e| match e {
            Effect::PrintLine(s) => s.as_str(),
            _ => panic!("expected a printed line"),
        })
        .collect();
    assert_eq!(lines, vec!["mpv", "mpv", "chrome"]);
    assert!(p.outcome);
}

#[test]
fn url_listing_prints_known_matches_and_defaults_to_empty() {
    let mut with_url = running("vlc", PlaybackStatus::Playing);
    with_url.metadata.url = Some(String::from("https://example.org/track"));
    let without_url = running("Spotify", PlaybackStatus::Paused);
    let unknown = running("kodi", PlaybackStatus::Playing);
    let snap = vec![unknown, without_url, with_url];
    let p = plan(&Action::Url, &ranking(), &snap);
    assert_eq!(p.effects.len(), 2);
    match &p.effects[0] {
        Effect::Print(s) => assert_eq!(s.as_str(), "https://example.org/track"),
        _ => panic!("expected unterminated output"),
    }
    match &p.effects[1] {
        Effect::Print(s) => assert_eq!(s.as_str(), ""),
        _ => panic!("expected unterminated output"),
    }
}

#[test]
fn favorite_action_is_never_planned() {
    let snap = vec![running("Spotify", PlaybackStatus::Playing)];
    let p = plan(
        &Action::Favorite { poll: true, always: false },
        &ranking(),
        &snap,
    );
    assert!(p.effects.is_empty());
    assert!(p.outcome);
}
