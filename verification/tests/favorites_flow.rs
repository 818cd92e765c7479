use playing::error::ErrorKind;
use playing::favorites::{
    favorite_eligible, favorite_init, favorite_step, FavEvent, FavInit, FavOutcome, FavState,
};

#[test]
fn ineligible_without_spotify_and_without_force() {
    assert!(!favorite_eligible(false, false));
    match favorite_init(false, false, true) {
        FavInit::Ineligible { message } => {
            assert_eq!(message, "spotify is not playing");
        }
        FavInit::Proceed { .. } => panic!("must not contact the favorites client"),
    }
}

#[test]
fn forced_invocation_proceeds_without_spotify() {
    assert!(favorite_eligible(false, true));
    match favorite_init(false, true, false) {
        FavInit::Proceed { state } => {
            assert_eq!(state, FavState::GettingClient { poll: false });
        }
        FavInit::Ineligible { .. } => panic!("always must force eligibility"),
    }
}

#[test]
fn running_spotify_makes_eligible() {
    assert!(favorite_eligible(true, false));
    match favorite_init(true, false, true) {
        FavInit::Proceed { state } => {
            assert_eq!(state, FavState::GettingClient { poll: true });
        }
        FavInit::Ineligible { .. } => panic!("a running Spotify must be eligible"),
    }
}

#[test]
fn client_then_poll_then_toggle() {
    let s0 = FavState::GettingClient { poll: true };
    let s1 = match favorite_step(s0, FavEvent::ClientReady) {
        FavOutcome::Continue { next } => next,
        _ => panic!("a ready client continues the workflow"),
    };
    assert_eq!(s1, FavState::Polling);
    let s2 = match favorite_step(s1, FavEvent::PollDone) {
        FavOutcome::Continue { next } => next,
        _ => panic!("a finished poll continues the workflow"),
    };
    assert_eq!(s2, FavState::Toggling);
    match favorite_step(s2, FavEvent::Toggled { added: true }) {
        FavOutcome::Finish { message, success } => {
            assert!(success);
            assert_eq!(message, "added song to favorites");
        }
        _ => panic!("the toggle finishes the workflow"),
    }
}

#[test]
fn without_poll_the_client_goes_straight_to_toggle() {
    let s0 = FavState::GettingClient { poll: false };
    let s1 = match favorite_step(s0, FavEvent::ClientReady) {
        FavOutcome::Continue { next } => next,
        _ => panic!("a ready client continues the workflow"),
    };
    assert_eq!(s1, FavState::Toggling);
}

#[test]
fn removal_direction_reports_removed_and_still_succeeds() {
    match favorite_step(FavState::Toggling, FavEvent::Toggled { added: false }) {
        FavOutcome::Finish { message, success } => {
            assert!(success);
            assert_eq!(message, "removed song from favorites");
        }
        _ => panic!("the toggle finishes the workflow"),
    }
}

#[test]
fn any_failure_aborts_with_a_favorites_error() {
    for state in [
        FavState::GettingClient { poll: true },
        FavState::Polling,
        FavState::Toggling,
    ] {
        match favorite_step(state, FavEvent::Failed { message: String::from("expired token") }) {
            FavOutcome::Fail { error } => {
                assert_eq!(error.kind, ErrorKind::Favorites);
                assert_eq!(error.exit_code(), 5);
                assert_eq!(error.message, "expired token");
            }
            _ => panic!("a collaborator failure aborts the workflow"),
        }
    }
}
