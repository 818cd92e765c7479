//! The favorites coordinator. It decides, never calls: eligibility is
//! checked first, and only an eligible invocation ever advances to the
//! client. The workflow is a straight line — obtain a client, optionally
//! poll until a track plays, toggle, report the direction — and the caller
//! performs each suspension point, handing the result back as an event.

use vstd::prelude::*;
use crate::error::{ErrorKind, PlayingError};

verus! {

/// Where the favorites workflow stands: which collaborator call is owed
/// next. Each state names the one call the caller must perform.
#[derive(Clone, Copy, Debug, PartialEq, Eq, Structural)]
pub enum FavState {
    GettingClient { poll: bool },
    Polling,
    Toggling,
}

/// What the collaborator call of the current state came back with.
pub enum FavEvent {
    ClientReady,
    PollDone,
    Toggled { added: bool },
    Failed { message: String },
}

/// The coordinator's decision after an event: go on to another call, finish
/// with a confirmation line and the boolean outcome, or abort with an error.
pub enum FavOutcome {
    Continue { next: FavState },
    Finish { message: String, success: bool },
    Fail { error: PlayingError },
}

/// How the workflow starts: refused outright with a message on standard
/// error, or proceeding to the first collaborator call.
pub enum FavInit {
    Ineligible { message: String },
    Proceed { state: FavState },
}

/// Eligibility gate: the favorites service is only contacted when a player
/// identified as Spotify is running on the bus, or when forced.
pub open spec fn eligible(spotify_running: bool, always: bool) -> bool {
    spotify_running || always
}

/// Decide whether the favorites workflow may contact the service at all.
pub fn favorite_eligible(spotify_running: bool, always: bool) -> (r: bool)
    ensures
        r == eligible(spotify_running, always),
{
    spotify_running || always
}

/// Start the favorites workflow. An ineligible invocation makes no
/// collaborator call: it carries only the refusal message and the
/// boolean-false outcome. An eligible one owes the client call first,
/// remembering whether to poll after it.
pub fn favorite_init(spotify_running: bool, always: bool, poll: bool) -> (r: FavInit)
    ensures
        eligible(spotify_running, always) ==> (r matches FavInit::Proceed { state }
            && state == (FavState::GettingClient { poll })),
        !eligible(spotify_running, always) ==> (r matches FavInit::Ineligible { message }
            && message@ == "spotify is not playing"@),
{
    if spotify_running || always {
        FavInit::Proceed { state: FavState::GettingClient { poll } }
    } else {
        FavInit::Ineligible { message: String::from_str("spotify is not playing") }
    }
}

/// Whether an event can answer the call a state owes.
pub open spec fn event_fits(state: FavState, event: FavEvent) -> bool {
    match event {
        FavEvent::ClientReady => state matches FavState::GettingClient { .. },
        FavEvent::PollDone => state == FavState::Polling,
        FavEvent::Toggled { .. } => state == FavState::Toggling,
        FavEvent::Failed { .. } => true,
    }
}

/// Advance the workflow by one event: any failure aborts with a
/// favorites-kind error; a ready client moves to polling or straight to the
/// toggle; a finished poll moves to the toggle; the toggle's direction picks
/// the confirmation line, and the workflow succeeds either way.
pub fn favorite_step(state: FavState, event: FavEvent) -> (r: FavOutcome)
    requires
        event_fits(state, event),
    ensures
        match event {
            FavEvent::Failed { message } => r matches FavOutcome::Fail { error }
                && error.kind == ErrorKind::Favorites && error.message@ == message@,
            FavEvent::ClientReady => r == (FavOutcome::Continue {
                next: if state == (FavState::GettingClient { poll: true }) {
                    FavState::Polling
                } else {
                    FavState::Toggling
                },
            }),
            FavEvent::PollDone => r == (FavOutcome::Continue { next: FavState::Toggling }),
            FavEvent::Toggled { added } => r matches FavOutcome::Finish { message, success }
                && success && message@ == (if added {
                "added song to favorites"@
            } else {
                "removed song from favorites"@
            }),
        },
{
    match event {
        FavEvent::Failed { message } => FavOutcome::Fail {
            error: PlayingError::from_spotifav(message),
        },
        FavEvent::ClientReady => {
            let poll = match state {
                FavState::GettingClient { poll } => poll,
                _ => false,
            };
            if poll {
                FavOutcome::Continue { next: FavState::Polling }
            } else {
                FavOutcome::Continue { next: FavState::Toggling }
            }
        },
        FavEvent::PollDone => FavOutcome::Continue { next: FavState::Toggling },
        FavEvent::Toggled { added } => {
            if added {
                FavOutcome::Finish {
                    message: String::from_str("added song to favorites"),
                    success: true,
                }
            } else {
                FavOutcome::Finish {
                    message: String::from_str("removed song from favorites"),
                    success: true,
                }
            }
        },
    }
}

/// Eligibility law: an ineligible start never reaches a collaborator call,
/// and a forced start reaches one even with no Spotify player running.
pub proof fn lemma_favorites_gate(spotify_running: bool, always: bool)
    ensures
        !spotify_running && !always ==> !eligible(spotify_running, always),
        always ==> eligible(spotify_running, always),
        spotify_running ==> eligible(spotify_running, always),
{
}

} // verus!
