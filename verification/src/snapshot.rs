//! The library's model of what the bus reports: a point-in-time snapshot of
//! running players, each with its identity string, playback status, and
//! metadata, all as plain values.

use vstd::prelude::*;

verus! {

/// Playback state a running player reports.
#[derive(Clone, Copy, Debug, PartialEq, Eq, Structural)]
pub enum PlaybackStatus {
    Playing,
    Paused,
    Stopped,
}

/// Track metadata a running player reports. `has_track_id` records whether
/// the player exposes an identifiable track reference, which absolute
/// seeking needs.
#[derive(Clone, Debug)]
pub struct Metadata {
    pub title: Option<String>,
    pub album: Option<String>,
    pub artists: Vec<String>,
    pub url: Option<String>,
    pub has_track_id: bool,
}

/// The mathematical value of a `Metadata`.
pub struct MetadataView {
    pub title: Option<Seq<char>>,
    pub album: Option<Seq<char>>,
    pub artists: Seq<Seq<char>>,
    pub url: Option<Seq<char>>,
    pub has_track_id: bool,
}

impl View for Metadata {
    type V = MetadataView;

    open spec fn view(&self) -> MetadataView {
        MetadataView {
            title: self.title.deep_view(),
            album: self.album.deep_view(),
            artists: self.artists.deep_view(),
            url: self.url.deep_view(),
            has_track_id: self.has_track_id,
        }
    }
}

impl DeepView for Metadata {
    type V = MetadataView;

    open spec fn deep_view(&self) -> MetadataView {
        self.view()
    }
}

/// One player found running on the bus.
#[derive(Clone, Debug)]
pub struct RunningPlayer {
    pub identity: String,
    pub status: PlaybackStatus,
    pub metadata: Metadata,
}

/// The mathematical value of a `RunningPlayer`.
pub struct RunningPlayerView {
    pub identity: Seq<char>,
    pub status: PlaybackStatus,
    pub metadata: MetadataView,
}

impl View for RunningPlayer {
    type V = RunningPlayerView;

    open spec fn view(&self) -> RunningPlayerView {
        RunningPlayerView {
            identity: self.identity@,
            status: self.status,
            metadata: self.metadata@,
        }
    }
}

impl DeepView for RunningPlayer {
    type V = RunningPlayerView;

    open spec fn deep_view(&self) -> RunningPlayerView {
        self.view()
    }
}

} // verus!
