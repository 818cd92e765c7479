//! The action dispatcher. Each action family has its own execution policy:
//! transport operations and the `player`/`url` listings are broadcast to
//! every resolved match with no early exit, while `status` is
//! first-match-wins on the first *playing* match. The favorite action is
//! delegated to the favorites coordinator and never planned here.
//!
//! The dispatcher is pure: it turns an action and a snapshot into a plan,
//! the exact sequence of transport commands and output lines to perform, in
//! order, plus the invocation's boolean outcome.

use vstd::prelude::*;
use vstd::multiset::Multiset;
use vstd::arithmetic::div_mod::{lemma_div_is_ordered, lemma_div_multiples_vanish};
use crate::player::{parse_spec, Player};
use crate::resolver::{positions_of, resolve, resolve_spec};
use crate::snapshot::{MetadataView, PlaybackStatus, RunningPlayer, RunningPlayerView};
use crate::status::{composed_line, compose_status_line, rendered_line};

verus! {

/// A transport operation requested on the command line. Durations are in
/// milliseconds; a relative seek may be negative.
#[derive(Clone, Copy, Debug, PartialEq, Eq, Structural)]
pub enum Operation {
    Toggle,
    Play,
    Pause,
    Next,
    Previous,
    Rewind { millis: u64 },
    Forward { millis: u64 },
    SeekRelative { offset_millis: i64 },
    Seek { millis: u64 },
}

/// One invocation's action.
#[derive(Clone, Copy, Debug, PartialEq, Eq, Structural)]
pub enum Action {
    Operation(Operation),
    Player,
    Status { no_icon: bool, spaces_after_icon: usize, quiet: bool },
    Favorite { poll: bool, always: bool },
    Url,
}

/// A command to issue to one running player's transport endpoints.
#[derive(Clone, Copy, Debug, PartialEq, Eq, Structural)]
pub enum TransportCommand {
    Play,
    Pause,
    Next,
    Previous,
    SeekBackwards { millis: u64 },
    SeekForwards { millis: u64 },
    SeekRelative { ticks: i64 },
    SetPosition { millis: u64 },
}

/// One step of a plan: a transport command aimed at a snapshot position, a
/// full output line, or output with no line break.
#[derive(Clone, Debug)]
pub enum Effect {
    Transport { target: usize, command: TransportCommand },
    PrintLine(String),
    Print(String),
}

/// The mathematical value of an `Effect`.
pub enum EffectView {
    Transport { target: int, command: TransportCommand },
    PrintLine(Seq<char>),
    Print(Seq<char>),
}

impl DeepView for Effect {
    type V = EffectView;

    open spec fn deep_view(&self) -> EffectView {
        match self {
            Effect::Transport { target, command } => EffectView::Transport {
                target: *target as int,
                command: *command,
            },
            Effect::PrintLine(s) => EffectView::PrintLine(s@),
            Effect::Print(s) => EffectView::Print(s@),
        }
    }
}

/// Everything one invocation does, in order, and its boolean outcome
/// (`true` exits with code 0, `false` with code 1).
pub struct Plan {
    pub effects: Vec<Effect>,
    pub outcome: bool,
}

/// A relative seek of `millis` milliseconds in the collaborator's native
/// unit: scaled by 64 and truncated toward zero.
pub open spec fn ticks_of(millis: int) -> int {
    if millis >= 0 {
        (millis * 64) / 1000
    } else {
        -((-millis * 64) / 1000)
    }
}

/// Scale a relative seek into transport ticks.
pub fn seek_ticks(millis: i64) -> (t: i64)
    ensures
        t as int == ticks_of(millis as int),
{
    proof {
        lemma_ticks_fit(millis as int);
    }
    if millis >= 0 {
        let v: u128 = (millis as u128) * 64 / 1000;
        v as i64
    } else {
        let neg: i128 = -(millis as i128);
        let v: u128 = (neg as u128) * 64 / 1000;
        -(v as i64)
    }
}

/// The scaled seek always fits the transport's signed unit.
proof fn lemma_ticks_fit(millis: int)
    requires
        i64::MIN <= millis <= i64::MAX,
    ensures
        -0x8000_0000_0000_0000 < ticks_of(millis) < 0x8000_0000_0000_0000,
        millis >= 0 ==> 0 <= ticks_of(millis) <= millis,
        millis < 0 ==> millis <= ticks_of(millis) <= 0,
{
    if millis >= 0 {
        lemma_div_is_ordered(millis * 64, millis * 1000, 1000);
        lemma_div_multiples_vanish(millis, 1000);
    } else {
        let m = -millis;
        lemma_div_is_ordered(0, m * 64, 1000);
        lemma_div_is_ordered(m * 64, m * 1000, 1000);
        lemma_div_multiples_vanish(m, 1000);
    }
}

/// The command an operation issues to one running player, if any. `Toggle`
/// pauses a playing player and plays any other; an absolute seek is silently
/// skipped when the player exposes no track reference.
pub open spec fn command_for(op: Operation, p: RunningPlayerView) -> Option<TransportCommand> {
    match op {
        Operation::Toggle => Some(
            if p.status == PlaybackStatus::Playing {
                TransportCommand::Pause
            } else {
                TransportCommand::Play
            },
        ),
        Operation::Play => Some(TransportCommand::Play),
        Operation::Pause => Some(TransportCommand::Pause),
        Operation::Next => Some(TransportCommand::Next),
        Operation::Previous => Some(TransportCommand::Previous),
        Operation::Rewind { millis } => Some(TransportCommand::SeekBackwards { millis }),
        Operation::Forward { millis } => Some(TransportCommand::SeekForwards { millis }),
        Operation::SeekRelative { offset_millis } => Some(
            TransportCommand::SeekRelative { ticks: ticks_of(offset_millis as int) as i64 },
        ),
        Operation::Seek { millis } => if p.metadata.has_track_id {
            Some(TransportCommand::SetPosition { millis })
        } else {
            None
        },
    }
}

/// Decide the command an operation issues to one running player.
pub fn command_for_exec(op: &Operation, p: &RunningPlayer) -> (c: Option<TransportCommand>)
    ensures
        c == command_for(*op, p@),
{
    match op {
        Operation::Toggle => Some(
            if p.status == PlaybackStatus::Playing {
                TransportCommand::Pause
            } else {
                TransportCommand::Play
            },
        ),
        Operation::Play => Some(TransportCommand::Play),
        Operation::Pause => Some(TransportCommand::Pause),
        Operation::Next => Some(TransportCommand::Next),
        Operation::Previous => Some(TransportCommand::Previous),
        Operation::Rewind { millis } => Some(TransportCommand::SeekBackwards { millis: *millis }),
        Operation::Forward { millis } => Some(TransportCommand::SeekForwards { millis: *millis }),
        Operation::SeekRelative { offset_millis } => Some(
            TransportCommand::SeekRelative { ticks: seek_ticks(*offset_millis) },
        ),
        Operation::Seek { millis } => if p.metadata.has_track_id {
            Some(TransportCommand::SetPosition { millis: *millis })
        } else {
            None
        },
    }
}

/// The broadcast of an operation: one transport command per resolved
/// position, in resolution order, except positions the operation skips.
pub open spec fn operation_effects(
    op: Operation,
    snap: Seq<RunningPlayerView>,
    idxs: Seq<int>,
) -> Seq<EffectView>
    decreases idxs.len(),
{
    if idxs.len() == 0 {
        Seq::empty()
    } else {
        let rest = operation_effects(op, snap, idxs.drop_last());
        match command_for(op, snap[idxs.last()]) {
            Some(c) => rest.push(EffectView::Transport { target: idxs.last(), command: c }),
            None => rest,
        }
    }
}

/// The `player` listing: every resolved identity, one line each.
pub open spec fn player_effects(snap: Seq<RunningPlayerView>, idxs: Seq<int>) -> Seq<EffectView> {
    idxs.map_values(|i: int| EffectView::PrintLine(snap[i].identity))
}

/// A metadata URL, or the empty string when the player reports none.
pub open spec fn url_of(meta: MetadataView) -> Seq<char> {
    match meta.url {
        Some(u) => u,
        None => Seq::empty(),
    }
}

/// The `url` listing: the metadata URL of every resolved match whose
/// identity is recognized, unterminated, in resolution order.
pub open spec fn url_effects(snap: Seq<RunningPlayerView>, idxs: Seq<int>) -> Seq<EffectView>
    decreases idxs.len(),
{
    if idxs.len() == 0 {
        Seq::empty()
    } else {
        let rest = url_effects(snap, idxs.drop_last());
        if parse_spec(snap[idxs.last()].identity) is Some {
            rest.push(EffectView::Print(url_of(snap[idxs.last()].metadata)))
        } else {
            rest
        }
    }
}

/// The position within `idxs`, scanning from `k`, of the first resolved
/// match that is playing; `idxs.len()` when none is.
pub open spec fn first_playing_pos_from(
    snap: Seq<RunningPlayerView>,
    idxs: Seq<int>,
    k: int,
) -> int
    decreases idxs.len() - k,
{
    if k < 0 || k >= idxs.len() {
        idxs.len() as int
    } else if snap[idxs[k]].status == PlaybackStatus::Playing {
        k
    } else {
        first_playing_pos_from(snap, idxs, k + 1)
    }
}

/// The snapshot position of the first resolved match that is playing.
pub open spec fn first_playing(snap: Seq<RunningPlayerView>, idxs: Seq<int>) -> Option<int> {
    let m = first_playing_pos_from(snap, idxs, 0);
    if m < idxs.len() {
        Some(idxs[m])
    } else {
        None
    }
}

/// First-match-wins law: the scan stops at the first resolved match that is
/// *playing* — everything resolved before it is not playing — and reports
/// nothing only when no resolved match plays at all.
pub proof fn lemma_first_playing(snap: Seq<RunningPlayerView>, idxs: Seq<int>, k: int)
    requires
        0 <= k <= idxs.len(),
    ensures
        k <= first_playing_pos_from(snap, idxs, k) <= idxs.len(),
        first_playing_pos_from(snap, idxs, k) < idxs.len() ==> snap[idxs[first_playing_pos_from(
            snap,
            idxs,
            k,
        )]].status == PlaybackStatus::Playing,
        forall|j: int|
            k <= j < first_playing_pos_from(snap, idxs, k) ==> snap[#[trigger] idxs[j]].status
                != PlaybackStatus::Playing,
    decreases idxs.len() - k,
{
    if k < idxs.len() && snap[idxs[k]].status != PlaybackStatus::Playing {
        lemma_first_playing(snap, idxs, k + 1);
    }
}

/// The status line printed for one playing player.
pub open spec fn status_line_for(
    p: RunningPlayerView,
    no_icon: bool,
    spaces_after_icon: nat,
) -> Seq<char> {
    rendered_line(composed_line(p.identity, p.metadata, no_icon, spaces_after_icon))
}

/// The `status` output: nothing when quiet; otherwise one line, the first
/// playing match's status line, or `"No media"` when nothing plays.
pub open spec fn status_effects(
    snap: Seq<RunningPlayerView>,
    idxs: Seq<int>,
    no_icon: bool,
    spaces_after_icon: nat,
    quiet: bool,
) -> Seq<EffectView> {
    if quiet {
        Seq::empty()
    } else {
        match first_playing(snap, idxs) {
            Some(i) => seq![
                EffectView::PrintLine(status_line_for(snap[i], no_icon, spaces_after_icon)),
            ],
            None => seq![EffectView::PrintLine("No media"@)],
        }
    }
}

/// Everything a non-favorite action does, in order. The favorite action is
/// delegated to the favorites coordinator and plans nothing here.
pub open spec fn plan_effects(
    action: Action,
    ranking: Seq<Player>,
    snap: Seq<RunningPlayerView>,
) -> Seq<EffectView> {
    let idxs = resolve_spec(ranking, snap);
    match action {
        Action::Operation(op) => operation_effects(op, snap, idxs),
        Action::Player => player_effects(snap, idxs),
        Action::Url => url_effects(snap, idxs),
        Action::Status { no_icon, spaces_after_icon, quiet } => status_effects(
            snap,
            idxs,
            no_icon,
            spaces_after_icon as nat,
            quiet,
        ),
        Action::Favorite { .. } => Seq::empty(),
    }
}

/// The boolean outcome of a dispatched action: quiet status reports `false`
/// whatever it finds; every other dispatched action reports `true`.
pub open spec fn plan_outcome(action: Action) -> bool {
    match action {
        Action::Status { quiet, .. } => !quiet,
        _ => true,
    }
}

/// Dispatch an action over a snapshot: resolve the ranked matches and lay
/// out exactly what to do to each, under the action's policy.
pub fn plan(action: &Action, ranking: &Vec<Player>, snap: &Vec<RunningPlayer>) -> (p: Plan)
    ensures
        p.effects.deep_view() == plan_effects(*action, ranking@, snap.deep_view()),
        p.outcome == plan_outcome(*action),
{
    let ghost snapv = snap.deep_view();
    let idxs = resolve(ranking, snap);
    let ghost gidxs = resolve_spec(ranking@, snapv);
    proof {
        assert(snapv.len() == snap@.len());
        assert(gidxs.len() == idxs@.len());
    }
    let mut effects: Vec<Effect> = Vec::new();
    match action {
        Action::Operation(op) => {
            let mut k: usize = 0;
            while k < idxs.len()
                invariant
                    k <= idxs@.len(),
                    snapv == snap.deep_view(),
                    snapv.len() == snap@.len(),
                    positions_of(idxs@) == gidxs,
                    forall|j: int| 0 <= j < idxs@.len() ==> idxs@[j] < snap@.len(),
                    effects.deep_view() == operation_effects(*op, snapv, gidxs.take(k as int)),
                decreases idxs@.len() - k,
            {
                let i = idxs[k];
                let ghost pre = effects.deep_view();
                match command_for_exec(op, &snap[i]) {
                    Some(c) => {
                        effects.push(Effect::Transport { target: i, command: c });
                        assert(effects.deep_view() =~= pre.push(
                            EffectView::Transport { target: i as int, command: c },
                        ));
                    },
                    None => {},
                }
                proof {
                    assert(gidxs.take(k + 1).drop_last() =~= gidxs.take(k as int));
                    assert(gidxs.take(k + 1).last() == gidxs[k as int]);
                    assert(snap[i as int]@ == snapv[i as int]);
                }
                k = k + 1;
            }
            proof {
                assert(gidxs.take(gidxs.len() as int) =~= gidxs);
            }
            Plan { effects, outcome: true }
        },
        Action::Player => {
            let mut k: usize = 0;
            while k < idxs.len()
                invariant
                    k <= idxs@.len(),
                    snapv == snap.deep_view(),
                    snapv.len() == snap@.len(),
                    positions_of(idxs@) == gidxs,
                    forall|j: int| 0 <= j < idxs@.len() ==> idxs@[j] < snap@.len(),
                    effects.deep_view() == player_effects(snapv, gidxs.take(k as int)),
                decreases idxs@.len() - k,
            {
                let i = idxs[k];
                let ghost pre = effects.deep_view();
                effects.push(Effect::PrintLine(snap[i].identity.clone()));
                proof {
                    assert(snap[i as int]@ == snapv[i as int]);
                    assert(effects.deep_view() =~= pre.push(
                        EffectView::PrintLine(snapv[gidxs[k as int]].identity),
                    ));
                    assert(effects.deep_view() =~= player_effects(snapv, gidxs.take(k + 1)));
                }
                k = k + 1;
            }
            proof {
                assert(gidxs.take(gidxs.len() as int) =~= gidxs);
            }
            Plan { effects, outcome: true }
        },
        Action::Url => {
            let mut k: usize = 0;
            while k < idxs.len()
                invariant
                    k <= idxs@.len(),
                    snapv == snap.deep_view(),
                    snapv.len() == snap@.len(),
                    positions_of(idxs@) == gidxs,
                    forall|j: int| 0 <= j < idxs@.len() ==> idxs@[j] < snap@.len(),
                    effects.deep_view() == url_effects(snapv, gidxs.take(k as int)),
                decreases idxs@.len() - k,
            {
                let i = idxs[k];
                let ghost pre = effects.deep_view();
                proof {
                    assert(snap[i as int]@ == snapv[i as int]);
                }
                if Player::parse(snap[i].identity.as_str()).is_some() {
                    let u = match &snap[i].metadata.url {
                        Some(u) => u.clone(),
                        None => String::new(),
                    };
                    effects.push(Effect::Print(u));
                    assert(effects.deep_view() =~= pre.push(
                        EffectView::Print(url_of(snapv[i as int].metadata)),
                    ));
                }
                proof {
                    assert(gidxs.take(k + 1).drop_last() =~= gidxs.take(k as int));
                    assert(gidxs.take(k + 1).last() == gidxs[k as int]);
                }
                k = k + 1;
            }
            proof {
                assert(gidxs.take(gidxs.len() as int) =~= gidxs);
            }
            Plan { effects, outcome: true }
        },
        Action::Status { no_icon, spaces_after_icon, quiet } => {
            if *quiet {
                return Plan { effects, outcome: false };
            }
            let mut k: usize = 0;
            let mut found: Option<usize> = None;
            while k < idxs.len() && found.is_none()
                invariant
                    k <= idxs@.len(),
                    snapv == snap.deep_view(),
                    snapv.len() == snap@.len(),
                    positions_of(idxs@) == gidxs,
                    forall|j: int| 0 <= j < idxs@.len() ==> idxs@[j] < snap@.len(),
                    match found {
                        Some(i) => i < snap@.len() && first_playing(snapv, gidxs) == Some(
                            i as int,
                        ),
                        None => first_playing_pos_from(snapv, gidxs, 0) == first_playing_pos_from(
                            snapv,
                            gidxs,
                            k as int,
                        ),
                    },
                decreases idxs@.len() - k,
            {
                let i = idxs[k];
                proof {
                    assert(snap[i as int]@ == snapv[i as int]);
                }
                if is_playing(&snap[i]) {
                    found = Some(i);
                } else {
                    proof {
                        assert(first_playing_pos_from(snapv, gidxs, k as int)
                            == first_playing_pos_from(snapv, gidxs, k + 1));
                    }
                }
                k = k + 1;
            }
            match found {
                Some(i) => {
                    let line = compose_status_line(&snap[i], *no_icon, *spaces_after_icon);
                    let ghost pre = effects.deep_view();
                    effects.push(Effect::PrintLine(line));
                    proof {
                        assert(snap[i as int]@ == snapv[i as int]);
                        assert(effects.deep_view() =~= status_effects(
                            snapv,
                            gidxs,
                            *no_icon,
                            *spaces_after_icon as nat,
                            false,
                        ));
                    }
                    Plan { effects, outcome: true }
                },
                None => {
                    proof {
                        assert(first_playing_pos_from(snapv, gidxs, gidxs.len() as int)
                            == gidxs.len());
                        assert(first_playing(snapv, gidxs) is None);
                    }
                    effects.push(Effect::PrintLine(String::from_str("No media")));
                    assert(effects.deep_view() =~= status_effects(
                        snapv,
                        gidxs,
                        *no_icon,
                        *spaces_after_icon as nat,
                        false,
                    ));
                    Plan { effects, outcome: true }
                },
            }
        },
        Action::Favorite { .. } => Plan { effects, outcome: true },
    }
}

/// Whether a running player reports that it is playing.
pub fn is_playing(p: &RunningPlayer) -> (r: bool)
    ensures
        r == (p@.status == PlaybackStatus::Playing),
{
    p.status == PlaybackStatus::Playing
}

/// How many transport commands a plan aims at one snapshot position.
pub open spec fn transport_count(effects: Seq<EffectView>, i: int) -> nat {
    effects.filter(
        |e: EffectView| e matches EffectView::Transport { target, .. } && target == i,
    ).len()
}

/// Each resolved occurrence of a position gets exactly one command, unless
/// the operation skips that player; positions never resolved get none.
pub proof fn lemma_operation_broadcast(
    op: Operation,
    snap: Seq<RunningPlayerView>,
    idxs: Seq<int>,
    i: int,
)
    requires
        0 <= i < snap.len(),
    ensures
        transport_count(operation_effects(op, snap, idxs), i) == if command_for(op, snap[i])
            is Some {
            idxs.to_multiset().count(i)
        } else {
            0nat
        },
    decreases idxs.len(),
{
    broadcast use vstd::seq_lib::group_to_multiset_ensures;

    let pred = |e: EffectView| e matches EffectView::Transport { target, .. } && target == i;
    if idxs.len() == 0 {
        assert(idxs.to_multiset() =~= Multiset::empty());
        reveal(Seq::filter);
    } else {
        lemma_operation_broadcast(op, snap, idxs.drop_last(), i);
        let rest = operation_effects(op, snap, idxs.drop_last());
        let last = idxs.last();
        assert(idxs.drop_last().push(last) =~= idxs);
        reveal(Seq::filter);
        match command_for(op, snap[last]) {
            Some(c) => {
                let e = EffectView::Transport { target: last, command: c };
                assert(rest.push(e).drop_last() =~= rest);
                assert(rest.push(e).last() == e);
                assert(rest.push(e).filter(pred) == if pred(e) {
                    rest.filter(pred).push(e)
                } else {
                    rest.filter(pred)
                });
            },
            None => {},
        }
    }
}

/// Broadcast completeness law: under any ranking, an operation that issues a
/// command to a player reaches each running player exactly once per ranking
/// entry naming that player's identity — and players named by no ranking
/// entry are never commanded.
pub proof fn lemma_broadcast_completeness(
    op: Operation,
    ranking: Seq<Player>,
    snap: Seq<RunningPlayerView>,
    i: int,
)
    requires
        0 <= i < snap.len(),
        command_for(op, snap[i]) is Some,
    ensures
        transport_count(operation_effects(op, snap, resolve_spec(ranking, snap)), i)
            == ranking.filter(|r: Player| r.canon() == snap[i].identity).len(),
{
    lemma_operation_broadcast(op, snap, resolve_spec(ranking, snap), i);
    crate::resolver::lemma_resolve_count(ranking, snap, i);
}

/// No-media law: when no running player is playing, non-quiet status prints
/// exactly the line `"No media"`, and quiet status prints nothing.
pub proof fn lemma_no_media(
    ranking: Seq<Player>,
    snap: Seq<RunningPlayerView>,
    no_icon: bool,
    spaces_after_icon: nat,
    quiet: bool,
)
    requires
        forall|i: int|
            0 <= i < snap.len() ==> (#[trigger] snap[i].status) != PlaybackStatus::Playing,
    ensures
        status_effects(snap, resolve_spec(ranking, snap), no_icon, spaces_after_icon, quiet)
            == if quiet {
            Seq::<EffectView>::empty()
        } else {
            seq![EffectView::PrintLine("No media"@)]
        },
{
    let idxs = resolve_spec(ranking, snap);
    crate::resolver::lemma_resolve_bounds(ranking, snap);
    lemma_first_playing(snap, idxs, 0);
    let m = first_playing_pos_from(snap, idxs, 0);
    if m < idxs.len() {
        assert(snap[idxs[m]].status == PlaybackStatus::Playing);
    }
}

} // verus!
