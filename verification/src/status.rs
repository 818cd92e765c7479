//! The now-playing status formatter: icon prefix, metadata defaulting, the
//! fixed `title // album @ artist` shape, and truncation of long lines.

use vstd::prelude::*;
use crate::player::{icon_of_identity, Player};
use crate::snapshot::{MetadataView, RunningPlayer};

verus! {

/// A status line longer than this many characters is truncated.
pub const MAX_STATUS_LEN: usize = 70;

/// A metadata string, or `"Unknown"` when the player reports none.
pub open spec fn or_unknown(o: Option<Seq<char>>) -> Seq<char> {
    match o {
        Some(s) => s,
        None => "Unknown"@,
    }
}

/// The first listed artist, or `"Unknown"` when the list is empty.
pub open spec fn artist_of(artists: Seq<Seq<char>>) -> Seq<char> {
    if artists.len() == 0 {
        "Unknown"@
    } else {
        artists[0]
    }
}

/// `n` space characters.
pub open spec fn spaces(n: nat) -> Seq<char> {
    Seq::new(n, |i: int| ' ')
}

/// What precedes the title: nothing when icons are suppressed, otherwise the
/// identity's icon glyph followed by exactly `spaces_after_icon` spaces.
pub open spec fn icon_prefix_spec(identity: Seq<char>, no_icon: bool, spaces_after_icon: nat) -> Seq<
    char,
> {
    if no_icon {
        Seq::empty()
    } else {
        icon_of_identity(identity) + spaces(spaces_after_icon)
    }
}

/// The status line's body: title, album and first artist, each defaulted,
/// joined by the fixed separators.
pub open spec fn body_line(meta: MetadataView) -> Seq<char> {
    or_unknown(meta.title) + " // "@ + or_unknown(meta.album) + " @ "@ + artist_of(meta.artists)
}

/// The composed, untruncated status line.
pub open spec fn composed_line(
    identity: Seq<char>,
    meta: MetadataView,
    no_icon: bool,
    spaces_after_icon: nat,
) -> Seq<char> {
    icon_prefix_spec(identity, no_icon, spaces_after_icon) + body_line(meta)
}

/// The line as printed: unchanged when it fits, else its first
/// `MAX_STATUS_LEN - 3` characters followed by `"..."`.
pub open spec fn rendered_line(line: Seq<char>) -> Seq<char> {
    if line.len() > MAX_STATUS_LEN {
        line.take(MAX_STATUS_LEN - 3) + "..."@
    } else {
        line
    }
}

/// Truncation law: a line over the limit is emitted as its first 67
/// characters followed by `"..."`, for 70 characters in all.
pub proof fn lemma_truncation(line: Seq<char>)
    requires
        line.len() > MAX_STATUS_LEN,
    ensures
        rendered_line(line) == line.take(MAX_STATUS_LEN - 3) + "..."@,
        rendered_line(line).len() == MAX_STATUS_LEN,
{
    reveal_strlit("...");
}

/// Defaulting law: a player with no title, no album and no artists composes
/// to the icon prefix followed by `"Unknown // Unknown @ Unknown"`, and that
/// line is never truncated when icons are suppressed.
pub proof fn lemma_metadata_defaulting(
    identity: Seq<char>,
    meta: MetadataView,
    no_icon: bool,
    spaces_after_icon: nat,
)
    requires
        meta.title is None,
        meta.album is None,
        meta.artists.len() == 0,
    ensures
        composed_line(identity, meta, no_icon, spaces_after_icon) == icon_prefix_spec(
            identity,
            no_icon,
            spaces_after_icon,
        ) + "Unknown // Unknown @ Unknown"@,
        no_icon ==> rendered_line(composed_line(identity, meta, no_icon, spaces_after_icon))
            == "Unknown // Unknown @ Unknown"@,
{
    reveal_strlit("Unknown");
    reveal_strlit(" // ");
    reveal_strlit(" @ ");
    reveal_strlit("Unknown // Unknown @ Unknown");
    assert(body_line(meta) =~= "Unknown // Unknown @ Unknown"@);
    if no_icon {
        assert(composed_line(identity, meta, no_icon, spaces_after_icon) =~= body_line(meta));
    }
}

/// Icon suppression law: with `no_icon` set the prefix is empty and the
/// composed line is the bare body, whatever the identity and whatever number
/// of spaces was asked for.
pub proof fn lemma_icon_suppression(
    identity: Seq<char>,
    meta: MetadataView,
    spaces_after_icon: nat,
)
    ensures
        icon_prefix_spec(identity, true, spaces_after_icon) == Seq::<char>::empty(),
        composed_line(identity, meta, true, spaces_after_icon) == body_line(meta),
{
    assert(composed_line(identity, meta, true, spaces_after_icon) =~= body_line(meta));
}

/// Build the status line for one running player, truncated as printed.
pub fn compose_status_line(p: &RunningPlayer, no_icon: bool, spaces_after_icon: usize) -> (r:
    String)
    ensures
        r@ == rendered_line(
            composed_line(p@.identity, p@.metadata, no_icon, spaces_after_icon as nat),
        ),
{
    let mut line = String::new();
    if !no_icon {
        let icon = match Player::parse(p.identity.as_str()) {
            Some(pl) => pl.icon(),
            None => "",
        };
        line.append(icon);
        let ghost glyph = icon_of_identity(p@.identity);
        proof {
            reveal_strlit(" ");
            assert(line@ =~= glyph + spaces(0));
        }
        let mut i: usize = 0;
        while i < spaces_after_icon
            invariant
                i <= spaces_after_icon,
                " "@.len() == 1 && " "@[0] == ' ',
                line@ == glyph + spaces(i as nat),
            decreases spaces_after_icon - i,
        {
            line.append(" ");
            proof {
                assert(glyph + spaces((i + 1) as nat) =~= glyph + spaces(i as nat) + " "@);
            }
            i = i + 1;
        }
    }
    assert(line@ == icon_prefix_spec(p@.identity, no_icon, spaces_after_icon as nat));
    match &p.metadata.title {
        Some(t) => line.append(t.as_str()),
        None => line.append("Unknown"),
    }
    line.append(" // ");
    match &p.metadata.album {
        Some(a) => line.append(a.as_str()),
        None => line.append("Unknown"),
    }
    line.append(" @ ");
    if p.metadata.artists.len() == 0 {
        line.append("Unknown");
    } else {
        line.append(p.metadata.artists[0].as_str());
        assert(p.metadata.artists@[0]@ == p@.metadata.artists[0]);
    }
    assert(line@ == composed_line(p@.identity, p@.metadata, no_icon, spaces_after_icon as nat));
    let n = line.as_str().unicode_len();
    if n > MAX_STATUS_LEN {
        let kept = line.as_str().substring_char(0, MAX_STATUS_LEN - 3);
        let mut out = String::from_str(kept);
        out.append("...");
        out
    } else {
        line
    }
}

} // verus!
