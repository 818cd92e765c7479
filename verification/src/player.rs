//! The catalog of recognized player identities: the ranked list, the
//! canonical bus name of each identity, its display icon, and parsing of a
//! bus-reported name back into an identity.

use vstd::prelude::*;

verus! {

/// A recognized media player, or a custom one named by its bus identity.
#[derive(Clone, Copy, Debug, PartialEq, Eq)]
pub enum Player {
    Mpv,
    Vlc,
    Firefox,
    Spotify,
    Chrome,
    Custom(&'static str),
}

impl Player {
    /// The canonical identity string this player reports on the bus.
    pub open spec fn canon(self) -> Seq<char> {
        match self {
            Player::Mpv => "mpv"@,
            Player::Vlc => "vlc"@,
            Player::Firefox => "Mozilla firefox"@,
            Player::Spotify => "Spotify"@,
            Player::Chrome => "chrome"@,
            Player::Custom(s) => s@,
        }
    }

    /// The icon glyph shown before a status line; a custom identity has none.
    pub open spec fn icon_spec(self) -> Seq<char> {
        match self {
            Player::Mpv => "\u{f36e}"@,
            Player::Vlc => "\u{f057c}"@,
            Player::Firefox => "\u{f269}"@,
            Player::Spotify => "\u{f1bc}"@,
            Player::Chrome => "\u{f268}"@,
            Player::Custom(_) => ""@,
        }
    }

    pub fn to_str(&self) -> (r: &'static str)
        ensures
            r@ == self.canon(),
    {
        match self {
            Player::Mpv => "mpv",
            Player::Vlc => "vlc",
            Player::Firefox => "Mozilla firefox",
            Player::Spotify => "Spotify",
            Player::Chrome => "chrome",
            Player::Custom(s) => s,
        }
    }

    pub fn icon(&self) -> (r: &'static str)
        ensures
            r@ == self.icon_spec(),
    {
        match self {
            Player::Mpv => "\u{f36e}",
            Player::Vlc => "\u{f057c}",
            Player::Firefox => "\u{f269}",
            Player::Spotify => "\u{f1bc}",
            Player::Chrome => "\u{f268}",
            Player::Custom(_) => "",
        }
    }

    pub fn parse(s: &str) -> (r: Option<Player>)
        ensures
            r == parse_spec(s@),
    {
        if str_eq(s, "mpv") {
            Some(Player::Mpv)
        } else if str_eq(s, "vlc") {
            Some(Player::Vlc)
        } else if str_eq(s, "Mozilla firefox") {
            Some(Player::Firefox)
        } else if str_eq(s, "Spotify") {
            Some(Player::Spotify)
        } else if str_eq(s, "chrome") {
            Some(Player::Chrome)
        } else {
            None
        }
    }
}

/// Which recognized player a bus identity string names, if any. Matching is
/// exact and case-sensitive; an unrecognized string parses to nothing and is
/// never assigned an icon.
pub open spec fn parse_spec(s: Seq<char>) -> Option<Player> {
    if s == "mpv"@ {
        Some(Player::Mpv)
    } else if s == "vlc"@ {
        Some(Player::Vlc)
    } else if s == "Mozilla firefox"@ {
        Some(Player::Firefox)
    } else if s == "Spotify"@ {
        Some(Player::Spotify)
    } else if s == "chrome"@ {
        Some(Player::Chrome)
    } else {
        None
    }
}

/// The icon belonging to a bus identity string: the parsed player's glyph,
/// or nothing when the string is unrecognized.
pub open spec fn icon_of_identity(s: Seq<char>) -> Seq<char> {
    match parse_spec(s) {
        Some(p) => p.icon_spec(),
        None => ""@,
    }
}

/// Round-trip law of the catalog table: every recognized player's canonical
/// string parses back to that player, and whatever parses to a player
/// carries exactly that player's canonical string. The ranking's custom
/// `"mpv"` entry parses back to the recognized player it stands in for.
pub proof fn lemma_parse_canon_round_trip(p: Player, s: Seq<char>)
    ensures
        !(p matches Player::Custom(_)) ==> parse_spec(p.canon()) == Some(p),
        parse_spec(s) == Some(p) ==> p.canon() == s,
{
    reveal_strlit("mpv");
    reveal_strlit("vlc");
    reveal_strlit("Mozilla firefox");
    reveal_strlit("Spotify");
    reveal_strlit("chrome");
    assert("vlc"@ != "mpv"@) by {
        assert("vlc"@[0] == 'v' && "mpv"@[0] == 'm');
    }
    assert("Mozilla firefox"@.len() == 15);
    assert("Spotify"@.len() == 7);
    assert("chrome"@.len() == 6);
    assert("mpv"@.len() == 3 && "vlc"@.len() == 3);
}

/// Character-by-character string equality.
pub fn str_eq(a: &str, b: &str) -> (r: bool)
    ensures
        r == (a@ == b@),
{
    let n = a.unicode_len();
    if n != b.unicode_len() {
        return false;
    }
    let mut i: usize = 0;
    while i < n
        invariant
            n == a@.len(),
            n == b@.len(),
            i <= n,
            forall|j: int| 0 <= j < i ==> a@[j] == b@[j],
        decreases n - i,
    {
        if a.get_char(i) != b.get_char(i) {
            return false;
        }
        i = i + 1;
    }
    proof {
        assert(a@ =~= b@);
    }
    true
}

/// The fixed priority ranking of players, highest priority first.
pub fn ranking() -> (r: Vec<Player>)
    ensures
        r@.len() == 5,
        r@[0] matches Player::Custom(s) && s@ == "mpv"@,
        r@[0].canon() == "mpv"@,
        r@[1] == Player::Vlc,
        r@[2] == Player::Firefox,
        r@[3] == Player::Spotify,
        r@[4] == Player::Chrome,
{
    let mut r: Vec<Player> = Vec::new();
    r.push(Player::Custom("mpv"));
    r.push(Player::Vlc);
    r.push(Player::Firefox);
    r.push(Player::Spotify);
    r.push(Player::Chrome);
    r
}

} // verus!
