//! Free-PvP team panel.
//!
//! The character's `free_pvp` byte is the panel's whole input: `0` is "not in
//! Free-PvP" and `1..=5` are the five states in declaration order. A row in
//! the panel's descriptor takes its team from its art, never from its record
//! position, and the panel exists only while the character is in Free-PvP.
use vstd::prelude::*;
use crate::text::{chars_eq, chars_of, normalize_path, normalize_path_chars, push_all, push_str, string_of};

verus! {

/// Where a descriptor's `Background` paths are rooted.
pub const ART_ROOT: &'static str = "media://interface/";

/// One of the four Free-PvP teams, plus the yellow free-for-all state.
#[derive(Clone, Copy, Debug, PartialEq, Eq, Structural)]
pub enum FreePvpTeam {
    /// Team Red Hawk.
    Red,
    /// Team Black Turtle.
    Gray,
    /// Team Blue Dragon.
    Blue,
    /// Team White Tiger.
    White,
    /// Not a team: hostile against everyone.
    Yellow,
}

pub open spec fn spec_from_wire(byte: u8) -> Option<FreePvpTeam> {
    if byte == 1 {
        Some(FreePvpTeam::Red)
    } else if byte == 2 {
        Some(FreePvpTeam::Gray)
    } else if byte == 3 {
        Some(FreePvpTeam::Blue)
    } else if byte == 4 {
        Some(FreePvpTeam::White)
    } else if byte == 5 {
        Some(FreePvpTeam::Yellow)
    } else {
        None
    }
}

pub open spec fn spec_to_wire(team: Option<FreePvpTeam>) -> u8 {
    match team {
        None => 0,
        Some(FreePvpTeam::Red) => 1,
        Some(FreePvpTeam::Gray) => 2,
        Some(FreePvpTeam::Blue) => 3,
        Some(FreePvpTeam::White) => 4,
        Some(FreePvpTeam::Yellow) => 5,
    }
}

/// The art base name the descriptor uses for a state's icon.
pub open spec fn spec_art_stem(team: FreePvpTeam) -> Seq<char> {
    match team {
        FreePvpTeam::Red => "frpvp_red"@,
        FreePvpTeam::Gray => "frpvp_gray"@,
        FreePvpTeam::Blue => "frpvp_blue"@,
        FreePvpTeam::White => "frpvp_white"@,
        FreePvpTeam::Yellow => "frpvp_yellow"@,
    }
}

/// The part of a path after its last `/` (the whole path when it has none).
pub open spec fn last_component(s: Seq<char>) -> Seq<char>
    decreases s.len(),
{
    if s.len() == 0 {
        s
    } else if s.last() == '/' {
        Seq::empty()
    } else {
        last_component(s.drop_last()).push(s.last())
    }
}

/// `s` with every trailing `.ddj` removed.
pub open spec fn trim_ddj(s: Seq<char>) -> Seq<char>
    decreases s.len(),
{
    if s.len() >= 4 && s.subrange(s.len() - 4, s.len() as int) == ".ddj"@ {
        trim_ddj(s.subrange(0, s.len() - 4))
    } else {
        s
    }
}

/// The icon stem an art path names: lowercased, forward-slashed, its last
/// component, without the `.ddj` extension.
pub open spec fn art_stem_of(background: Seq<char>) -> Seq<char> {
    trim_ddj(last_component(normalize_path(background)))
}

/// The state whose icon stem a `Background` names, if any.
pub open spec fn spec_from_art(background: Seq<char>) -> Option<FreePvpTeam> {
    let stem = art_stem_of(background);
    if stem == spec_art_stem(FreePvpTeam::Red) {
        Some(FreePvpTeam::Red)
    } else if stem == spec_art_stem(FreePvpTeam::Gray) {
        Some(FreePvpTeam::Gray)
    } else if stem == spec_art_stem(FreePvpTeam::Blue) {
        Some(FreePvpTeam::Blue)
    } else if stem == spec_art_stem(FreePvpTeam::White) {
        Some(FreePvpTeam::White)
    } else if stem == spec_art_stem(FreePvpTeam::Yellow) {
        Some(FreePvpTeam::Yellow)
    } else {
        None
    }
}

impl FreePvpTeam {
    /// Every state, in declaration order.
    pub fn all() -> (teams: [FreePvpTeam; 5])
        ensures
            teams@ == seq![
                FreePvpTeam::Red,
                FreePvpTeam::Gray,
                FreePvpTeam::Blue,
                FreePvpTeam::White,
                FreePvpTeam::Yellow,
            ],
    {
        let teams = [
            FreePvpTeam::Red,
            FreePvpTeam::Gray,
            FreePvpTeam::Blue,
            FreePvpTeam::White,
            FreePvpTeam::Yellow,
        ];
        proof {
            assert(teams@ =~= seq![
                FreePvpTeam::Red,
                FreePvpTeam::Gray,
                FreePvpTeam::Blue,
                FreePvpTeam::White,
                FreePvpTeam::Yellow,
            ]);
        }
        teams
    }

    /// The character's `free_pvp` byte. Anything outside `1..=5` is a value
    /// never seen and reads as "not in Free-PvP" rather than being guessed at.
    pub fn from_wire(byte: u8) -> (team: Option<FreePvpTeam>)
        ensures
            team == spec_from_wire(byte),
    {
        match byte {
            1 => Some(FreePvpTeam::Red),
            2 => Some(FreePvpTeam::Gray),
            3 => Some(FreePvpTeam::Blue),
            4 => Some(FreePvpTeam::White),
            5 => Some(FreePvpTeam::Yellow),
            _ => None,
        }
    }

    /// The inverse of [`Self::from_wire`]; `None` is `0`.
    pub fn to_wire(team: Option<FreePvpTeam>) -> (byte: u8)
        ensures
            byte == spec_to_wire(team),
    {
        match team {
            None => 0,
            Some(FreePvpTeam::Red) => 1,
            Some(FreePvpTeam::Gray) => 2,
            Some(FreePvpTeam::Blue) => 3,
            Some(FreePvpTeam::White) => 4,
            Some(FreePvpTeam::Yellow) => 5,
        }
    }

    /// The art base name the descriptor uses for this state's icon.
    pub fn art_stem(self) -> (stem: &'static str)
        ensures
            stem@ == spec_art_stem(self),
    {
        match self {
            FreePvpTeam::Red => "frpvp_red",
            FreePvpTeam::Gray => "frpvp_gray",
            FreePvpTeam::Blue => "frpvp_blue",
            FreePvpTeam::White => "frpvp_white",
            FreePvpTeam::Yellow => "frpvp_yellow",
        }
    }

    /// The string-table key describing this state.
    pub fn string_key(self) -> (key: &'static str)
        ensures
            key@ == (match self {
                FreePvpTeam::Red => "UIIT_STT_FRPVP_RED"@,
                FreePvpTeam::Gray => "UIIT_STT_FRPVP_GRAY"@,
                FreePvpTeam::Blue => "UIIT_STT_FRPVP_BLUE"@,
                FreePvpTeam::White => "UIIT_STT_FRPVP_WHITE"@,
                FreePvpTeam::Yellow => "UIIT_STT_FRPVP_YELLOW"@,
            }),
    {
        match self {
            FreePvpTeam::Red => "UIIT_STT_FRPVP_RED",
            FreePvpTeam::Gray => "UIIT_STT_FRPVP_GRAY",
            FreePvpTeam::Blue => "UIIT_STT_FRPVP_BLUE",
            FreePvpTeam::White => "UIIT_STT_FRPVP_WHITE",
            FreePvpTeam::Yellow => "UIIT_STT_FRPVP_YELLOW",
        }
    }

    /// The state named by an icon entry's `Background`, whatever its record
    /// index; casing and separators are normalised first.
    pub fn from_art(background: &str) -> (team: Option<FreePvpTeam>)
        ensures
            team == spec_from_art(background@),
    {
        let raw = chars_of(background);
        let normalized = normalize_path_chars(&raw);
        let last = last_component_chars(&normalized);
        let stem = trim_ddj_chars(&last);
        let teams = FreePvpTeam::all();
        let mut i: usize = 0;
        while i < 5
            invariant
                teams@ == seq![
                    FreePvpTeam::Red,
                    FreePvpTeam::Gray,
                    FreePvpTeam::Blue,
                    FreePvpTeam::White,
                    FreePvpTeam::Yellow,
                ],
                stem@ == art_stem_of(background@),
                i <= 5,
                forall|j: int| 0 <= j < i ==> stem@ != spec_art_stem(#[trigger] teams@[j]),
            decreases 5 - i,
        {
            let team = teams[i];
            let candidate = chars_of(team.art_stem());
            if chars_eq(&candidate, &stem) {
                proof {
                    assert(teams@[i as int] == team);
                    if i >= 1 {
                        assert(stem@ != spec_art_stem(teams@[0]));
                    }
                    if i >= 2 {
                        assert(stem@ != spec_art_stem(teams@[1]));
                    }
                    if i >= 3 {
                        assert(stem@ != spec_art_stem(teams@[2]));
                    }
                    if i >= 4 {
                        assert(stem@ != spec_art_stem(teams@[3]));
                    }
                }
                return Some(team);
            }
            i = i + 1;
        }
        proof {
            assert(stem@ != spec_art_stem(teams@[0]));
            assert(stem@ != spec_art_stem(teams@[1]));
            assert(stem@ != spec_art_stem(teams@[2]));
            assert(stem@ != spec_art_stem(teams@[3]));
            assert(stem@ != spec_art_stem(teams@[4]));
        }
        None
    }
}

/// The part of `s` after its last `/`.
fn last_component_chars(s: &Vec<char>) -> (r: Vec<char>)
    ensures
        r@ == last_component(s@),
{
    let mut start: usize = s.len();
    proof {
        assert(s@.subrange(0, s@.len() as int) =~= s@);
        assert(s@.subrange(s@.len() as int, s@.len() as int) =~= Seq::<char>::empty());
        assert(last_component(s@) + Seq::<char>::empty() =~= last_component(s@));
    }
    while start > 0 && s[start - 1] != '/'
        invariant
            start <= s@.len(),
            last_component(s@) == last_component(s@.subrange(0, start as int)) + s@.subrange(
                start as int,
                s@.len() as int,
            ),
        decreases start,
    {
        proof {
            let p = s@.subrange(0, start as int);
            assert(p.drop_last() =~= s@.subrange(0, start - 1));
            assert(p.last() == s@[start - 1]);
            assert(last_component(p) == last_component(p.drop_last()).push(p.last()));
            assert(s@.subrange(start - 1, s@.len() as int) =~= seq![s@[start - 1]]
                + s@.subrange(start as int, s@.len() as int));
            assert(last_component(s@.subrange(0, start - 1)).push(p.last()) + s@.subrange(
                start as int,
                s@.len() as int,
            ) =~= last_component(s@.subrange(0, start - 1)) + s@.subrange(
                start - 1,
                s@.len() as int,
            ));
        }
        start = start - 1;
    }
    proof {
        let p = s@.subrange(0, start as int);
        if start > 0 {
            assert(p.last() == '/');
            assert(last_component(p) =~= Seq::<char>::empty());
        } else {
            assert(p =~= Seq::<char>::empty());
        }
        assert(s@.subrange(0, s@.len() as int) =~= s@);
    }
    let mut r: Vec<char> = Vec::new();
    let mut i: usize = start;
    while i < s.len()
        invariant
            start <= i <= s@.len(),
            r@ == s@.subrange(start as int, i as int),
        decreases s@.len() - i,
    {
        r.push(s[i]);
        i = i + 1;
        proof {
            assert(r@ =~= s@.subrange(start as int, i as int));
        }
    }
    proof {
        assert(r@ + Seq::<char>::empty() =~= r@);
        assert(Seq::<char>::empty() + r@ =~= r@);
    }
    r
}

/// `s` without its trailing `.ddj` extensions.
pub(crate) fn trim_ddj_chars(s: &Vec<char>) -> (r: Vec<char>)
    ensures
        r@ == trim_ddj(s@),
{
    let mut end: usize = s.len();
    proof {
        assert(s@.subrange(0, s@.len() as int) =~= s@);
    }
    while end >= 4 && s[end - 4] == '.' && s[end - 3] == 'd' && s[end - 2] == 'd' && s[end - 1]
        == 'j'
        invariant
            end <= s@.len(),
            trim_ddj(s@) == trim_ddj(s@.subrange(0, end as int)),
        decreases end,
    {
        proof {
            reveal_strlit(".ddj");
            let p = s@.subrange(0, end as int);
            assert(p.subrange(p.len() - 4, p.len() as int) =~= ".ddj"@);
            assert(p.subrange(0, p.len() - 4) =~= s@.subrange(0, end - 4));
        }
        end = end - 4;
    }
    proof {
        reveal_strlit(".ddj");
        let p = s@.subrange(0, end as int);
        if p.len() >= 4 {
            if p.subrange(p.len() - 4, p.len() as int) == ".ddj"@ {
                assert(p.subrange(p.len() - 4, p.len() as int)[0] == '.');
                assert(p.subrange(p.len() - 4, p.len() as int)[1] == 'd');
                assert(p.subrange(p.len() - 4, p.len() as int)[2] == 'd');
                assert(p.subrange(p.len() - 4, p.len() as int)[3] == 'j');
            }
        }
    }
    let mut r: Vec<char> = Vec::new();
    let mut i: usize = 0;
    while i < end
        invariant
            end <= s@.len(),
            i <= end,
            r@ == s@.subrange(0, i as int),
        decreases end - i,
    {
        r.push(s[i]);
        i = i + 1;
        proof {
            assert(r@ =~= s@.subrange(0, i as int));
        }
    }
    r
}

/// A descriptor art path as an asset path: rooted at [`ART_ROOT`],
/// lowercased and forward-slashed.
pub fn art_path(background: &str) -> (path: String)
    ensures
        path@ == ART_ROOT@ + normalize_path(background@),
{
    let mut out: Vec<char> = Vec::new();
    push_str(&mut out, ART_ROOT);
    let raw = chars_of(background);
    let normalized = normalize_path_chars(&raw);
    push_all(&mut out, &normalized);
    string_of(&out)
}

/// A team pick the player made; nothing consumes it yet.
#[derive(Clone, Copy, Debug, PartialEq, Eq, Structural)]
pub struct RequestFreePvpTeam(pub Option<FreePvpTeam>);

/// The panel's state.
#[derive(Clone, Copy, Debug, PartialEq, Eq, Structural)]
pub struct FreePvpState {
    /// The team the server says we are on.
    pub team: Option<FreePvpTeam>,
    /// Whether the five rows and the cancel button are shown.
    pub expanded: bool,
}

impl FreePvpState {
    pub fn new() -> (s: FreePvpState)
        ensures
            s.team is None,
            !s.expanded,
    {
        FreePvpState { team: None, expanded: false }
    }

    /// The panel exists only while the character is in Free-PvP mode.
    pub fn visible(&self) -> (v: bool)
        ensures
            v == (self.team is Some),
    {
        self.team.is_some()
    }
}

/// Follow the server's byte (`None` while the character's stats are not
/// known). A panel that just appeared starts expanded; a team change is the
/// only thing that resets the collapse.
pub fn sync_free_pvp_state(state: &mut FreePvpState, free_pvp: Option<u8>)
    ensures
        ({
            let team = match free_pvp {
                Some(b) => spec_from_wire(b),
                None => None,
            };
            *final(state) == (if old(state).team != team {
                FreePvpState { team, expanded: team is Some }
            } else {
                *old(state)
            })
        }),
{
    let team = match free_pvp {
        Some(b) => FreePvpTeam::from_wire(b),
        None => None,
    };
    if state.team != team {
        state.team = team;
        state.expanded = team.is_some();
    }
}

/// The collapse button.
pub fn toggle_expanded(state: &mut FreePvpState)
    ensures
        final(state).team == old(state).team,
        final(state).expanded == !old(state).expanded,
{
    state.expanded = !state.expanded;
}

/// `from_wire` and `to_wire` are inverse: every byte a state maps to reads
/// back as that state, and every byte outside `1..=5` reads as no team.
pub proof fn law_wire_round_trip(team: Option<FreePvpTeam>, byte: u8)
    ensures
        spec_from_wire(spec_to_wire(team)) == team,
        spec_from_wire(byte) is Some ==> spec_to_wire(spec_from_wire(byte)) == byte,
        spec_from_wire(byte) is None <==> (byte == 0 || byte > 5),
{
}

/// A row's team is read from its art: the stems are pairwise distinct, so an
/// icon names exactly one state, and each state's own art names it.
pub proof fn law_each_state_has_its_own_art(a: FreePvpTeam, b: FreePvpTeam)
    ensures
        a != b ==> spec_art_stem(a) != spec_art_stem(b),
{
    reveal_strlit("frpvp_red");
    reveal_strlit("frpvp_gray");
    reveal_strlit("frpvp_blue");
    reveal_strlit("frpvp_white");
    reveal_strlit("frpvp_yellow");
    if a != b {
        let sa = spec_art_stem(a);
        let sb = spec_art_stem(b);
        if sa.len() == sb.len() {
            assert(sa[6] != sb[6]);
        }
    }
}

} // verus!
