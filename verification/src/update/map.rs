//! Map-related information.

use vstd::prelude::*;
use crate::json::{
    JVal, JsonValue, jval_of, jfields_of, obj_get, oview, obj_lookup, str_eq,
    lemma_jfields_of_index, spec_field_u64, field_u64, spec_field_string, field_string,
    spec_opt_string, opt_string, spec_u64_key_map, decode_u64_key_map, u64_pairs_view,
    spec_encode_u64_pairs, encode_u64_key_map, lemma_u64_map_codec, lemma_obj_get_at,
};

verus! {

broadcast use vstd::string::group_string_axioms;

/// Map information.
#[derive(Clone, Debug, PartialEq)]
pub struct MapInfo {
    /// current number of spectators
    pub current_spectators: u64,
    /// game mode
    pub mode: Mode,
    /// map name
    pub name: String,
    /// number of matches to win series
    pub num_matches_to_win_series: u64,
    /// map phase
    pub phase: Phase,
    /// current round number
    pub round: u64,
    /// who won which round and how, e.g. `ct_win_elimination`
    pub round_wins: Vec<(u64, String)>,
    /// number of souvenirs dropped so far this map
    pub souvenirs_total: u64,
    /// counter-terrorist team info
    pub team_ct: Team,
    /// terrorist team info
    pub team_t: Team,
}

/// Game mode.
#[derive(Clone, Copy, Debug, PartialEq, Eq, Structural)]
pub enum Mode {
    /// competitive
    Competitive,
    /// casual
    Casual,
    /// deathmatch
    Deathmatch,
    /// the tutorial
    Training,
    /// demolition; the wire spells it `gungametrbomb`
    Demolition,
    /// arms race; the wire spells it `gungameprogressive`
    ArmsRace,
    /// wingman; the wire spells it `scrimcomp2v2`
    Wingman,
}

/// Map phase.
#[derive(Clone, Copy, Debug, PartialEq, Eq, Structural)]
pub enum Phase {
    /// warmup
    Warmup,
    /// in game
    Live,
    /// halftime
    Intermission,
    /// game over
    GameOver,
}

/// Team info.
#[derive(Clone, Debug, PartialEq)]
pub struct Team {
    /// rounds won
    pub score: u64,
    /// rounds lost in a row
    pub consecutive_round_losses: u64,
    /// timeouts remaining
    pub timeouts_remaining: u64,
    /// matches won this series
    pub matches_won_this_series: u64,
    /// team name
    pub name: Option<String>,
    /// flag code
    pub flag: Option<String>,
}

/// The mathematical value of a [`Team`].
pub ghost struct TeamV {
    /// rounds won
    pub score: u64,
    /// rounds lost in a row
    pub consecutive_round_losses: u64,
    /// timeouts remaining
    pub timeouts_remaining: u64,
    /// matches won this series
    pub matches_won_this_series: u64,
    /// team name
    pub name: Option<Seq<char>>,
    /// flag code
    pub flag: Option<Seq<char>>,
}

impl View for Team {
    type V = TeamV;

    open spec fn view(&self) -> TeamV {
        TeamV {
            score: self.score,
            consecutive_round_losses: self.consecutive_round_losses,
            timeouts_remaining: self.timeouts_remaining,
            matches_won_this_series: self.matches_won_this_series,
            name: match self.name {
                Some(s) => Some(s@),
                None => None,
            },
            flag: match self.flag {
                Some(s) => Some(s@),
                None => None,
            },
        }
    }
}

/// The mathematical value of a [`MapInfo`].
pub ghost struct MapInfoV {
    /// current number of spectators
    pub current_spectators: u64,
    /// game mode
    pub mode: Mode,
    /// map name
    pub name: Seq<char>,
    /// number of matches to win series
    pub num_matches_to_win_series: u64,
    /// map phase
    pub phase: Phase,
    /// current round number
    pub round: u64,
    /// who won which round and how
    pub round_wins: Seq<(u64, Seq<char>)>,
    /// number of souvenirs dropped so far this map
    pub souvenirs_total: u64,
    /// counter-terrorist team info
    pub team_ct: TeamV,
    /// terrorist team info
    pub team_t: TeamV,
}

impl View for MapInfo {
    type V = MapInfoV;

    open spec fn view(&self) -> MapInfoV {
        MapInfoV {
            current_spectators: self.current_spectators,
            mode: self.mode,
            name: self.name@,
            num_matches_to_win_series: self.num_matches_to_win_series,
            phase: self.phase,
            round: self.round,
            round_wins: u64_pairs_view(self.round_wins@),
            souvenirs_total: self.souvenirs_total,
            team_ct: self.team_ct@,
            team_t: self.team_t@,
        }
    }
}

/// The wire spelling of a game mode; three modes use historic internal
/// names.
pub open spec fn spec_mode_text(m: Mode) -> Seq<char> {
    match m {
        Mode::Competitive => "competitive"@,
        Mode::Casual => "casual"@,
        Mode::Deathmatch => "deathmatch"@,
        Mode::Training => "training"@,
        Mode::Demolition => "gungametrbomb"@,
        Mode::ArmsRace => "gungameprogressive"@,
        Mode::Wingman => "scrimcomp2v2"@,
    }
}

/// The game mode a wire spelling denotes, if any.
pub open spec fn spec_mode_of(s: Seq<char>) -> Option<Mode> {
    if s == "competitive"@ {
        Some(Mode::Competitive)
    } else if s == "casual"@ {
        Some(Mode::Casual)
    } else if s == "deathmatch"@ {
        Some(Mode::Deathmatch)
    } else if s == "training"@ {
        Some(Mode::Training)
    } else if s == "gungametrbomb"@ {
        Some(Mode::Demolition)
    } else if s == "gungameprogressive"@ {
        Some(Mode::ArmsRace)
    } else if s == "scrimcomp2v2"@ {
        Some(Mode::Wingman)
    } else {
        None
    }
}

/// Renders a game mode in its wire spelling.
pub fn mode_text(m: Mode) -> (r: String)
    ensures
        r@ == spec_mode_text(m),
{
    match m {
        Mode::Competitive => String::from_str("competitive"),
        Mode::Casual => String::from_str("casual"),
        Mode::Deathmatch => String::from_str("deathmatch"),
        Mode::Training => String::from_str("training"),
        Mode::Demolition => String::from_str("gungametrbomb"),
        Mode::ArmsRace => String::from_str("gungameprogressive"),
        Mode::Wingman => String::from_str("scrimcomp2v2"),
    }
}

/// Reads a game mode from its wire spelling.
pub fn mode_of(s: &str) -> (r: Option<Mode>)
    ensures
        r == spec_mode_of(s@),
{
    if str_eq(s, "competitive") {
        Some(Mode::Competitive)
    } else if str_eq(s, "casual") {
        Some(Mode::Casual)
    } else if str_eq(s, "deathmatch") {
        Some(Mode::Deathmatch)
    } else if str_eq(s, "training") {
        Some(Mode::Training)
    } else if str_eq(s, "gungametrbomb") {
        Some(Mode::Demolition)
    } else if str_eq(s, "gungameprogressive") {
        Some(Mode::ArmsRace)
    } else if str_eq(s, "scrimcomp2v2") {
        Some(Mode::Wingman)
    } else {
        None
    }
}

/// A wire spelling always reads back as the game mode it renders.
pub proof fn lemma_mode_round_trip(m: Mode)
    ensures
        spec_mode_of(spec_mode_text(m)) == Some(m),
{
    reveal_strlit("competitive");
    reveal_strlit("casual");
    reveal_strlit("deathmatch");
    reveal_strlit("training");
    reveal_strlit("gungametrbomb");
    reveal_strlit("gungameprogressive");
    reveal_strlit("scrimcomp2v2");
    assert("competitive"@.len() == 11);
    assert("casual"@.len() == 6);
    assert("deathmatch"@.len() == 10);
    assert("training"@.len() == 8);
    assert("gungametrbomb"@.len() == 13);
    assert("gungameprogressive"@.len() == 18);
    assert("scrimcomp2v2"@.len() == 12);
}

/// The wire spelling of a map phase.
pub open spec fn spec_map_phase_text(p: Phase) -> Seq<char> {
    match p {
        Phase::Warmup => "warmup"@,
        Phase::Live => "live"@,
        Phase::Intermission => "intermission"@,
        Phase::GameOver => "gameover"@,
    }
}

/// The map phase a wire spelling denotes, if any.
pub open spec fn spec_map_phase_of(s: Seq<char>) -> Option<Phase> {
    if s == "warmup"@ {
        Some(Phase::Warmup)
    } else if s == "live"@ {
        Some(Phase::Live)
    } else if s == "intermission"@ {
        Some(Phase::Intermission)
    } else if s == "gameover"@ {
        Some(Phase::GameOver)
    } else {
        None
    }
}

/// Renders a map phase in its wire spelling.
pub fn map_phase_text(p: Phase) -> (r: String)
    ensures
        r@ == spec_map_phase_text(p),
{
    match p {
        Phase::Warmup => String::from_str("warmup"),
        Phase::Live => String::from_str("live"),
        Phase::Intermission => String::from_str("intermission"),
        Phase::GameOver => String::from_str("gameover"),
    }
}

/// Reads a map phase from its wire spelling.
pub fn map_phase_of(s: &str) -> (r: Option<Phase>)
    ensures
        r == spec_map_phase_of(s@),
{
    if str_eq(s, "warmup") {
        Some(Phase::Warmup)
    } else if str_eq(s, "live") {
        Some(Phase::Live)
    } else if str_eq(s, "intermission") {
        Some(Phase::Intermission)
    } else if str_eq(s, "gameover") {
        Some(Phase::GameOver)
    } else {
        None
    }
}

/// A wire spelling always reads back as the map phase it renders.
pub proof fn lemma_map_phase_round_trip(p: Phase)
    ensures
        spec_map_phase_of(spec_map_phase_text(p)) == Some(p),
{
    reveal_strlit("warmup");
    reveal_strlit("live");
    reveal_strlit("intermission");
    reveal_strlit("gameover");
    assert("warmup"@.len() == 6);
    assert("live"@.len() == 4);
    assert("intermission"@.len() == 12);
    assert("gameover"@.len() == 8);
}

/// The field names the team section admits.
pub open spec fn spec_team_section_key(k: Seq<char>) -> bool {
    k == "score"@ || k == "consecutive_round_losses"@ || k == "timeouts_remaining"@ || k
        == "matches_won_this_series"@ || k == "name"@ || k == "flag"@
}

/// Whether every field name of a team section is admitted.
pub open spec fn spec_team_section_keys_ok(fields: Seq<(Seq<char>, JVal)>) -> bool {
    forall|i: int| 0 <= i < fields.len() ==> spec_team_section_key(#[trigger] fields[i].0)
}

/// What decoding a team section yields.
pub open spec fn spec_decode_team_section(j: JVal) -> Option<TeamV> {
    match j {
        JVal::Obj(fields) => if spec_team_section_keys_ok(fields) {
            match (
                spec_field_u64(obj_get(fields, "score"@)),
                spec_field_u64(obj_get(fields, "consecutive_round_losses"@)),
                spec_field_u64(obj_get(fields, "timeouts_remaining"@)),
                spec_field_u64(obj_get(fields, "matches_won_this_series"@)),
                spec_opt_string(obj_get(fields, "name"@)),
                spec_opt_string(obj_get(fields, "flag"@)),
            ) {
                (
                    Some(score),
                    Some(consecutive_round_losses),
                    Some(timeouts_remaining),
                    Some(matches_won_this_series),
                    Some(name),
                    Some(flag),
                ) => Some(
                    TeamV {
                        score,
                        consecutive_round_losses,
                        timeouts_remaining,
                        matches_won_this_series,
                        name,
                        flag,
                    },
                ),
                _ => None,
            }
        } else {
            None
        },
        _ => None,
    }
}

/// Whether every field name of a team section is admitted.
fn team_section_keys_ok(fields: &Vec<(String, JsonValue)>) -> (r: bool)
    ensures
        r == spec_team_section_keys_ok(jfields_of(fields@)),
{
    proof {
        lemma_jfields_of_index(fields@);
    }
    let n = fields.len();
    let mut i: usize = 0;
    while i < n
        invariant
            0 <= i <= n,
            n == fields@.len(),
            jfields_of(fields@).len() == n,
            forall|j: int| 0 <= j < n ==> jfields_of(fields@)[j] == (
                fields@[j].0@,
                jval_of(&fields@[j].1),
            ),
            forall|j: int| 0 <= j < i ==> spec_team_section_key(
                #[trigger] jfields_of(fields@)[j].0,
            ),
        decreases n - i,
    {
        let k = fields[i].0.as_str();
        if !(str_eq(k, "score") || str_eq(k, "consecutive_round_losses") || str_eq(
            k,
            "timeouts_remaining",
        ) || str_eq(k, "matches_won_this_series") || str_eq(k, "name") || str_eq(k, "flag")) {
            proof {
                assert(!spec_team_section_key(jfields_of(fields@)[i as int].0));
            }
            return false;
        }
        i = i + 1;
    }
    true
}

/// Decodes a team section, strictly.
pub fn decode_team_section(v: &JsonValue) -> (r: Option<Team>)
    ensures
        match r {
            Some(x) => spec_decode_team_section(v@) == Some(x@),
            None => spec_decode_team_section(v@) is None,
        },
{
    let fields = match v {
        JsonValue::Obj(fields) => fields,
        _ => {
            return None;
        },
    };
    if !team_section_keys_ok(fields) {
        return None;
    }
    let score = match field_u64(obj_lookup(fields, "score")) {
        Some(x) => x,
        None => {
            return None;
        },
    };
    let consecutive_round_losses = match field_u64(obj_lookup(fields, "consecutive_round_losses")) {
        Some(x) => x,
        None => {
            return None;
        },
    };
    let timeouts_remaining = match field_u64(obj_lookup(fields, "timeouts_remaining")) {
        Some(x) => x,
        None => {
            return None;
        },
    };
    let matches_won_this_series = match field_u64(obj_lookup(fields, "matches_won_this_series")) {
        Some(x) => x,
        None => {
            return None;
        },
    };
    let name = match opt_string(obj_lookup(fields, "name")) {
        Some(x) => x,
        None => {
            return None;
        },
    };
    let flag = match opt_string(obj_lookup(fields, "flag")) {
        Some(x) => x,
        None => {
            return None;
        },
    };
    Some(
        Team {
            score,
            consecutive_round_losses,
            timeouts_remaining,
            matches_won_this_series,
            name,
            flag,
        },
    )
}

/// A team section with any field outside its schema is rejected.
pub proof fn lemma_team_section_unknown_field_rejected(fields: Seq<(Seq<char>, JVal)>, i: int)
    requires
        0 <= i < fields.len(),
        !spec_team_section_key(fields[i].0),
    ensures
        spec_decode_team_section(JVal::Obj(fields)) is None,
{
    assert(!spec_team_section_keys_ok(fields));
}

/// What encoding a team section yields.
pub open spec fn spec_encode_team_section(t: TeamV) -> JVal {
    JVal::Obj(
        seq![
            ("score"@, JVal::UInt(t.score)),
            ("consecutive_round_losses"@, JVal::UInt(t.consecutive_round_losses)),
            ("timeouts_remaining"@, JVal::UInt(t.timeouts_remaining)),
            ("matches_won_this_series"@, JVal::UInt(t.matches_won_this_series)),
            (
                "name"@,
                match t.name {
                    Some(s) => JVal::Str(s),
                    None => JVal::Null,
                },
            ),
            (
                "flag"@,
                match t.flag {
                    Some(s) => JVal::Str(s),
                    None => JVal::Null,
                },
            ),
        ],
    )
}

/// Encodes a team section.
pub fn encode_team_section(t: &Team) -> (out: JsonValue)
    ensures
        out@ == spec_encode_team_section(t@),
{
    let mut fields: Vec<(String, JsonValue)> = Vec::new();
    fields.push((String::from_str("score"), JsonValue::UInt(t.score)));
    fields.push(
        (String::from_str("consecutive_round_losses"), JsonValue::UInt(t.consecutive_round_losses)),
    );
    fields.push((String::from_str("timeouts_remaining"), JsonValue::UInt(t.timeouts_remaining)));
    fields.push(
        (String::from_str("matches_won_this_series"), JsonValue::UInt(t.matches_won_this_series)),
    );
    let name = match &t.name {
        Some(s) => JsonValue::Str(s.clone()),
        None => JsonValue::Null,
    };
    fields.push((String::from_str("name"), name));
    let flag = match &t.flag {
        Some(s) => JsonValue::Str(s.clone()),
        None => JsonValue::Null,
    };
    fields.push((String::from_str("flag"), flag));
    let out = JsonValue::Obj(fields);
    proof {
        lemma_jfields_of_index(fields@);
        assert(jfields_of(fields@) =~= spec_encode_team_section(t@)->Obj_0);
    }
    out
}

/// Encoding then decoding a team section gives the section back.
pub proof fn lemma_team_section_codec(t: TeamV)
    ensures
        spec_decode_team_section(spec_encode_team_section(t)) == Some(t),
{
    reveal_strlit("score");
    reveal_strlit("consecutive_round_losses");
    reveal_strlit("timeouts_remaining");
    reveal_strlit("matches_won_this_series");
    reveal_strlit("name");
    reveal_strlit("flag");
    assert("score"@.len() == 5);
    assert("consecutive_round_losses"@.len() == 24);
    assert("timeouts_remaining"@.len() == 18);
    assert("matches_won_this_series"@.len() == 23);
    assert("name"@.len() == 4);
    assert("flag"@.len() == 4);
    assert("name"@[0] != "flag"@[0]);
    let fields = spec_encode_team_section(t)->Obj_0;
    assert(spec_team_section_keys_ok(fields));
    lemma_obj_get_at(fields, "score"@, 0);
    lemma_obj_get_at(fields, "consecutive_round_losses"@, 1);
    lemma_obj_get_at(fields, "timeouts_remaining"@, 2);
    lemma_obj_get_at(fields, "matches_won_this_series"@, 3);
    lemma_obj_get_at(fields, "name"@, 4);
    lemma_obj_get_at(fields, "flag"@, 5);
}

/// The field names the map section admits.
pub open spec fn spec_map_key(k: Seq<char>) -> bool {
    k == "current_spectators"@ || k == "mode"@ || k == "name"@ || k
        == "num_matches_to_win_series"@ || k == "phase"@ || k == "round"@ || k == "round_wins"@
        || k == "souvenirs_total"@ || k == "team_ct"@ || k == "team_t"@
}

/// Whether every field name of a map section is admitted.
pub open spec fn spec_map_keys_ok(fields: Seq<(Seq<char>, JVal)>) -> bool {
    forall|i: int| 0 <= i < fields.len() ==> spec_map_key(#[trigger] fields[i].0)
}

/// A required game-mode field.
pub open spec fn spec_field_mode(o: Option<JVal>) -> Option<Mode> {
    match o {
        Some(JVal::Str(s)) => spec_mode_of(s),
        _ => None,
    }
}

/// A required map-phase field.
pub open spec fn spec_field_map_phase(o: Option<JVal>) -> Option<Phase> {
    match o {
        Some(JVal::Str(s)) => spec_map_phase_of(s),
        _ => None,
    }
}

/// The round-wins field: absent means an empty mapping.
pub open spec fn spec_field_round_wins(o: Option<JVal>) -> Option<Seq<(u64, Seq<char>)>> {
    match o {
        None => Some(Seq::empty()),
        Some(JVal::Obj(g)) => spec_u64_key_map(g),
        _ => None,
    }
}

/// A required team-section field.
pub open spec fn spec_field_team_section(o: Option<JVal>) -> Option<TeamV> {
    match o {
        Some(j) => spec_decode_team_section(j),
        None => None,
    }
}

/// What decoding a map section yields: `None` on any unknown field, any
/// missing required field, or any mismatched value.
pub open spec fn spec_decode_map(j: JVal) -> Option<MapInfoV> {
    match j {
        JVal::Obj(fields) => if spec_map_keys_ok(fields) {
            match (
                spec_field_u64(obj_get(fields, "current_spectators"@)),
                spec_field_mode(obj_get(fields, "mode"@)),
                spec_field_string(obj_get(fields, "name"@)),
                spec_field_u64(obj_get(fields, "num_matches_to_win_series"@)),
                spec_field_map_phase(obj_get(fields, "phase"@)),
                spec_field_u64(obj_get(fields, "round"@)),
                spec_field_round_wins(obj_get(fields, "round_wins"@)),
                spec_field_u64(obj_get(fields, "souvenirs_total"@)),
                spec_field_team_section(obj_get(fields, "team_ct"@)),
                spec_field_team_section(obj_get(fields, "team_t"@)),
            ) {
                (
                    Some(current_spectators),
                    Some(mode),
                    Some(name),
                    Some(num_matches_to_win_series),
                    Some(phase),
                    Some(round),
                    Some(round_wins),
                    Some(souvenirs_total),
                    Some(team_ct),
                    Some(team_t),
                ) => Some(
                    MapInfoV {
                        current_spectators,
                        mode,
                        name,
                        num_matches_to_win_series,
                        phase,
                        round,
                        round_wins,
                        souvenirs_total,
                        team_ct,
                        team_t,
                    },
                ),
                _ => None,
            }
        } else {
            None
        },
        _ => None,
    }
}

/// Whether every field name of a map section is admitted.
fn map_keys_ok(fields: &Vec<(String, JsonValue)>) -> (r: bool)
    ensures
        r == spec_map_keys_ok(jfields_of(fields@)),
{
    proof {
        lemma_jfields_of_index(fields@);
    }
    let n = fields.len();
    let mut i: usize = 0;
    while i < n
        invariant
            0 <= i <= n,
            n == fields@.len(),
            jfields_of(fields@).len() == n,
            forall|j: int| 0 <= j < n ==> jfields_of(fields@)[j] == (
                fields@[j].0@,
                jval_of(&fields@[j].1),
            ),
            forall|j: int| 0 <= j < i ==> spec_map_key(#[trigger] jfields_of(fields@)[j].0),
        decreases n - i,
    {
        let k = fields[i].0.as_str();
        if !(str_eq(k, "current_spectators") || str_eq(k, "mode") || str_eq(k, "name") || str_eq(
            k,
            "num_matches_to_win_series",
        ) || str_eq(k, "phase") || str_eq(k, "round") || str_eq(k, "round_wins") || str_eq(
            k,
            "souvenirs_total",
        ) || str_eq(k, "team_ct") || str_eq(k, "team_t")) {
            proof {
                assert(!spec_map_key(jfields_of(fields@)[i as int].0));
            }
            return false;
        }
        i = i + 1;
    }
    true
}

/// Reads a required game-mode field.
fn field_mode(o: Option<&JsonValue>) -> (r: Option<Mode>)
    ensures
        r == spec_field_mode(oview(o)),
{
    match o {
        Some(JsonValue::Str(s)) => mode_of(s.as_str()),
        _ => None,
    }
}

/// Reads a required map-phase field.
fn field_map_phase(o: Option<&JsonValue>) -> (r: Option<Phase>)
    ensures
        r == spec_field_map_phase(oview(o)),
{
    match o {
        Some(JsonValue::Str(s)) => map_phase_of(s.as_str()),
        _ => None,
    }
}

/// Decodes a map section, strictly.
pub fn decode_map(v: &JsonValue) -> (r: Option<MapInfo>)
    ensures
        match r {
            Some(x) => spec_decode_map(v@) == Some(x@),
            None => spec_decode_map(v@) is None,
        },
{
    let fields = match v {
        JsonValue::Obj(fields) => fields,
        _ => {
            return None;
        },
    };
    if !map_keys_ok(fields) {
        return None;
    }
    let current_spectators = match field_u64(obj_lookup(fields, "current_spectators")) {
        Some(x) => x,
        None => {
            return None;
        },
    };
    let mode = match field_mode(obj_lookup(fields, "mode")) {
        Some(x) => x,
        None => {
            return None;
        },
    };
    let name = match field_string(obj_lookup(fields, "name")) {
        Some(x) => x,
        None => {
            return None;
        },
    };
    let num_matches_to_win_series = match field_u64(
        obj_lookup(fields, "num_matches_to_win_series"),
    ) {
        Some(x) => x,
        None => {
            return None;
        },
    };
    let phase = match field_map_phase(obj_lookup(fields, "phase")) {
        Some(x) => x,
        None => {
            return None;
        },
    };
    let round = match field_u64(obj_lookup(fields, "round")) {
        Some(x) => x,
        None => {
            return None;
        },
    };
    let round_wins = match obj_lookup(fields, "round_wins") {
        None => {
            let empty: Vec<(u64, String)> = Vec::new();
            proof {
                assert(u64_pairs_view(empty@) =~= Seq::<(u64, Seq<char>)>::empty());
            }
            empty
        },
        Some(JsonValue::Obj(g)) => match decode_u64_key_map(g) {
            Some(m) => m,
            None => {
                return None;
            },
        },
        Some(_) => {
            return None;
        },
    };
    let souvenirs_total = match field_u64(obj_lookup(fields, "souvenirs_total")) {
        Some(x) => x,
        None => {
            return None;
        },
    };
    let team_ct = match obj_lookup(fields, "team_ct") {
        Some(tv) => match decode_team_section(tv) {
            Some(t) => t,
            None => {
                return None;
            },
        },
        None => {
            return None;
        },
    };
    let team_t = match obj_lookup(fields, "team_t") {
        Some(tv) => match decode_team_section(tv) {
            Some(t) => t,
            None => {
                return None;
            },
        },
        None => {
            return None;
        },
    };
    Some(
        MapInfo {
            current_spectators,
            mode,
            name,
            num_matches_to_win_series,
            phase,
            round,
            round_wins,
            souvenirs_total,
            team_ct,
            team_t,
        },
    )
}

/// A map section with any field outside its schema is rejected.
pub proof fn lemma_map_unknown_field_rejected(fields: Seq<(Seq<char>, JVal)>, i: int)
    requires
        0 <= i < fields.len(),
        !spec_map_key(fields[i].0),
    ensures
        spec_decode_map(JVal::Obj(fields)) is None,
{
    assert(!spec_map_keys_ok(fields));
}

/// What encoding a map section yields.
pub open spec fn spec_encode_map(m: MapInfoV) -> JVal {
    JVal::Obj(
        seq![
            ("current_spectators"@, JVal::UInt(m.current_spectators)),
            ("mode"@, JVal::Str(spec_mode_text(m.mode))),
            ("name"@, JVal::Str(m.name)),
            ("num_matches_to_win_series"@, JVal::UInt(m.num_matches_to_win_series)),
            ("phase"@, JVal::Str(spec_map_phase_text(m.phase))),
            ("round"@, JVal::UInt(m.round)),
            ("round_wins"@, JVal::Obj(spec_encode_u64_pairs(m.round_wins))),
            ("souvenirs_total"@, JVal::UInt(m.souvenirs_total)),
            ("team_ct"@, spec_encode_team_section(m.team_ct)),
            ("team_t"@, spec_encode_team_section(m.team_t)),
        ],
    )
}

/// Encodes a map section.
pub fn encode_map(m: &MapInfo) -> (out: JsonValue)
    ensures
        out@ == spec_encode_map(m@),
{
    let mut fields: Vec<(String, JsonValue)> = Vec::new();
    fields.push((String::from_str("current_spectators"), JsonValue::UInt(m.current_spectators)));
    fields.push((String::from_str("mode"), JsonValue::Str(mode_text(m.mode))));
    fields.push((String::from_str("name"), JsonValue::Str(m.name.clone())));
    fields.push(
        (
            String::from_str("num_matches_to_win_series"),
            JsonValue::UInt(m.num_matches_to_win_series),
        ),
    );
    fields.push((String::from_str("phase"), JsonValue::Str(map_phase_text(m.phase))));
    fields.push((String::from_str("round"), JsonValue::UInt(m.round)));
    fields.push((String::from_str("round_wins"), JsonValue::Obj(encode_u64_key_map(&m.round_wins))));
    fields.push((String::from_str("souvenirs_total"), JsonValue::UInt(m.souvenirs_total)));
    fields.push((String::from_str("team_ct"), encode_team_section(&m.team_ct)));
    fields.push((String::from_str("team_t"), encode_team_section(&m.team_t)));
    let out = JsonValue::Obj(fields);
    proof {
        lemma_jfields_of_index(fields@);
        assert(jfields_of(fields@) =~= spec_encode_map(m@)->Obj_0);
    }
    out
}

/// Encoding then decoding a map section gives the section back.
pub proof fn lemma_map_codec(m: MapInfoV)
    ensures
        spec_decode_map(spec_encode_map(m)) == Some(m),
{
    reveal_strlit("current_spectators");
    reveal_strlit("mode");
    reveal_strlit("name");
    reveal_strlit("num_matches_to_win_series");
    reveal_strlit("phase");
    reveal_strlit("round");
    reveal_strlit("round_wins");
    reveal_strlit("souvenirs_total");
    reveal_strlit("team_ct");
    reveal_strlit("team_t");
    assert("current_spectators"@.len() == 18);
    assert("mode"@.len() == 4);
    assert("name"@.len() == 4);
    assert("num_matches_to_win_series"@.len() == 25);
    assert("phase"@.len() == 5);
    assert("round"@.len() == 5);
    assert("round_wins"@.len() == 10);
    assert("souvenirs_total"@.len() == 15);
    assert("team_ct"@.len() == 7);
    assert("team_t"@.len() == 6);
    assert("mode"@[0] != "name"@[0]);
    assert("phase"@[0] != "round"@[0]);
    let fields = spec_encode_map(m)->Obj_0;
    assert(spec_map_keys_ok(fields));
    lemma_obj_get_at(fields, "current_spectators"@, 0);
    lemma_obj_get_at(fields, "mode"@, 1);
    lemma_obj_get_at(fields, "name"@, 2);
    lemma_obj_get_at(fields, "num_matches_to_win_series"@, 3);
    lemma_obj_get_at(fields, "phase"@, 4);
    lemma_obj_get_at(fields, "round"@, 5);
    lemma_obj_get_at(fields, "round_wins"@, 6);
    lemma_obj_get_at(fields, "souvenirs_total"@, 7);
    lemma_obj_get_at(fields, "team_ct"@, 8);
    lemma_obj_get_at(fields, "team_t"@, 9);
    lemma_mode_round_trip(m.mode);
    lemma_map_phase_round_trip(m.phase);
    lemma_u64_map_codec(m.round_wins);
    lemma_team_section_codec(m.team_ct);
    lemma_team_section_codec(m.team_t);
}

} // verus!
