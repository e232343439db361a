//! Round-related info.

use vstd::prelude::*;
use crate::json::{
    JVal, JsonValue, jval_of, jfields_of, obj_get, oview, obj_lookup, str_eq,
    lemma_jfields_of_index,
};
use crate::update::{Team, spec_team_text, spec_team_of, team_text, team_of};

verus! {

broadcast use vstd::string::group_string_axioms;

/// Round info.
#[derive(Clone, Debug, PartialEq)]
pub struct Round {
    /// phase of round
    pub phase: Phase,
    /// status of bomb
    pub bomb: Option<BombState>,
    /// which team won
    pub win_team: Option<Team>,
}

/// Round phase.
#[derive(Clone, Copy, Debug, PartialEq, Eq, Structural)]
pub enum Phase {
    /// in progress
    Live,
    /// ended
    Over,
    /// hasn't yet started
    FreezeTime,
}

/// Bomb state.
#[derive(Clone, Copy, Debug, PartialEq, Eq, Structural)]
pub enum BombState {
    /// planted
    Planted,
    /// defused
    Defused,
    /// exploded
    Exploded,
}

/// The mathematical value of a [`Round`].
pub ghost struct RoundV {
    /// phase of round
    pub phase: Phase,
    /// status of bomb
    pub bomb: Option<BombState>,
    /// which team won
    pub win_team: Option<Team>,
}

impl View for Round {
    type V = RoundV;

    open spec fn view(&self) -> RoundV {
        RoundV { phase: self.phase, bomb: self.bomb, win_team: self.win_team }
    }
}

/// The wire spelling of a round phase.
pub open spec fn spec_round_phase_text(p: Phase) -> Seq<char> {
    match p {
        Phase::Live => "live"@,
        Phase::Over => "over"@,
        Phase::FreezeTime => "freezetime"@,
    }
}

/// The round phase a wire spelling denotes, if any.
pub open spec fn spec_round_phase_of(s: Seq<char>) -> Option<Phase> {
    if s == "live"@ {
        Some(Phase::Live)
    } else if s == "over"@ {
        Some(Phase::Over)
    } else if s == "freezetime"@ {
        Some(Phase::FreezeTime)
    } else {
        None
    }
}

/// Renders a round phase in its wire spelling.
pub fn round_phase_text(p: Phase) -> (r: String)
    ensures
        r@ == spec_round_phase_text(p),
{
    match p {
        Phase::Live => String::from_str("live"),
        Phase::Over => String::from_str("over"),
        Phase::FreezeTime => String::from_str("freezetime"),
    }
}

/// Reads a round phase from its wire spelling.
pub fn round_phase_of(s: &str) -> (r: Option<Phase>)
    ensures
        r == spec_round_phase_of(s@),
{
    if str_eq(s, "live") {
        Some(Phase::Live)
    } else if str_eq(s, "over") {
        Some(Phase::Over)
    } else if str_eq(s, "freezetime") {
        Some(Phase::FreezeTime)
    } else {
        None
    }
}

/// A wire spelling always reads back as the round phase it renders.
pub proof fn lemma_round_phase_round_trip(p: Phase)
    ensures
        spec_round_phase_of(spec_round_phase_text(p)) == Some(p),
{
    reveal_strlit("live");
    reveal_strlit("over");
    reveal_strlit("freezetime");
    assert("over"@[0] != "live"@[0]);
}

/// The wire spelling of a bomb state.
pub open spec fn spec_bomb_text(b: BombState) -> Seq<char> {
    match b {
        BombState::Planted => "planted"@,
        BombState::Defused => "defused"@,
        BombState::Exploded => "exploded"@,
    }
}

/// The bomb state a wire spelling denotes, if any.
pub open spec fn spec_bomb_of(s: Seq<char>) -> Option<BombState> {
    if s == "planted"@ {
        Some(BombState::Planted)
    } else if s == "defused"@ {
        Some(BombState::Defused)
    } else if s == "exploded"@ {
        Some(BombState::Exploded)
    } else {
        None
    }
}

/// Renders a bomb state in its wire spelling.
pub fn bomb_text(b: BombState) -> (r: String)
    ensures
        r@ == spec_bomb_text(b),
{
    match b {
        BombState::Planted => String::from_str("planted"),
        BombState::Defused => String::from_str("defused"),
        BombState::Exploded => String::from_str("exploded"),
    }
}

/// Reads a bomb state from its wire spelling.
pub fn bomb_of(s: &str) -> (r: Option<BombState>)
    ensures
        r == spec_bomb_of(s@),
{
    if str_eq(s, "planted") {
        Some(BombState::Planted)
    } else if str_eq(s, "defused") {
        Some(BombState::Defused)
    } else if str_eq(s, "exploded") {
        Some(BombState::Exploded)
    } else {
        None
    }
}

/// A wire spelling always reads back as the bomb state it renders.
pub proof fn lemma_bomb_round_trip(b: BombState)
    ensures
        spec_bomb_of(spec_bomb_text(b)) == Some(b),
{
    reveal_strlit("planted");
    reveal_strlit("defused");
    reveal_strlit("exploded");
    assert("defused"@[0] != "planted"@[0]);
}

/// The field names the round section admits.
pub open spec fn spec_round_key(k: Seq<char>) -> bool {
    k == "phase"@ || k == "bomb"@ || k == "win_team"@
}

/// Whether every field name of the section is admitted.
pub open spec fn spec_round_keys_ok(fields: Seq<(Seq<char>, JVal)>) -> bool {
    forall|i: int| 0 <= i < fields.len() ==> spec_round_key(#[trigger] fields[i].0)
}

/// A required round-phase field.
pub open spec fn spec_field_round_phase(o: Option<JVal>) -> Option<Phase> {
    match o {
        Some(JVal::Str(s)) => spec_round_phase_of(s),
        _ => None,
    }
}

/// An optional bomb-state field.
pub open spec fn spec_opt_bomb(o: Option<JVal>) -> Option<Option<BombState>> {
    match o {
        None => Some(None),
        Some(JVal::Null) => Some(None),
        Some(JVal::Str(s)) => match spec_bomb_of(s) {
            Some(b) => Some(Some(b)),
            None => None,
        },
        _ => None,
    }
}

/// An optional team field.
pub open spec fn spec_opt_team(o: Option<JVal>) -> Option<Option<Team>> {
    match o {
        None => Some(None),
        Some(JVal::Null) => Some(None),
        Some(JVal::Str(s)) => match spec_team_of(s) {
            Some(t) => Some(Some(t)),
            None => None,
        },
        _ => None,
    }
}

/// What decoding a round section yields: `None` on any unknown field, any
/// missing required field, or any mismatched value.
pub open spec fn spec_decode_round(j: JVal) -> Option<RoundV> {
    match j {
        JVal::Obj(fields) => if spec_round_keys_ok(fields) {
            match (
                spec_field_round_phase(obj_get(fields, "phase"@)),
                spec_opt_bomb(obj_get(fields, "bomb"@)),
                spec_opt_team(obj_get(fields, "win_team"@)),
            ) {
                (Some(phase), Some(bomb), Some(win_team)) => Some(
                    RoundV { phase, bomb, win_team },
                ),
                _ => None,
            }
        } else {
            None
        },
        _ => None,
    }
}

/// Reads a required round-phase field.
fn field_round_phase(o: Option<&JsonValue>) -> (r: Option<Phase>)
    ensures
        r == spec_field_round_phase(oview(o)),
{
    match o {
        Some(JsonValue::Str(s)) => round_phase_of(s.as_str()),
        _ => None,
    }
}

/// Reads an optional bomb-state field.
fn opt_bomb(o: Option<&JsonValue>) -> (r: Option<Option<BombState>>)
    ensures
        r == spec_opt_bomb(oview(o)),
{
    match o {
        None => Some(None),
        Some(JsonValue::Null) => Some(None),
        Some(JsonValue::Str(s)) => match bomb_of(s.as_str()) {
            Some(b) => Some(Some(b)),
            None => None,
        },
        _ => None,
    }
}

/// Reads an optional team field.
pub(crate) fn opt_team(o: Option<&JsonValue>) -> (r: Option<Option<Team>>)
    ensures
        r == spec_opt_team(oview(o)),
{
    match o {
        None => Some(None),
        Some(JsonValue::Null) => Some(None),
        Some(JsonValue::Str(s)) => match team_of(s.as_str()) {
            Some(t) => Some(Some(t)),
            None => None,
        },
        _ => None,
    }
}

/// Whether every field name of a round section is admitted.
fn round_keys_ok(fields: &Vec<(String, JsonValue)>) -> (r: bool)
    ensures
        r == spec_round_keys_ok(jfields_of(fields@)),
{
    proof {
        lemma_jfields_of_index(fields@);
    }
    let n = fields.len();
    let mut i: usize = 0;
    while i < n
        invariant
            0 <= i <= n,
            n == fields@.len(),
            jfields_of(fields@).len() == n,
            forall|j: int| 0 <= j < n ==> jfields_of(fields@)[j] == (
                fields@[j].0@,
                jval_of(&fields@[j].1),
            ),
            forall|j: int| 0 <= j < i ==> spec_round_key(#[trigger] jfields_of(fields@)[j].0),
        decreases n - i,
    {
        let k = fields[i].0.as_str();
        if !(str_eq(k, "phase") || str_eq(k, "bomb") || str_eq(k, "win_team")) {
            proof {
                assert(!spec_round_key(jfields_of(fields@)[i as int].0));
            }
            return false;
        }
        i = i + 1;
    }
    true
}

/// Decodes a round section, strictly.
pub fn decode_round(v: &JsonValue) -> (r: Option<Round>)
    ensures
        match r {
            Some(x) => spec_decode_round(v@) == Some(x@),
            None => spec_decode_round(v@) is None,
        },
{
    let fields = match v {
        JsonValue::Obj(fields) => fields,
        _ => {
            return None;
        },
    };
    if !round_keys_ok(fields) {
        return None;
    }
    let phase = match field_round_phase(obj_lookup(fields, "phase")) {
        Some(p) => p,
        None => {
            return None;
        },
    };
    let bomb = match opt_bomb(obj_lookup(fields, "bomb")) {
        Some(b) => b,
        None => {
            return None;
        },
    };
    let win_team = match opt_team(obj_lookup(fields, "win_team")) {
        Some(t) => t,
        None => {
            return None;
        },
    };
    Some(Round { phase, bomb, win_team })
}

/// A round section with any field outside its schema is rejected.
pub proof fn lemma_round_unknown_field_rejected(fields: Seq<(Seq<char>, JVal)>, i: int)
    requires
        0 <= i < fields.len(),
        !spec_round_key(fields[i].0),
    ensures
        spec_decode_round(JVal::Obj(fields)) is None,
{
    assert(!spec_round_keys_ok(fields));
}

/// What encoding a round section yields: every field written out, absent
/// optional values as `null`.
pub open spec fn spec_encode_round(r: RoundV) -> JVal {
    JVal::Obj(
        seq![
            ("phase"@, JVal::Str(spec_round_phase_text(r.phase))),
            (
                "bomb"@,
                match r.bomb {
                    Some(b) => JVal::Str(spec_bomb_text(b)),
                    None => JVal::Null,
                },
            ),
            (
                "win_team"@,
                match r.win_team {
                    Some(t) => JVal::Str(spec_team_text(t)),
                    None => JVal::Null,
                },
            ),
        ],
    )
}

/// Encodes a round section.
pub fn encode_round(r: &Round) -> (out: JsonValue)
    ensures
        out@ == spec_encode_round(r@),
{
    let mut fields: Vec<(String, JsonValue)> = Vec::new();
    fields.push((String::from_str("phase"), JsonValue::Str(round_phase_text(r.phase))));
    let bomb = match r.bomb {
        Some(b) => JsonValue::Str(bomb_text(b)),
        None => JsonValue::Null,
    };
    fields.push((String::from_str("bomb"), bomb));
    let win_team = match r.win_team {
        Some(t) => JsonValue::Str(team_text(t)),
        None => JsonValue::Null,
    };
    fields.push((String::from_str("win_team"), win_team));
    let out = JsonValue::Obj(fields);
    proof {
        lemma_jfields_of_index(fields@);
        let enc = spec_encode_round(r@);
        assert(jfields_of(fields@) =~= enc->Obj_0);
    }
    out
}

/// Encoding then decoding a round section gives the section back.
pub proof fn lemma_round_codec(r: RoundV)
    ensures
        spec_decode_round(spec_encode_round(r)) == Some(r),
{
    reveal_strlit("phase");
    reveal_strlit("bomb");
    reveal_strlit("win_team");
    assert("phase"@.len() == 5);
    assert("bomb"@.len() == 4);
    assert("win_team"@.len() == 8);
    let fields = spec_encode_round(r)->Obj_0;
    assert(spec_round_keys_ok(fields));
    crate::json::lemma_obj_get_at(fields, "phase"@, 0);
    crate::json::lemma_obj_get_at(fields, "bomb"@, 1);
    crate::json::lemma_obj_get_at(fields, "win_team"@, 2);
    lemma_round_phase_round_trip(r.phase);
    if let Some(b) = r.bomb {
        lemma_bomb_round_trip(b);
    }
    if let Some(t) = r.win_team {
        crate::update::lemma_team_text_round_trip(t);
    }
}

} // verus!
