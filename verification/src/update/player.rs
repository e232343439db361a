//! Player-related info.

use vstd::prelude::*;
use crate::json::{
    JVal, JsonValue, jval_of, jfields_of, obj_get, oview, obj_lookup, str_eq,
    lemma_jfields_of_index, spec_field_u64, field_u64, spec_field_i64, field_i64, spec_field_bool,
    field_bool, spec_field_string, field_string, spec_opt_u64, opt_u64, spec_opt_bool, opt_bool,
    spec_opt_string, opt_string, lemma_obj_get_at,
};
use crate::update::{Team, spec_team_text, team_text};
use crate::update::round::{spec_opt_team, opt_team};

verus! {

broadcast use vstd::string::group_string_axioms;

/// Player info.
#[derive(Clone, Debug, PartialEq)]
pub struct Player {
    /// steam ID; the wire spells the field `steamid`
    pub steam_id: String,
    /// display name
    pub name: String,
    /// observer slot number
    pub observer_slot: Option<u64>,
    /// current activity (in menu, playing game, etc)
    pub activity: Activity,
    /// match statistics
    pub match_stats: Option<MatchStats>,
    /// state (health, armor, etc)
    pub state: Option<State>,
    /// team
    pub team: Option<Team>,
    /// weapon inventory; the wire keys are slot identifiers
    pub weapons: Vec<(String, Weapon)>,
    /// clan
    pub clan: Option<String>,
}

/// An activity a player can be doing.
#[derive(Clone, Copy, Debug, PartialEq, Eq, Structural)]
pub enum Activity {
    /// in a menu
    Menu,
    /// playing the game
    Playing,
}

/// A player's match statistics.
#[derive(Clone, Copy, Debug, PartialEq, Eq, Structural)]
pub struct MatchStats {
    /// kills; the protocol can report a negative count
    pub kills: i64,
    /// assists
    pub assists: u64,
    /// deaths
    pub deaths: u64,
    /// MVPs
    pub mvps: u64,
    /// score
    pub score: u64,
}

/// Player state.
#[derive(Clone, Copy, Debug, PartialEq, Eq, Structural)]
pub struct State {
    /// health
    pub health: u64,
    /// armor
    pub armor: u64,
    /// has a helmet?
    pub helmet: bool,
    /// flashbang duration
    pub flashed: u64,
    /// smoke duration
    pub smoked: u64,
    /// on-fire duration
    pub burning: u64,
    /// money
    pub money: u64,
    /// kills this round; the protocol can report a negative count
    pub round_kills: i64,
    /// headshot kills this round
    pub round_killhs: u64,
    /// current equipment value
    pub equip_value: u64,
    /// total damage dealt this round; not emitted in all modes
    pub round_totaldmg: Option<u64>,
    /// has a defuse kit?  The wire spells the field `defusekit`
    pub defuse_kit: Option<bool>,
}

/// Weapon info.
#[derive(Clone, Debug, PartialEq)]
pub struct Weapon {
    /// name
    pub name: String,
    /// skin
    pub paintkit: String,
    /// type (pistol, rifle, etc); the wire spells the field `type`, and it
    /// is absent for at least one melee-adjacent item
    pub weapon_type: Option<WeaponType>,
    /// state (holstered, active, etc)
    pub state: WeaponState,
    /// bullets in current clip
    pub ammo_clip: Option<u64>,
    /// bullets per clip
    pub ammo_clip_max: Option<u64>,
    /// bullets in reserve
    pub ammo_reserve: Option<u64>,
}

/// A type of weapon.
#[derive(Clone, Copy, Debug, PartialEq, Eq, Structural)]
pub enum WeaponType {
    /// knife
    Knife,
    /// pistol
    Pistol,
    /// submachine gun; the wire spells it `Submachine Gun`
    SMG,
    /// machine gun; the wire spells it `Machine Gun`
    MachineGun,
    /// regular rifle
    Rifle,
    /// sniper rifle
    SniperRifle,
    /// shotgun
    Shotgun,
    /// "stackable item" (health shot in deathmatch, other examples unknown)
    StackableItem,
    /// grenade
    Grenade,
    /// bomb
    C4,
}

/// Status of a weapon.
#[derive(Clone, Copy, Debug, PartialEq, Eq, Structural)]
pub enum WeaponState {
    /// not selected
    Holstered,
    /// selected
    Active,
    /// reloading
    Reloading,
}

/// The mathematical value of a [`MatchStats`]: the struct itself, its fields
/// being plain values.
pub type MatchStatsV = MatchStats;

/// The mathematical value of a [`State`]: the struct itself, its fields
/// being plain values.
pub type StateV = State;

/// The mathematical value of a [`Weapon`].
pub ghost struct WeaponV {
    /// name
    pub name: Seq<char>,
    /// skin
    pub paintkit: Seq<char>,
    /// type (pistol, rifle, etc)
    pub weapon_type: Option<WeaponType>,
    /// state (holstered, active, etc)
    pub state: WeaponState,
    /// bullets in current clip
    pub ammo_clip: Option<u64>,
    /// bullets per clip
    pub ammo_clip_max: Option<u64>,
    /// bullets in reserve
    pub ammo_reserve: Option<u64>,
}

impl View for Weapon {
    type V = WeaponV;

    open spec fn view(&self) -> WeaponV {
        WeaponV {
            name: self.name@,
            paintkit: self.paintkit@,
            weapon_type: self.weapon_type,
            state: self.state,
            ammo_clip: self.ammo_clip,
            ammo_clip_max: self.ammo_clip_max,
            ammo_reserve: self.ammo_reserve,
        }
    }
}

/// The denotation of a weapon inventory.
pub open spec fn weapon_pairs_view(s: Seq<(String, Weapon)>) -> Seq<(Seq<char>, WeaponV)> {
    Seq::new(s.len(), |i: int| (s[i].0@, s[i].1@))
}

/// The mathematical value of a [`Player`].
pub ghost struct PlayerV {
    /// steam ID
    pub steam_id: Seq<char>,
    /// display name
    pub name: Seq<char>,
    /// observer slot number
    pub observer_slot: Option<u64>,
    /// current activity
    pub activity: Activity,
    /// match statistics
    pub match_stats: Option<MatchStatsV>,
    /// state
    pub state: Option<StateV>,
    /// team
    pub team: Option<Team>,
    /// weapon inventory
    pub weapons: Seq<(Seq<char>, WeaponV)>,
    /// clan
    pub clan: Option<Seq<char>>,
}

impl View for Player {
    type V = PlayerV;

    open spec fn view(&self) -> PlayerV {
        PlayerV {
            steam_id: self.steam_id@,
            name: self.name@,
            observer_slot: self.observer_slot,
            activity: self.activity,
            match_stats: self.match_stats,
            state: self.state,
            team: self.team,
            weapons: weapon_pairs_view(self.weapons@),
            clan: match self.clan {
                Some(s) => Some(s@),
                None => None,
            },
        }
    }
}

/// The wire spelling of an activity.
pub open spec fn spec_activity_text(a: Activity) -> Seq<char> {
    match a {
        Activity::Menu => "menu"@,
        Activity::Playing => "playing"@,
    }
}

/// The activity a wire spelling denotes, if any.
pub open spec fn spec_activity_of(s: Seq<char>) -> Option<Activity> {
    if s == "menu"@ {
        Some(Activity::Menu)
    } else if s == "playing"@ {
        Some(Activity::Playing)
    } else {
        None
    }
}

/// Renders an activity in its wire spelling.
pub fn activity_text(a: Activity) -> (r: String)
    ensures
        r@ == spec_activity_text(a),
{
    match a {
        Activity::Menu => String::from_str("menu"),
        Activity::Playing => String::from_str("playing"),
    }
}

/// Reads an activity from its wire spelling.
pub fn activity_of(s: &str) -> (r: Option<Activity>)
    ensures
        r == spec_activity_of(s@),
{
    if str_eq(s, "menu") {
        Some(Activity::Menu)
    } else if str_eq(s, "playing") {
        Some(Activity::Playing)
    } else {
        None
    }
}

/// A wire spelling always reads back as the activity it renders.
pub proof fn lemma_activity_round_trip(a: Activity)
    ensures
        spec_activity_of(spec_activity_text(a)) == Some(a),
{
    reveal_strlit("menu");
    reveal_strlit("playing");
    assert("menu"@.len() == 4);
    assert("playing"@.len() == 7);
}

/// The wire spelling of a weapon type; two types carry spaces.
pub open spec fn spec_weapon_type_text(w: WeaponType) -> Seq<char> {
    match w {
        WeaponType::Knife => "Knife"@,
        WeaponType::Pistol => "Pistol"@,
        WeaponType::SMG => "Submachine Gun"@,
        WeaponType::MachineGun => "Machine Gun"@,
        WeaponType::Rifle => "Rifle"@,
        WeaponType::SniperRifle => "SniperRifle"@,
        WeaponType::Shotgun => "Shotgun"@,
        WeaponType::StackableItem => "StackableItem"@,
        WeaponType::Grenade => "Grenade"@,
        WeaponType::C4 => "C4"@,
    }
}

/// The weapon type a wire spelling denotes, if any.
pub open spec fn spec_weapon_type_of(s: Seq<char>) -> Option<WeaponType> {
    if s == "Knife"@ {
        Some(WeaponType::Knife)
    } else if s == "Pistol"@ {
        Some(WeaponType::Pistol)
    } else if s == "Submachine Gun"@ {
        Some(WeaponType::SMG)
    } else if s == "Machine Gun"@ {
        Some(WeaponType::MachineGun)
    } else if s == "Rifle"@ {
        Some(WeaponType::Rifle)
    } else if s == "SniperRifle"@ {
        Some(WeaponType::SniperRifle)
    } else if s == "Shotgun"@ {
        Some(WeaponType::Shotgun)
    } else if s == "StackableItem"@ {
        Some(WeaponType::StackableItem)
    } else if s == "Grenade"@ {
        Some(WeaponType::Grenade)
    } else if s == "C4"@ {
        Some(WeaponType::C4)
    } else {
        None
    }
}

/// Renders a weapon type in its wire spelling.
pub fn weapon_type_text(w: WeaponType) -> (r: String)
    ensures
        r@ == spec_weapon_type_text(w),
{
    match w {
        WeaponType::Knife => String::from_str("Knife"),
        WeaponType::Pistol => String::from_str("Pistol"),
        WeaponType::SMG => String::from_str("Submachine Gun"),
        WeaponType::MachineGun => String::from_str("Machine Gun"),
        WeaponType::Rifle => String::from_str("Rifle"),
        WeaponType::SniperRifle => String::from_str("SniperRifle"),
        WeaponType::Shotgun => String::from_str("Shotgun"),
        WeaponType::StackableItem => String::from_str("StackableItem"),
        WeaponType::Grenade => String::from_str("Grenade"),
        WeaponType::C4 => String::from_str("C4"),
    }
}

/// Reads a weapon type from its wire spelling.
pub fn weapon_type_of(s: &str) -> (r: Option<WeaponType>)
    ensures
        r == spec_weapon_type_of(s@),
{
    if str_eq(s, "Knife") {
        Some(WeaponType::Knife)
    } else if str_eq(s, "Pistol") {
        Some(WeaponType::Pistol)
    } else if str_eq(s, "Submachine Gun") {
        Some(WeaponType::SMG)
    } else if str_eq(s, "Machine Gun") {
        Some(WeaponType::MachineGun)
    } else if str_eq(s, "Rifle") {
        Some(WeaponType::Rifle)
    } else if str_eq(s, "SniperRifle") {
        Some(WeaponType::SniperRifle)
    } else if str_eq(s, "Shotgun") {
        Some(WeaponType::Shotgun)
    } else if str_eq(s, "StackableItem") {
        Some(WeaponType::StackableItem)
    } else if str_eq(s, "Grenade") {
        Some(WeaponType::Grenade)
    } else if str_eq(s, "C4") {
        Some(WeaponType::C4)
    } else {
        None
    }
}

/// A wire spelling always reads back as the weapon type it renders.
pub proof fn lemma_weapon_type_round_trip(w: WeaponType)
    ensures
        spec_weapon_type_of(spec_weapon_type_text(w)) == Some(w),
{
    reveal_strlit("Knife");
    reveal_strlit("Pistol");
    reveal_strlit("Submachine Gun");
    reveal_strlit("Machine Gun");
    reveal_strlit("Rifle");
    reveal_strlit("SniperRifle");
    reveal_strlit("Shotgun");
    reveal_strlit("StackableItem");
    reveal_strlit("Grenade");
    reveal_strlit("C4");
    assert("Knife"@.len() == 5);
    assert("Pistol"@.len() == 6);
    assert("Submachine Gun"@.len() == 14);
    assert("Machine Gun"@.len() == 11);
    assert("Rifle"@.len() == 5);
    assert("SniperRifle"@.len() == 11);
    assert("Shotgun"@.len() == 7);
    assert("StackableItem"@.len() == 13);
    assert("Grenade"@.len() == 7);
    assert("C4"@.len() == 2);
    assert("Rifle"@[0] != "Knife"@[0]);
    assert("SniperRifle"@[0] != "Machine Gun"@[0]);
    assert("Grenade"@[0] != "Shotgun"@[0]);
}

/// The wire spelling of a weapon state.
pub open spec fn spec_weapon_state_text(w: WeaponState) -> Seq<char> {
    match w {
        WeaponState::Holstered => "holstered"@,
        WeaponState::Active => "active"@,
        WeaponState::Reloading => "reloading"@,
    }
}

/// The weapon state a wire spelling denotes, if any.
pub open spec fn spec_weapon_state_of(s: Seq<char>) -> Option<WeaponState> {
    if s == "holstered"@ {
        Some(WeaponState::Holstered)
    } else if s == "active"@ {
        Some(WeaponState::Active)
    } else if s == "reloading"@ {
        Some(WeaponState::Reloading)
    } else {
        None
    }
}

/// Renders a weapon state in its wire spelling.
pub fn weapon_state_text(w: WeaponState) -> (r: String)
    ensures
        r@ == spec_weapon_state_text(w),
{
    match w {
        WeaponState::Holstered => String::from_str("holstered"),
        WeaponState::Active => String::from_str("active"),
        WeaponState::Reloading => String::from_str("reloading"),
    }
}

/// Reads a weapon state from its wire spelling.
pub fn weapon_state_of(s: &str) -> (r: Option<WeaponState>)
    ensures
        r == spec_weapon_state_of(s@),
{
    if str_eq(s, "holstered") {
        Some(WeaponState::Holstered)
    } else if str_eq(s, "active") {
        Some(WeaponState::Active)
    } else if str_eq(s, "reloading") {
        Some(WeaponState::Reloading)
    } else {
        None
    }
}

/// A wire spelling always reads back as the weapon state it renders.
pub proof fn lemma_weapon_state_round_trip(w: WeaponState)
    ensures
        spec_weapon_state_of(spec_weapon_state_text(w)) == Some(w),
{
    reveal_strlit("holstered");
    reveal_strlit("active");
    reveal_strlit("reloading");
    assert("holstered"@.len() == 9);
    assert("active"@.len() == 6);
    assert("reloading"@.len() == 9);
    assert("reloading"@[0] != "holstered"@[0]);
}

/// The field names the match-stats section admits.
pub open spec fn spec_match_stats_key(k: Seq<char>) -> bool {
    k == "kills"@ || k == "assists"@ || k == "deaths"@ || k == "mvps"@ || k == "score"@
}

/// Whether every field name of a match-stats section is admitted.
pub open spec fn spec_match_stats_keys_ok(fields: Seq<(Seq<char>, JVal)>) -> bool {
    forall|i: int| 0 <= i < fields.len() ==> spec_match_stats_key(#[trigger] fields[i].0)
}

/// What decoding a match-stats section yields.
pub open spec fn spec_decode_match_stats(j: JVal) -> Option<MatchStatsV> {
    match j {
        JVal::Obj(fields) => if spec_match_stats_keys_ok(fields) {
            match (
                spec_field_i64(obj_get(fields, "kills"@)),
                spec_field_u64(obj_get(fields, "assists"@)),
                spec_field_u64(obj_get(fields, "deaths"@)),
                spec_field_u64(obj_get(fields, "mvps"@)),
                spec_field_u64(obj_get(fields, "score"@)),
            ) {
                (Some(kills), Some(assists), Some(deaths), Some(mvps), Some(score)) => Some(
                    MatchStats { kills, assists, deaths, mvps, score },
                ),
                _ => None,
            }
        } else {
            None
        },
        _ => None,
    }
}

/// Whether every field name of a match-stats section is admitted.
fn match_stats_keys_ok(fields: &Vec<(String, JsonValue)>) -> (r: bool)
    ensures
        r == spec_match_stats_keys_ok(jfields_of(fields@)),
{
    proof {
        lemma_jfields_of_index(fields@);
    }
    let n = fields.len();
    let mut i: usize = 0;
    while i < n
        invariant
            0 <= i <= n,
            n == fields@.len(),
            jfields_of(fields@).len() == n,
            forall|j: int| 0 <= j < n ==> jfields_of(fields@)[j] == (
                fields@[j].0@,
                jval_of(&fields@[j].1),
            ),
            forall|j: int| 0 <= j < i ==> spec_match_stats_key(
                #[trigger] jfields_of(fields@)[j].0,
            ),
        decreases n - i,
    {
        let k = fields[i].0.as_str();
        if !(str_eq(k, "kills") || str_eq(k, "assists") || str_eq(k, "deaths") || str_eq(k, "mvps")
            || str_eq(k, "score")) {
            proof {
                assert(!spec_match_stats_key(jfields_of(fields@)[i as int].0));
            }
            return false;
        }
        i = i + 1;
    }
    true
}

/// Decodes a match-stats section, strictly.
pub fn decode_match_stats(v: &JsonValue) -> (r: Option<MatchStats>)
    ensures
        match r {
            Some(x) => spec_decode_match_stats(v@) == Some(x),
            None => spec_decode_match_stats(v@) is None,
        },
{
    let fields = match v {
        JsonValue::Obj(fields) => fields,
        _ => {
            return None;
        },
    };
    if !match_stats_keys_ok(fields) {
        return None;
    }
    let kills = match field_i64(obj_lookup(fields, "kills")) {
        Some(x) => x,
        None => {
            return None;
        },
    };
    let assists = match field_u64(obj_lookup(fields, "assists")) {
        Some(x) => x,
        None => {
            return None;
        },
    };
    let deaths = match field_u64(obj_lookup(fields, "deaths")) {
        Some(x) => x,
        None => {
            return None;
        },
    };
    let mvps = match field_u64(obj_lookup(fields, "mvps")) {
        Some(x) => x,
        None => {
            return None;
        },
    };
    let score = match field_u64(obj_lookup(fields, "score")) {
        Some(x) => x,
        None => {
            return None;
        },
    };
    Some(MatchStats { kills, assists, deaths, mvps, score })
}

/// A match-stats section with any field outside its schema is rejected.
pub proof fn lemma_match_stats_unknown_field_rejected(fields: Seq<(Seq<char>, JVal)>, i: int)
    requires
        0 <= i < fields.len(),
        !spec_match_stats_key(fields[i].0),
    ensures
        spec_decode_match_stats(JVal::Obj(fields)) is None,
{
    assert(!spec_match_stats_keys_ok(fields));
}

/// What encoding a match-stats section yields.
pub open spec fn spec_encode_match_stats(m: MatchStatsV) -> JVal {
    JVal::Obj(
        seq![
            ("kills"@, JVal::Int(m.kills)),
            ("assists"@, JVal::UInt(m.assists)),
            ("deaths"@, JVal::UInt(m.deaths)),
            ("mvps"@, JVal::UInt(m.mvps)),
            ("score"@, JVal::UInt(m.score)),
        ],
    )
}

/// Encodes a match-stats section.
pub fn encode_match_stats(m: &MatchStats) -> (out: JsonValue)
    ensures
        out@ == spec_encode_match_stats(*m),
{
    let mut fields: Vec<(String, JsonValue)> = Vec::new();
    fields.push((String::from_str("kills"), JsonValue::Int(m.kills)));
    fields.push((String::from_str("assists"), JsonValue::UInt(m.assists)));
    fields.push((String::from_str("deaths"), JsonValue::UInt(m.deaths)));
    fields.push((String::from_str("mvps"), JsonValue::UInt(m.mvps)));
    fields.push((String::from_str("score"), JsonValue::UInt(m.score)));
    let out = JsonValue::Obj(fields);
    proof {
        lemma_jfields_of_index(fields@);
        assert(jfields_of(fields@) =~= spec_encode_match_stats(*m)->Obj_0);
    }
    out
}

/// Encoding then decoding a match-stats section gives the section back.
pub proof fn lemma_match_stats_codec(m: MatchStatsV)
    ensures
        spec_decode_match_stats(spec_encode_match_stats(m)) == Some(m),
{
    reveal_strlit("kills");
    reveal_strlit("assists");
    reveal_strlit("deaths");
    reveal_strlit("mvps");
    reveal_strlit("score");
    assert("kills"@.len() == 5);
    assert("assists"@.len() == 7);
    assert("deaths"@.len() == 6);
    assert("mvps"@.len() == 4);
    assert("score"@.len() == 5);
    assert("score"@[0] != "kills"@[0]);
    let fields = spec_encode_match_stats(m)->Obj_0;
    assert(spec_match_stats_keys_ok(fields));
    lemma_obj_get_at(fields, "kills"@, 0);
    lemma_obj_get_at(fields, "assists"@, 1);
    lemma_obj_get_at(fields, "deaths"@, 2);
    lemma_obj_get_at(fields, "mvps"@, 3);
    lemma_obj_get_at(fields, "score"@, 4);
}

/// The field names the state section admits.
pub open spec fn spec_state_key(k: Seq<char>) -> bool {
    k == "health"@ || k == "armor"@ || k == "helmet"@ || k == "flashed"@ || k == "smoked"@ || k
        == "burning"@ || k == "money"@ || k == "round_kills"@ || k == "round_killhs"@ || k
        == "equip_value"@ || k == "round_totaldmg"@ || k == "defusekit"@
}

/// Whether every field name of a state section is admitted.
pub open spec fn spec_state_keys_ok(fields: Seq<(Seq<char>, JVal)>) -> bool {
    forall|i: int| 0 <= i < fields.len() ==> spec_state_key(#[trigger] fields[i].0)
}

/// What decoding a state section yields.
pub open spec fn spec_decode_state(j: JVal) -> Option<StateV> {
    match j {
        JVal::Obj(fields) => if spec_state_keys_ok(fields) {
            match (
                spec_field_u64(obj_get(fields, "health"@)),
                spec_field_u64(obj_get(fields, "armor"@)),
                spec_field_bool(obj_get(fields, "helmet"@)),
                spec_field_u64(obj_get(fields, "flashed"@)),
                spec_field_u64(obj_get(fields, "smoked"@)),
                spec_field_u64(obj_get(fields, "burning"@)),
                spec_field_u64(obj_get(fields, "money"@)),
                spec_field_i64(obj_get(fields, "round_kills"@)),
                spec_field_u64(obj_get(fields, "round_killhs"@)),
                spec_field_u64(obj_get(fields, "equip_value"@)),
                spec_opt_u64(obj_get(fields, "round_totaldmg"@)),
                spec_opt_bool(obj_get(fields, "defusekit"@)),
            ) {
                (
                    Some(health),
                    Some(armor),
                    Some(helmet),
                    Some(flashed),
                    Some(smoked),
                    Some(burning),
                    Some(money),
                    Some(round_kills),
                    Some(round_killhs),
                    Some(equip_value),
                    Some(round_totaldmg),
                    Some(defuse_kit),
                ) => Some(
                    State {
                        health,
                        armor,
                        helmet,
                        flashed,
                        smoked,
                        burning,
                        money,
                        round_kills,
                        round_killhs,
                        equip_value,
                        round_totaldmg,
                        defuse_kit,
                    },
                ),
                _ => None,
            }
        } else {
            None
        },
        _ => None,
    }
}

/// Whether every field name of a state section is admitted.
fn state_keys_ok(fields: &Vec<(String, JsonValue)>) -> (r: bool)
    ensures
        r == spec_state_keys_ok(jfields_of(fields@)),
{
    proof {
        lemma_jfields_of_index(fields@);
    }
    let n = fields.len();
    let mut i: usize = 0;
    while i < n
        invariant
            0 <= i <= n,
            n == fields@.len(),
            jfields_of(fields@).len() == n,
            forall|j: int| 0 <= j < n ==> jfields_of(fields@)[j] == (
                fields@[j].0@,
                jval_of(&fields@[j].1),
            ),
            forall|j: int| 0 <= j < i ==> spec_state_key(#[trigger] jfields_of(fields@)[j].0),
        decreases n - i,
    {
        let k = fields[i].0.as_str();
        if !(str_eq(k, "health") || str_eq(k, "armor") || str_eq(k, "helmet") || str_eq(
            k,
            "flashed",
        ) || str_eq(k, "smoked") || str_eq(k, "burning") || str_eq(k, "money") || str_eq(
            k,
            "round_kills",
        ) || str_eq(k, "round_killhs") || str_eq(k, "equip_value") || str_eq(k, "round_totaldmg")
            || str_eq(k, "defusekit")) {
            proof {
                assert(!spec_state_key(jfields_of(fields@)[i as int].0));
            }
            return false;
        }
        i = i + 1;
    }
    true
}

/// Decodes a state section, strictly.
pub fn decode_state(v: &JsonValue) -> (r: Option<State>)
    ensures
        match r {
            Some(x) => spec_decode_state(v@) == Some(x),
            None => spec_decode_state(v@) is None,
        },
{
    let fields = match v {
        JsonValue::Obj(fields) => fields,
        _ => {
            return None;
        },
    };
    if !state_keys_ok(fields) {
        return None;
    }
    let health = match field_u64(obj_lookup(fields, "health")) {
        Some(x) => x,
        None => {
            return None;
        },
    };
    let armor = match field_u64(obj_lookup(fields, "armor")) {
        Some(x) => x,
        None => {
            return None;
        },
    };
    let helmet = match field_bool(obj_lookup(fields, "helmet")) {
        Some(x) => x,
        None => {
            return None;
        },
    };
    let flashed = match field_u64(obj_lookup(fields, "flashed")) {
        Some(x) => x,
        None => {
            return None;
        },
    };
    let smoked = match field_u64(obj_lookup(fields, "smoked")) {
        Some(x) => x,
        None => {
            return None;
        },
    };
    let burning = match field_u64(obj_lookup(fields, "burning")) {
        Some(x) => x,
        None => {
            return None;
        },
    };
    let money = match field_u64(obj_lookup(fields, "money")) {
        Some(x) => x,
        None => {
            return None;
        },
    };
    let round_kills = match field_i64(obj_lookup(fields, "round_kills")) {
        Some(x) => x,
        None => {
            return None;
        },
    };
    let round_killhs = match field_u64(obj_lookup(fields, "round_killhs")) {
        Some(x) => x,
        None => {
            return None;
        },
    };
    let equip_value = match field_u64(obj_lookup(fields, "equip_value")) {
        Some(x) => x,
        None => {
            return None;
        },
    };
    let round_totaldmg = match opt_u64(obj_lookup(fields, "round_totaldmg")) {
        Some(x) => x,
        None => {
            return None;
        },
    };
    let defuse_kit = match opt_bool(obj_lookup(fields, "defusekit")) {
        Some(x) => x,
        None => {
            return None;
        },
    };
    Some(
        State {
            health,
            armor,
            helmet,
            flashed,
            smoked,
            burning,
            money,
            round_kills,
            round_killhs,
            equip_value,
            round_totaldmg,
            defuse_kit,
        },
    )
}

/// A state section with any field outside its schema is rejected.
pub proof fn lemma_state_unknown_field_rejected(fields: Seq<(Seq<char>, JVal)>, i: int)
    requires
        0 <= i < fields.len(),
        !spec_state_key(fields[i].0),
    ensures
        spec_decode_state(JVal::Obj(fields)) is None,
{
    assert(!spec_state_keys_ok(fields));
}

/// What encoding a state section yields.
pub open spec fn spec_encode_state(s: StateV) -> JVal {
    JVal::Obj(
        seq![
            ("health"@, JVal::UInt(s.health)),
            ("armor"@, JVal::UInt(s.armor)),
            ("helmet"@, JVal::Bool(s.helmet)),
            ("flashed"@, JVal::UInt(s.flashed)),
            ("smoked"@, JVal::UInt(s.smoked)),
            ("burning"@, JVal::UInt(s.burning)),
            ("money"@, JVal::UInt(s.money)),
            ("round_kills"@, JVal::Int(s.round_kills)),
            ("round_killhs"@, JVal::UInt(s.round_killhs)),
            ("equip_value"@, JVal::UInt(s.equip_value)),
            (
                "round_totaldmg"@,
                match s.round_totaldmg {
                    Some(n) => JVal::UInt(n),
                    None => JVal::Null,
                },
            ),
            (
                "defusekit"@,
                match s.defuse_kit {
                    Some(b) => JVal::Bool(b),
                    None => JVal::Null,
                },
            ),
        ],
    )
}

/// Encodes a state section.
pub fn encode_state(s: &State) -> (out: JsonValue)
    ensures
        out@ == spec_encode_state(*s),
{
    let mut fields: Vec<(String, JsonValue)> = Vec::new();
    fields.push((String::from_str("health"), JsonValue::UInt(s.health)));
    fields.push((String::from_str("armor"), JsonValue::UInt(s.armor)));
    fields.push((String::from_str("helmet"), JsonValue::Bool(s.helmet)));
    fields.push((String::from_str("flashed"), JsonValue::UInt(s.flashed)));
    fields.push((String::from_str("smoked"), JsonValue::UInt(s.smoked)));
    fields.push((String::from_str("burning"), JsonValue::UInt(s.burning)));
    fields.push((String::from_str("money"), JsonValue::UInt(s.money)));
    fields.push((String::from_str("round_kills"), JsonValue::Int(s.round_kills)));
    fields.push((String::from_str("round_killhs"), JsonValue::UInt(s.round_killhs)));
    fields.push((String::from_str("equip_value"), JsonValue::UInt(s.equip_value)));
    let round_totaldmg = match s.round_totaldmg {
        Some(n) => JsonValue::UInt(n),
        None => JsonValue::Null,
    };
    fields.push((String::from_str("round_totaldmg"), round_totaldmg));
    let defuse_kit = match s.defuse_kit {
        Some(b) => JsonValue::Bool(b),
        None => JsonValue::Null,
    };
    fields.push((String::from_str("defusekit"), defuse_kit));
    let out = JsonValue::Obj(fields);
    proof {
        lemma_jfields_of_index(fields@);
        assert(jfields_of(fields@) =~= spec_encode_state(*s)->Obj_0);
    }
    out
}

/// Encoding then decoding a state section gives the section back.
pub proof fn lemma_state_codec(s: StateV)
    ensures
        spec_decode_state(spec_encode_state(s)) == Some(s),
{
    reveal_strlit("health");
    reveal_strlit("armor");
    reveal_strlit("helmet");
    reveal_strlit("flashed");
    reveal_strlit("smoked");
    reveal_strlit("burning");
    reveal_strlit("money");
    reveal_strlit("round_kills");
    reveal_strlit("round_killhs");
    reveal_strlit("equip_value");
    reveal_strlit("round_totaldmg");
    reveal_strlit("defusekit");
    assert("health"@.len() == 6);
    assert("armor"@.len() == 5);
    assert("helmet"@.len() == 6);
    assert("flashed"@.len() == 7);
    assert("smoked"@.len() == 6);
    assert("burning"@.len() == 7);
    assert("money"@.len() == 5);
    assert("round_kills"@.len() == 11);
    assert("round_killhs"@.len() == 12);
    assert("equip_value"@.len() == 11);
    assert("round_totaldmg"@.len() == 14);
    assert("defusekit"@.len() == 9);
    assert("helmet"@[2] != "health"@[2]);
    assert("smoked"@[0] != "health"@[0]);
    assert("smoked"@[0] != "helmet"@[0]);
    assert("money"@[0] != "armor"@[0]);
    assert("burning"@[0] != "flashed"@[0]);
    assert("equip_value"@[0] != "round_kills"@[0]);
    let fields = spec_encode_state(s)->Obj_0;
    assert(spec_state_keys_ok(fields));
    lemma_obj_get_at(fields, "health"@, 0);
    lemma_obj_get_at(fields, "armor"@, 1);
    lemma_obj_get_at(fields, "helmet"@, 2);
    lemma_obj_get_at(fields, "flashed"@, 3);
    lemma_obj_get_at(fields, "smoked"@, 4);
    lemma_obj_get_at(fields, "burning"@, 5);
    lemma_obj_get_at(fields, "money"@, 6);
    lemma_obj_get_at(fields, "round_kills"@, 7);
    lemma_obj_get_at(fields, "round_killhs"@, 8);
    lemma_obj_get_at(fields, "equip_value"@, 9);
    lemma_obj_get_at(fields, "round_totaldmg"@, 10);
    lemma_obj_get_at(fields, "defusekit"@, 11);
}

/// The field names the weapon section admits; `type` is the wire spelling
/// of the weapon-type field.
pub open spec fn spec_weapon_key(k: Seq<char>) -> bool {
    k == "name"@ || k == "paintkit"@ || k == "type"@ || k == "state"@ || k == "ammo_clip"@ || k
        == "ammo_clip_max"@ || k == "ammo_reserve"@
}

/// Whether every field name of a weapon section is admitted.
pub open spec fn spec_weapon_keys_ok(fields: Seq<(Seq<char>, JVal)>) -> bool {
    forall|i: int| 0 <= i < fields.len() ==> spec_weapon_key(#[trigger] fields[i].0)
}

/// An optional weapon-type field.
pub open spec fn spec_opt_weapon_type(o: Option<JVal>) -> Option<Option<WeaponType>> {
    match o {
        None => Some(None),
        Some(JVal::Null) => Some(None),
        Some(JVal::Str(s)) => match spec_weapon_type_of(s) {
            Some(w) => Some(Some(w)),
            None => None,
        },
        _ => None,
    }
}

/// A required weapon-state field.
pub open spec fn spec_field_weapon_state(o: Option<JVal>) -> Option<WeaponState> {
    match o {
        Some(JVal::Str(s)) => spec_weapon_state_of(s),
        _ => None,
    }
}

/// What decoding a weapon section yields.
pub open spec fn spec_decode_weapon(j: JVal) -> Option<WeaponV> {
    match j {
        JVal::Obj(fields) => if spec_weapon_keys_ok(fields) {
            match (
                spec_field_string(obj_get(fields, "name"@)),
                spec_field_string(obj_get(fields, "paintkit"@)),
                spec_opt_weapon_type(obj_get(fields, "type"@)),
                spec_field_weapon_state(obj_get(fields, "state"@)),
                spec_opt_u64(obj_get(fields, "ammo_clip"@)),
                spec_opt_u64(obj_get(fields, "ammo_clip_max"@)),
                spec_opt_u64(obj_get(fields, "ammo_reserve"@)),
            ) {
                (
                    Some(name),
                    Some(paintkit),
                    Some(weapon_type),
                    Some(state),
                    Some(ammo_clip),
                    Some(ammo_clip_max),
                    Some(ammo_reserve),
                ) => Some(
                    WeaponV {
                        name,
                        paintkit,
                        weapon_type,
                        state,
                        ammo_clip,
                        ammo_clip_max,
                        ammo_reserve,
                    },
                ),
                _ => None,
            }
        } else {
            None
        },
        _ => None,
    }
}

/// Whether every field name of a weapon section is admitted.
fn weapon_keys_ok(fields: &Vec<(String, JsonValue)>) -> (r: bool)
    ensures
        r == spec_weapon_keys_ok(jfields_of(fields@)),
{
    proof {
        lemma_jfields_of_index(fields@);
    }
    let n = fields.len();
    let mut i: usize = 0;
    while i < n
        invariant
            0 <= i <= n,
            n == fields@.len(),
            jfields_of(fields@).len() == n,
            forall|j: int| 0 <= j < n ==> jfields_of(fields@)[j] == (
                fields@[j].0@,
                jval_of(&fields@[j].1),
            ),
            forall|j: int| 0 <= j < i ==> spec_weapon_key(#[trigger] jfields_of(fields@)[j].0),
        decreases n - i,
    {
        let k = fields[i].0.as_str();
        if !(str_eq(k, "name") || str_eq(k, "paintkit") || str_eq(k, "type") || str_eq(k, "state")
            || str_eq(k, "ammo_clip") || str_eq(k, "ammo_clip_max") || str_eq(k, "ammo_reserve")) {
            proof {
                assert(!spec_weapon_key(jfields_of(fields@)[i as int].0));
            }
            return false;
        }
        i = i + 1;
    }
    true
}

/// Reads an optional weapon-type field.
fn opt_weapon_type(o: Option<&JsonValue>) -> (r: Option<Option<WeaponType>>)
    ensures
        r == spec_opt_weapon_type(oview(o)),
{
    match o {
        None => Some(None),
        Some(JsonValue::Null) => Some(None),
        Some(JsonValue::Str(s)) => match weapon_type_of(s.as_str()) {
            Some(w) => Some(Some(w)),
            None => None,
        },
        _ => None,
    }
}

/// Reads a required weapon-state field.
fn field_weapon_state(o: Option<&JsonValue>) -> (r: Option<WeaponState>)
    ensures
        r == spec_field_weapon_state(oview(o)),
{
    match o {
        Some(JsonValue::Str(s)) => weapon_state_of(s.as_str()),
        _ => None,
    }
}

/// Decodes a weapon section, strictly.
pub fn decode_weapon(v: &JsonValue) -> (r: Option<Weapon>)
    ensures
        match r {
            Some(x) => spec_decode_weapon(v@) == Some(x@),
            None => spec_decode_weapon(v@) is None,
        },
{
    let fields = match v {
        JsonValue::Obj(fields) => fields,
        _ => {
            return None;
        },
    };
    if !weapon_keys_ok(fields) {
        return None;
    }
    let name = match field_string(obj_lookup(fields, "name")) {
        Some(x) => x,
        None => {
            return None;
        },
    };
    let paintkit = match field_string(obj_lookup(fields, "paintkit")) {
        Some(x) => x,
        None => {
            return None;
        },
    };
    let weapon_type = match opt_weapon_type(obj_lookup(fields, "type")) {
        Some(x) => x,
        None => {
            return None;
        },
    };
    let state = match field_weapon_state(obj_lookup(fields, "state")) {
        Some(x) => x,
        None => {
            return None;
        },
    };
    let ammo_clip = match opt_u64(obj_lookup(fields, "ammo_clip")) {
        Some(x) => x,
        None => {
            return None;
        },
    };
    let ammo_clip_max = match opt_u64(obj_lookup(fields, "ammo_clip_max")) {
        Some(x) => x,
        None => {
            return None;
        },
    };
    let ammo_reserve = match opt_u64(obj_lookup(fields, "ammo_reserve")) {
        Some(x) => x,
        None => {
            return None;
        },
    };
    Some(Weapon { name, paintkit, weapon_type, state, ammo_clip, ammo_clip_max, ammo_reserve })
}

/// A weapon section with any field outside its schema is rejected.
pub proof fn lemma_weapon_unknown_field_rejected(fields: Seq<(Seq<char>, JVal)>, i: int)
    requires
        0 <= i < fields.len(),
        !spec_weapon_key(fields[i].0),
    ensures
        spec_decode_weapon(JVal::Obj(fields)) is None,
{
    assert(!spec_weapon_keys_ok(fields));
}

/// What encoding a weapon section yields.
pub open spec fn spec_encode_weapon(w: WeaponV) -> JVal {
    JVal::Obj(
        seq![
            ("name"@, JVal::Str(w.name)),
            ("paintkit"@, JVal::Str(w.paintkit)),
            (
                "type"@,
                match w.weapon_type {
                    Some(t) => JVal::Str(spec_weapon_type_text(t)),
                    None => JVal::Null,
                },
            ),
            ("state"@, JVal::Str(spec_weapon_state_text(w.state))),
            (
                "ammo_clip"@,
                match w.ammo_clip {
                    Some(n) => JVal::UInt(n),
                    None => JVal::Null,
                },
            ),
            (
                "ammo_clip_max"@,
                match w.ammo_clip_max {
                    Some(n) => JVal::UInt(n),
                    None => JVal::Null,
                },
            ),
            (
                "ammo_reserve"@,
                match w.ammo_reserve {
                    Some(n) => JVal::UInt(n),
                    None => JVal::Null,
                },
            ),
        ],
    )
}

/// Encodes a weapon section.
pub fn encode_weapon(w: &Weapon) -> (out: JsonValue)
    ensures
        out@ == spec_encode_weapon(w@),
{
    let mut fields: Vec<(String, JsonValue)> = Vec::new();
    fields.push((String::from_str("name"), JsonValue::Str(w.name.clone())));
    fields.push((String::from_str("paintkit"), JsonValue::Str(w.paintkit.clone())));
    let weapon_type = match w.weapon_type {
        Some(t) => JsonValue::Str(weapon_type_text(t)),
        None => JsonValue::Null,
    };
    fields.push((String::from_str("type"), weapon_type));
    fields.push((String::from_str("state"), JsonValue::Str(weapon_state_text(w.state))));
    let ammo_clip = match w.ammo_clip {
        Some(n) => JsonValue::UInt(n),
        None => JsonValue::Null,
    };
    fields.push((String::from_str("ammo_clip"), ammo_clip));
    let ammo_clip_max = match w.ammo_clip_max {
        Some(n) => JsonValue::UInt(n),
        None => JsonValue::Null,
    };
    fields.push((String::from_str("ammo_clip_max"), ammo_clip_max));
    let ammo_reserve = match w.ammo_reserve {
        Some(n) => JsonValue::UInt(n),
        None => JsonValue::Null,
    };
    fields.push((String::from_str("ammo_reserve"), ammo_reserve));
    let out = JsonValue::Obj(fields);
    proof {
        lemma_jfields_of_index(fields@);
        assert(jfields_of(fields@) =~= spec_encode_weapon(w@)->Obj_0);
    }
    out
}

/// Encoding then decoding a weapon section gives the section back.
pub proof fn lemma_weapon_codec(w: WeaponV)
    ensures
        spec_decode_weapon(spec_encode_weapon(w)) == Some(w),
{
    reveal_strlit("name");
    reveal_strlit("paintkit");
    reveal_strlit("type");
    reveal_strlit("state");
    reveal_strlit("ammo_clip");
    reveal_strlit("ammo_clip_max");
    reveal_strlit("ammo_reserve");
    assert("name"@.len() == 4);
    assert("paintkit"@.len() == 8);
    assert("type"@.len() == 4);
    assert("state"@.len() == 5);
    assert("ammo_clip"@.len() == 9);
    assert("ammo_clip_max"@.len() == 13);
    assert("ammo_reserve"@.len() == 12);
    assert("type"@[0] != "name"@[0]);
    let fields = spec_encode_weapon(w)->Obj_0;
    assert(spec_weapon_keys_ok(fields));
    lemma_obj_get_at(fields, "name"@, 0);
    lemma_obj_get_at(fields, "paintkit"@, 1);
    lemma_obj_get_at(fields, "type"@, 2);
    lemma_obj_get_at(fields, "state"@, 3);
    lemma_obj_get_at(fields, "ammo_clip"@, 4);
    lemma_obj_get_at(fields, "ammo_clip_max"@, 5);
    lemma_obj_get_at(fields, "ammo_reserve"@, 6);
    if let Some(t) = w.weapon_type {
        lemma_weapon_type_round_trip(t);
    }
    lemma_weapon_state_round_trip(w.state);
}

/// An object all of whose values are weapon sections, kept in document
/// order.
pub open spec fn spec_weapon_map(fields: Seq<(Seq<char>, JVal)>) -> Option<
    Seq<(Seq<char>, WeaponV)>,
>
    decreases fields.len(),
{
    if fields.len() == 0 {
        Some(Seq::empty())
    } else {
        match (spec_weapon_map(fields.drop_last()), spec_decode_weapon(fields.last().1)) {
            (Some(rest), Some(w)) => Some(rest.push((fields.last().0, w))),
            _ => None,
        }
    }
}

/// Once a prefix fails to read as a weapon map, every extension fails.
proof fn lemma_weapon_map_none_extends(fields: Seq<(Seq<char>, JVal)>, i: int, j: int)
    requires
        0 <= i <= j <= fields.len(),
        spec_weapon_map(fields.take(i)) is None,
    ensures
        spec_weapon_map(fields.take(j)) is None,
    decreases j - i,
{
    if i < j {
        lemma_weapon_map_none_extends(fields, i, j - 1);
        assert(fields.take(j).drop_last() =~= fields.take(j - 1));
    }
}

/// Reads an object all of whose values are weapon sections: the weapon
/// inventory.
pub fn decode_weapon_map(fields: &Vec<(String, JsonValue)>) -> (r: Option<Vec<(String, Weapon)>>)
    ensures
        match r {
            Some(m) => spec_weapon_map(jfields_of(fields@)) == Some(weapon_pairs_view(m@)),
            None => spec_weapon_map(jfields_of(fields@)) is None,
        },
{
    proof {
        lemma_jfields_of_index(fields@);
    }
    let ghost gf = jfields_of(fields@);
    let n = fields.len();
    let mut out: Vec<(String, Weapon)> = Vec::new();
    let mut i: usize = 0;
    while i < n
        invariant
            0 <= i <= n,
            n == fields@.len(),
            gf == jfields_of(fields@),
            gf.len() == n,
            forall|j: int| 0 <= j < n ==> gf[j] == (fields@[j].0@, jval_of(&fields@[j].1)),
            spec_weapon_map(gf.take(i as int)) == Some(weapon_pairs_view(out@)),
        decreases n - i,
    {
        match decode_weapon(&fields[i].1) {
            Some(w) => {
                let ghost wv = w@;
                let pair = (fields[i].0.clone(), w);
                out.push(pair);
                proof {
                    assert(gf.take(i + 1).drop_last() =~= gf.take(i as int));
                    assert(weapon_pairs_view(out@) =~= spec_weapon_map(gf.take(i as int)).unwrap()
                        .push((fields@[i as int].0@, wv)));
                }
            },
            None => {
                proof {
                    assert(gf.take(i + 1).drop_last() =~= gf.take(i as int));
                    assert(spec_weapon_map(gf.take(i + 1)) is None);
                    lemma_weapon_map_none_extends(gf, i + 1, n as int);
                    assert(gf.take(n as int) =~= gf);
                }
                return None;
            },
        }
        i = i + 1;
    }
    proof {
        assert(gf.take(n as int) =~= gf);
    }
    Some(out)
}

/// The object fields that encode a weapon inventory.
pub open spec fn spec_encode_weapon_pairs(s: Seq<(Seq<char>, WeaponV)>) -> Seq<(Seq<char>, JVal)> {
    Seq::new(s.len(), |i: int| (s[i].0, spec_encode_weapon(s[i].1)))
}

/// An encoded weapon inventory always reads back as the same inventory.
pub proof fn lemma_weapon_map_codec(s: Seq<(Seq<char>, WeaponV)>)
    ensures
        spec_weapon_map(spec_encode_weapon_pairs(s)) == Some(s),
    decreases s.len(),
{
    if s.len() == 0 {
        assert(spec_encode_weapon_pairs(s) =~= Seq::<(Seq<char>, JVal)>::empty());
        assert(spec_weapon_map(spec_encode_weapon_pairs(s)) == Some(
            Seq::<(Seq<char>, WeaponV)>::empty(),
        ));
        assert(s =~= Seq::<(Seq<char>, WeaponV)>::empty());
    } else {
        lemma_weapon_map_codec(s.drop_last());
        assert(spec_encode_weapon_pairs(s).drop_last() =~= spec_encode_weapon_pairs(s.drop_last()));
        assert(spec_encode_weapon_pairs(s).last() == (s.last().0, spec_encode_weapon(s.last().1)));
        lemma_weapon_codec(s.last().1);
        assert(s.drop_last().push(s.last()) =~= s);
    }
}

/// Encodes a weapon inventory as object fields.
pub fn encode_weapon_map(m: &Vec<(String, Weapon)>) -> (out: Vec<(String, JsonValue)>)
    ensures
        jfields_of(out@) == spec_encode_weapon_pairs(weapon_pairs_view(m@)),
{
    let n = m.len();
    let mut out: Vec<(String, JsonValue)> = Vec::new();
    let mut i: usize = 0;
    while i < n
        invariant
            0 <= i <= n,
            n == m@.len(),
            out@.len() == i,
            forall|j: int| 0 <= j < i ==> out@[j].0@ == m@[j].0@ && jval_of(&out@[j].1)
                == spec_encode_weapon(m@[j].1@),
        decreases n - i,
    {
        let pair = (m[i].0.clone(), encode_weapon(&m[i].1));
        out.push(pair);
        i = i + 1;
    }
    proof {
        lemma_jfields_of_index(out@);
        assert(jfields_of(out@) =~= spec_encode_weapon_pairs(weapon_pairs_view(m@)));
    }
    out
}

/// The field names the player section admits; `steamid` is the wire
/// spelling of the steam-ID field.
pub open spec fn spec_player_key(k: Seq<char>) -> bool {
    k == "steamid"@ || k == "name"@ || k == "observer_slot"@ || k == "activity"@ || k
        == "match_stats"@ || k == "state"@ || k == "team"@ || k == "weapons"@ || k == "clan"@
}

/// Whether every field name of a player section is admitted.
pub open spec fn spec_player_keys_ok(fields: Seq<(Seq<char>, JVal)>) -> bool {
    forall|i: int| 0 <= i < fields.len() ==> spec_player_key(#[trigger] fields[i].0)
}

/// A required activity field.
pub open spec fn spec_field_activity(o: Option<JVal>) -> Option<Activity> {
    match o {
        Some(JVal::Str(s)) => spec_activity_of(s),
        _ => None,
    }
}

/// An optional match-stats field.
pub open spec fn spec_opt_match_stats(o: Option<JVal>) -> Option<Option<MatchStatsV>> {
    match o {
        None => Some(None),
        Some(JVal::Null) => Some(None),
        Some(j) => match spec_decode_match_stats(j) {
            Some(m) => Some(Some(m)),
            None => None,
        },
    }
}

/// An optional state field.
pub open spec fn spec_opt_state(o: Option<JVal>) -> Option<Option<StateV>> {
    match o {
        None => Some(None),
        Some(JVal::Null) => Some(None),
        Some(j) => match spec_decode_state(j) {
            Some(s) => Some(Some(s)),
            None => None,
        },
    }
}

/// The weapons field: absent means an empty inventory.
pub open spec fn spec_field_weapons(o: Option<JVal>) -> Option<Seq<(Seq<char>, WeaponV)>> {
    match o {
        None => Some(Seq::empty()),
        Some(JVal::Obj(g)) => spec_weapon_map(g),
        _ => None,
    }
}

/// What decoding a player section yields: `None` on any unknown field, any
/// missing required field, or any mismatched value.
pub open spec fn spec_decode_player(j: JVal) -> Option<PlayerV> {
    match j {
        JVal::Obj(fields) => if spec_player_keys_ok(fields) {
            match (
                spec_field_string(obj_get(fields, "steamid"@)),
                spec_field_string(obj_get(fields, "name"@)),
                spec_opt_u64(obj_get(fields, "observer_slot"@)),
                spec_field_activity(obj_get(fields, "activity"@)),
                spec_opt_match_stats(obj_get(fields, "match_stats"@)),
                spec_opt_state(obj_get(fields, "state"@)),
                spec_opt_team(obj_get(fields, "team"@)),
                spec_field_weapons(obj_get(fields, "weapons"@)),
                spec_opt_string(obj_get(fields, "clan"@)),
            ) {
                (
                    Some(steam_id),
                    Some(name),
                    Some(observer_slot),
                    Some(activity),
                    Some(match_stats),
                    Some(state),
                    Some(team),
                    Some(weapons),
                    Some(clan),
                ) => Some(
                    PlayerV {
                        steam_id,
                        name,
                        observer_slot,
                        activity,
                        match_stats,
                        state,
                        team,
                        weapons,
                        clan,
                    },
                ),
                _ => None,
            }
        } else {
            None
        },
        _ => None,
    }
}

/// Whether every field name of a player section is admitted.
fn player_keys_ok(fields: &Vec<(String, JsonValue)>) -> (r: bool)
    ensures
        r == spec_player_keys_ok(jfields_of(fields@)),
{
    proof {
        lemma_jfields_of_index(fields@);
    }
    let n = fields.len();
    let mut i: usize = 0;
    while i < n
        invariant
            0 <= i <= n,
            n == fields@.len(),
            jfields_of(fields@).len() == n,
            forall|j: int| 0 <= j < n ==> jfields_of(fields@)[j] == (
                fields@[j].0@,
                jval_of(&fields@[j].1),
            ),
            forall|j: int| 0 <= j < i ==> spec_player_key(#[trigger] jfields_of(fields@)[j].0),
        decreases n - i,
    {
        let k = fields[i].0.as_str();
        if !(str_eq(k, "steamid") || str_eq(k, "name") || str_eq(k, "observer_slot") || str_eq(
            k,
            "activity",
        ) || str_eq(k, "match_stats") || str_eq(k, "state") || str_eq(k, "team") || str_eq(
            k,
            "weapons",
        ) || str_eq(k, "clan")) {
            proof {
                assert(!spec_player_key(jfields_of(fields@)[i as int].0));
            }
            return false;
        }
        i = i + 1;
    }
    true
}

/// Reads a required activity field.
fn field_activity(o: Option<&JsonValue>) -> (r: Option<Activity>)
    ensures
        r == spec_field_activity(oview(o)),
{
    match o {
        Some(JsonValue::Str(s)) => activity_of(s.as_str()),
        _ => None,
    }
}

/// Reads an optional match-stats field.
fn opt_match_stats(o: Option<&JsonValue>) -> (r: Option<Option<MatchStats>>)
    ensures
        r == spec_opt_match_stats(oview(o)),
{
    match o {
        None => Some(None),
        Some(JsonValue::Null) => Some(None),
        Some(v) => match decode_match_stats(v) {
            Some(m) => Some(Some(m)),
            None => None,
        },
    }
}

/// Reads an optional state field.
fn opt_state(o: Option<&JsonValue>) -> (r: Option<Option<State>>)
    ensures
        r == spec_opt_state(oview(o)),
{
    match o {
        None => Some(None),
        Some(JsonValue::Null) => Some(None),
        Some(v) => match decode_state(v) {
            Some(s) => Some(Some(s)),
            None => None,
        },
    }
}

/// Decodes a player section, strictly.
pub fn decode_player(v: &JsonValue) -> (r: Option<Player>)
    ensures
        match r {
            Some(x) => spec_decode_player(v@) == Some(x@),
            None => spec_decode_player(v@) is None,
        },
{
    let fields = match v {
        JsonValue::Obj(fields) => fields,
        _ => {
            return None;
        },
    };
    if !player_keys_ok(fields) {
        return None;
    }
    let steam_id = match field_string(obj_lookup(fields, "steamid")) {
        Some(x) => x,
        None => {
            return None;
        },
    };
    let name = match field_string(obj_lookup(fields, "name")) {
        Some(x) => x,
        None => {
            return None;
        },
    };
    let observer_slot = match opt_u64(obj_lookup(fields, "observer_slot")) {
        Some(x) => x,
        None => {
            return None;
        },
    };
    let activity = match field_activity(obj_lookup(fields, "activity")) {
        Some(x) => x,
        None => {
            return None;
        },
    };
    let match_stats = match opt_match_stats(obj_lookup(fields, "match_stats")) {
        Some(x) => x,
        None => {
            return None;
        },
    };
    let state = match opt_state(obj_lookup(fields, "state")) {
        Some(x) => x,
        None => {
            return None;
        },
    };
    let team = match opt_team(obj_lookup(fields, "team")) {
        Some(x) => x,
        None => {
            return None;
        },
    };
    let weapons = match obj_lookup(fields, "weapons") {
        None => {
            let empty: Vec<(String, Weapon)> = Vec::new();
            proof {
                assert(weapon_pairs_view(empty@) =~= Seq::<(Seq<char>, WeaponV)>::empty());
            }
            empty
        },
        Some(JsonValue::Obj(g)) => match decode_weapon_map(g) {
            Some(m) => m,
            None => {
                return None;
            },
        },
        Some(_) => {
            return None;
        },
    };
    let clan = match opt_string(obj_lookup(fields, "clan")) {
        Some(x) => x,
        None => {
            return None;
        },
    };
    Some(
        Player {
            steam_id,
            name,
            observer_slot,
            activity,
            match_stats,
            state,
            team,
            weapons,
            clan,
        },
    )
}

/// A player section with any field outside its schema is rejected.
pub proof fn lemma_player_unknown_field_rejected(fields: Seq<(Seq<char>, JVal)>, i: int)
    requires
        0 <= i < fields.len(),
        !spec_player_key(fields[i].0),
    ensures
        spec_decode_player(JVal::Obj(fields)) is None,
{
    assert(!spec_player_keys_ok(fields));
}

/// What encoding a player section yields.
pub open spec fn spec_encode_player(p: PlayerV) -> JVal {
    JVal::Obj(
        seq![
            ("steamid"@, JVal::Str(p.steam_id)),
            ("name"@, JVal::Str(p.name)),
            (
                "observer_slot"@,
                match p.observer_slot {
                    Some(n) => JVal::UInt(n),
                    None => JVal::Null,
                },
            ),
            ("activity"@, JVal::Str(spec_activity_text(p.activity))),
            (
                "match_stats"@,
                match p.match_stats {
                    Some(m) => spec_encode_match_stats(m),
                    None => JVal::Null,
                },
            ),
            (
                "state"@,
                match p.state {
                    Some(s) => spec_encode_state(s),
                    None => JVal::Null,
                },
            ),
            (
                "team"@,
                match p.team {
                    Some(t) => JVal::Str(spec_team_text(t)),
                    None => JVal::Null,
                },
            ),
            ("weapons"@, JVal::Obj(spec_encode_weapon_pairs(p.weapons))),
            (
                "clan"@,
                match p.clan {
                    Some(s) => JVal::Str(s),
                    None => JVal::Null,
                },
            ),
        ],
    )
}

/// Encodes a player section.
pub fn encode_player(p: &Player) -> (out: JsonValue)
    ensures
        out@ == spec_encode_player(p@),
{
    let mut fields: Vec<(String, JsonValue)> = Vec::new();
    fields.push((String::from_str("steamid"), JsonValue::Str(p.steam_id.clone())));
    fields.push((String::from_str("name"), JsonValue::Str(p.name.clone())));
    let observer_slot = match p.observer_slot {
        Some(n) => JsonValue::UInt(n),
        None => JsonValue::Null,
    };
    fields.push((String::from_str("observer_slot"), observer_slot));
    fields.push((String::from_str("activity"), JsonValue::Str(activity_text(p.activity))));
    let match_stats = match &p.match_stats {
        Some(m) => encode_match_stats(m),
        None => JsonValue::Null,
    };
    fields.push((String::from_str("match_stats"), match_stats));
    let state = match &p.state {
        Some(s) => encode_state(s),
        None => JsonValue::Null,
    };
    fields.push((String::from_str("state"), state));
    let team = match p.team {
        Some(t) => JsonValue::Str(team_text(t)),
        None => JsonValue::Null,
    };
    fields.push((String::from_str("team"), team));
    fields.push((String::from_str("weapons"), JsonValue::Obj(encode_weapon_map(&p.weapons))));
    let clan = match &p.clan {
        Some(s) => JsonValue::Str(s.clone()),
        None => JsonValue::Null,
    };
    fields.push((String::from_str("clan"), clan));
    let out = JsonValue::Obj(fields);
    proof {
        lemma_jfields_of_index(fields@);
        assert(jfields_of(fields@) =~= spec_encode_player(p@)->Obj_0);
    }
    out
}

/// Encoding then decoding a player section gives the section back.
pub proof fn lemma_player_codec(p: PlayerV)
    ensures
        spec_decode_player(spec_encode_player(p)) == Some(p),
{
    reveal_strlit("steamid");
    reveal_strlit("name");
    reveal_strlit("observer_slot");
    reveal_strlit("activity");
    reveal_strlit("match_stats");
    reveal_strlit("state");
    reveal_strlit("team");
    reveal_strlit("weapons");
    reveal_strlit("clan");
    assert("steamid"@.len() == 7);
    assert("name"@.len() == 4);
    assert("observer_slot"@.len() == 13);
    assert("activity"@.len() == 8);
    assert("match_stats"@.len() == 11);
    assert("state"@.len() == 5);
    assert("team"@.len() == 4);
    assert("weapons"@.len() == 7);
    assert("clan"@.len() == 4);
    assert("weapons"@[0] != "steamid"@[0]);
    assert("team"@[0] != "name"@[0]);
    assert("clan"@[0] != "name"@[0]);
    assert("clan"@[0] != "team"@[0]);
    let fields = spec_encode_player(p)->Obj_0;
    assert(spec_player_keys_ok(fields));
    lemma_obj_get_at(fields, "steamid"@, 0);
    lemma_obj_get_at(fields, "name"@, 1);
    lemma_obj_get_at(fields, "observer_slot"@, 2);
    lemma_obj_get_at(fields, "activity"@, 3);
    lemma_obj_get_at(fields, "match_stats"@, 4);
    lemma_obj_get_at(fields, "state"@, 5);
    lemma_obj_get_at(fields, "team"@, 6);
    lemma_obj_get_at(fields, "weapons"@, 7);
    lemma_obj_get_at(fields, "clan"@, 8);
    lemma_activity_round_trip(p.activity);
    if let Some(t) = p.team {
        crate::update::lemma_team_text_round_trip(t);
    }
    if let Some(m) = p.match_stats {
        lemma_match_stats_codec(m);
    }
    if let Some(s) = p.state {
        lemma_state_codec(s);
    }
    lemma_weapon_map_codec(p.weapons);
}

} // verus!
