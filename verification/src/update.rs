//! All information that one snapshot push can carry.

use vstd::prelude::*;
use crate::json::{
    JVal, JsonValue, jval_of, jfields_of, obj_get, obj_lookup, str_eq, lemma_jfields_of_index,
    spec_field_u64, field_u64, spec_field_string, field_string, spec_str_map, str_pairs_view,
    spec_encode_str_pairs,
};

pub mod map;
pub mod player;
pub mod round;

verus! {

broadcast use vstd::string::group_string_axioms;

/// A team.
#[derive(Clone, Copy, Debug, PartialEq, Eq, Structural)]
pub enum Team {
    /// counter-terrorists
    CT,
    /// terrorists
    T,
}

/// The wire spelling of a team.
pub open spec fn spec_team_text(t: Team) -> Seq<char> {
    match t {
        Team::CT => "CT"@,
        Team::T => "T"@,
    }
}

/// The team a wire spelling denotes, if any.
pub open spec fn spec_team_of(s: Seq<char>) -> Option<Team> {
    if s == "CT"@ {
        Some(Team::CT)
    } else if s == "T"@ {
        Some(Team::T)
    } else {
        None
    }
}

/// Renders a team in its wire spelling.
pub fn team_text(t: Team) -> (r: String)
    ensures
        r@ == spec_team_text(t),
{
    match t {
        Team::CT => String::from_str("CT"),
        Team::T => String::from_str("T"),
    }
}

/// Reads a team from its wire spelling.
pub fn team_of(s: &str) -> (r: Option<Team>)
    ensures
        r == spec_team_of(s@),
{
    if crate::json::str_eq(s, "CT") {
        Some(Team::CT)
    } else if crate::json::str_eq(s, "T") {
        Some(Team::T)
    } else {
        None
    }
}

/// A wire spelling always reads back as the team it renders.
pub proof fn lemma_team_text_round_trip(t: Team)
    ensures
        spec_team_of(spec_team_text(t)) == Some(t),
{
    reveal_strlit("CT");
    reveal_strlit("T");
    assert("CT"@.len() == 2);
    assert("T"@.len() == 1);
}

/// Information about the integration info provider (the game itself).
#[derive(Clone, Debug, PartialEq)]
pub struct Provider {
    /// game name
    pub name: String,
    /// steam app ID; the wire spells the field `appid`
    pub app_id: u64,
    /// version number
    pub version: u64,
    /// player's steam ID, an opaque string; the wire spells the field
    /// `steamid`
    pub steam_id: String,
    /// update timestamp, seconds since the epoch
    pub timestamp: u64,
}

/// The mathematical value of a [`Provider`].
pub ghost struct ProviderV {
    /// game name
    pub name: Seq<char>,
    /// steam app ID
    pub app_id: u64,
    /// version number
    pub version: u64,
    /// player's steam ID
    pub steam_id: Seq<char>,
    /// update timestamp
    pub timestamp: u64,
}

impl View for Provider {
    type V = ProviderV;

    open spec fn view(&self) -> ProviderV {
        ProviderV {
            name: self.name@,
            app_id: self.app_id,
            version: self.version,
            steam_id: self.steam_id@,
            timestamp: self.timestamp,
        }
    }
}

/// One update received from the game.
///
/// The wire format also carries two diffing-metadata fields, `added` and
/// `previously`; they are recognised so that they do not trip the strict
/// unknown-field rejection, but their values are discarded.
#[derive(Clone, Debug, PartialEq)]
pub struct Update {
    /// map info
    pub map: Option<map::MapInfo>,
    /// player info
    pub player: Option<player::Player>,
    /// provider (the game) info
    pub provider: Option<Provider>,
    /// authentication info, matching the initial config
    pub auth: Vec<(String, String)>,
    /// round info
    pub round: Option<round::Round>,
}

/// The mathematical value of an [`Update`].
pub ghost struct UpdateV {
    /// map info
    pub map: Option<map::MapInfoV>,
    /// player info
    pub player: Option<player::PlayerV>,
    /// provider info
    pub provider: Option<ProviderV>,
    /// authentication info
    pub auth: Seq<(Seq<char>, Seq<char>)>,
    /// round info
    pub round: Option<round::RoundV>,
}

impl View for Update {
    type V = UpdateV;

    open spec fn view(&self) -> UpdateV {
        UpdateV {
            map: match self.map {
                Some(m) => Some(m@),
                None => None,
            },
            player: match self.player {
                Some(p) => Some(p@),
                None => None,
            },
            provider: match self.provider {
                Some(p) => Some(p@),
                None => None,
            },
            auth: crate::json::str_pairs_view(self.auth@),
            round: match self.round {
                Some(r) => Some(r@),
                None => None,
            },
        }
    }
}

/// The field names the provider section admits; `appid` and `steamid` are
/// the wire spellings.
pub open spec fn spec_provider_key(k: Seq<char>) -> bool {
    k == "name"@ || k == "appid"@ || k == "version"@ || k == "steamid"@ || k == "timestamp"@
}

/// Whether every field name of a provider section is admitted.
pub open spec fn spec_provider_keys_ok(fields: Seq<(Seq<char>, JVal)>) -> bool {
    forall|i: int| 0 <= i < fields.len() ==> spec_provider_key(#[trigger] fields[i].0)
}

/// What decoding a provider section yields.
pub open spec fn spec_decode_provider(j: JVal) -> Option<ProviderV> {
    match j {
        JVal::Obj(fields) => if spec_provider_keys_ok(fields) {
            match (
                spec_field_string(obj_get(fields, "name"@)),
                spec_field_u64(obj_get(fields, "appid"@)),
                spec_field_u64(obj_get(fields, "version"@)),
                spec_field_string(obj_get(fields, "steamid"@)),
                spec_field_u64(obj_get(fields, "timestamp"@)),
            ) {
                (Some(name), Some(app_id), Some(version), Some(steam_id), Some(timestamp)) => Some(
                    ProviderV { name, app_id, version, steam_id, timestamp },
                ),
                _ => None,
            }
        } else {
            None
        },
        _ => None,
    }
}

/// Whether every field name of a provider section is admitted.
fn provider_keys_ok(fields: &Vec<(String, JsonValue)>) -> (r: bool)
    ensures
        r == spec_provider_keys_ok(jfields_of(fields@)),
{
    proof {
        lemma_jfields_of_index(fields@);
    }
    let n = fields.len();
    let mut i: usize = 0;
    while i < n
        invariant
            0 <= i <= n,
            n == fields@.len(),
            jfields_of(fields@).len() == n,
            forall|j: int| 0 <= j < n ==> jfields_of(fields@)[j] == (
                fields@[j].0@,
                jval_of(&fields@[j].1),
            ),
            forall|j: int| 0 <= j < i ==> spec_provider_key(#[trigger] jfields_of(fields@)[j].0),
        decreases n - i,
    {
        let k = fields[i].0.as_str();
        if !(str_eq(k, "name") || str_eq(k, "appid") || str_eq(k, "version") || str_eq(k, "steamid")
            || str_eq(k, "timestamp")) {
            proof {
                assert(!spec_provider_key(jfields_of(fields@)[i as int].0));
            }
            return false;
        }
        i = i + 1;
    }
    true
}

/// Decodes a provider section, strictly.
pub fn decode_provider(v: &JsonValue) -> (r: Option<Provider>)
    ensures
        match r {
            Some(x) => spec_decode_provider(v@) == Some(x@),
            None => spec_decode_provider(v@) is None,
        },
{
    let fields = match v {
        JsonValue::Obj(fields) => fields,
        _ => {
            return None;
        },
    };
    if !provider_keys_ok(fields) {
        return None;
    }
    let name = match field_string(obj_lookup(fields, "name")) {
        Some(x) => x,
        None => {
            return None;
        },
    };
    let app_id = match field_u64(obj_lookup(fields, "appid")) {
        Some(x) => x,
        None => {
            return None;
        },
    };
    let version = match field_u64(obj_lookup(fields, "version")) {
        Some(x) => x,
        None => {
            return None;
        },
    };
    let steam_id = match field_string(obj_lookup(fields, "steamid")) {
        Some(x) => x,
        None => {
            return None;
        },
    };
    let timestamp = match field_u64(obj_lookup(fields, "timestamp")) {
        Some(x) => x,
        None => {
            return None;
        },
    };
    Some(Provider { name, app_id, version, steam_id, timestamp })
}

/// A provider section with any field outside its schema is rejected.
pub proof fn lemma_provider_unknown_field_rejected(fields: Seq<(Seq<char>, JVal)>, i: int)
    requires
        0 <= i < fields.len(),
        !spec_provider_key(fields[i].0),
    ensures
        spec_decode_provider(JVal::Obj(fields)) is None,
{
    assert(!spec_provider_keys_ok(fields));
}

/// What encoding a provider section yields.
pub open spec fn spec_encode_provider(p: ProviderV) -> JVal {
    JVal::Obj(
        seq![
            ("name"@, JVal::Str(p.name)),
            ("appid"@, JVal::UInt(p.app_id)),
            ("version"@, JVal::UInt(p.version)),
            ("steamid"@, JVal::Str(p.steam_id)),
            ("timestamp"@, JVal::UInt(p.timestamp)),
        ],
    )
}

/// Encodes a provider section.
pub fn encode_provider(p: &Provider) -> (out: JsonValue)
    ensures
        out@ == spec_encode_provider(p@),
{
    let mut fields: Vec<(String, JsonValue)> = Vec::new();
    fields.push((String::from_str("name"), JsonValue::Str(p.name.clone())));
    fields.push((String::from_str("appid"), JsonValue::UInt(p.app_id)));
    fields.push((String::from_str("version"), JsonValue::UInt(p.version)));
    fields.push((String::from_str("steamid"), JsonValue::Str(p.steam_id.clone())));
    fields.push((String::from_str("timestamp"), JsonValue::UInt(p.timestamp)));
    let out = JsonValue::Obj(fields);
    proof {
        lemma_jfields_of_index(fields@);
        assert(jfields_of(fields@) =~= spec_encode_provider(p@)->Obj_0);
    }
    out
}

/// Encoding then decoding a provider section gives the section back.
pub proof fn lemma_provider_codec(p: ProviderV)
    ensures
        spec_decode_provider(spec_encode_provider(p)) == Some(p),
{
    reveal_strlit("name");
    reveal_strlit("appid");
    reveal_strlit("version");
    reveal_strlit("steamid");
    reveal_strlit("timestamp");
    assert("name"@.len() == 4);
    assert("appid"@.len() == 5);
    assert("version"@.len() == 7);
    assert("steamid"@.len() == 7);
    assert("timestamp"@.len() == 9);
    assert("steamid"@[0] != "version"@[0]);
    let fields = spec_encode_provider(p)->Obj_0;
    assert(spec_provider_keys_ok(fields));
    crate::json::lemma_obj_get_at(fields, "name"@, 0);
    crate::json::lemma_obj_get_at(fields, "appid"@, 1);
    crate::json::lemma_obj_get_at(fields, "version"@, 2);
    crate::json::lemma_obj_get_at(fields, "steamid"@, 3);
    crate::json::lemma_obj_get_at(fields, "timestamp"@, 4);
}

/// The field names an update admits: the five decoded sections and the two
/// recognised-but-discarded diffing-metadata fields.
pub open spec fn spec_update_key(k: Seq<char>) -> bool {
    k == "map"@ || k == "player"@ || k == "provider"@ || k == "auth"@ || k == "round"@ || k
        == "added"@ || k == "previously"@
}

/// Whether every field name of an update is admitted.
pub open spec fn spec_update_keys_ok(fields: Seq<(Seq<char>, JVal)>) -> bool {
    forall|i: int| 0 <= i < fields.len() ==> spec_update_key(#[trigger] fields[i].0)
}

/// An optional map-section field.
pub open spec fn spec_opt_map_section(o: Option<JVal>) -> Option<Option<map::MapInfoV>> {
    match o {
        None => Some(None),
        Some(JVal::Null) => Some(None),
        Some(j) => match map::spec_decode_map(j) {
            Some(m) => Some(Some(m)),
            None => None,
        },
    }
}

/// An optional player-section field.
pub open spec fn spec_opt_player_section(o: Option<JVal>) -> Option<Option<player::PlayerV>> {
    match o {
        None => Some(None),
        Some(JVal::Null) => Some(None),
        Some(j) => match player::spec_decode_player(j) {
            Some(p) => Some(Some(p)),
            None => None,
        },
    }
}

/// An optional provider-section field.
pub open spec fn spec_opt_provider_section(o: Option<JVal>) -> Option<Option<ProviderV>> {
    match o {
        None => Some(None),
        Some(JVal::Null) => Some(None),
        Some(j) => match spec_decode_provider(j) {
            Some(p) => Some(Some(p)),
            None => None,
        },
    }
}

/// An optional round-section field.
pub open spec fn spec_opt_round_section(o: Option<JVal>) -> Option<Option<round::RoundV>> {
    match o {
        None => Some(None),
        Some(JVal::Null) => Some(None),
        Some(j) => match round::spec_decode_round(j) {
            Some(r) => Some(Some(r)),
            None => None,
        },
    }
}

/// The required auth field: an object of string pairs.
pub open spec fn spec_field_auth(o: Option<JVal>) -> Option<Seq<(Seq<char>, Seq<char>)>> {
    match o {
        Some(JVal::Obj(g)) => spec_str_map(g),
        _ => None,
    }
}

/// What decoding one update yields: `None` on any field outside the schema,
/// a missing or mismatched auth block, or any mismatched section.  The
/// `added` and `previously` fields are accepted with any value and carry
/// nothing into the result.
pub open spec fn spec_decode_update(j: JVal) -> Option<UpdateV> {
    match j {
        JVal::Obj(fields) => if spec_update_keys_ok(fields) {
            match (
                spec_opt_map_section(obj_get(fields, "map"@)),
                spec_opt_player_section(obj_get(fields, "player"@)),
                spec_opt_provider_section(obj_get(fields, "provider"@)),
                spec_field_auth(obj_get(fields, "auth"@)),
                spec_opt_round_section(obj_get(fields, "round"@)),
            ) {
                (Some(map), Some(player), Some(provider), Some(auth), Some(round)) => Some(
                    UpdateV { map, player, provider, auth, round },
                ),
                _ => None,
            }
        } else {
            None
        },
        _ => None,
    }
}

/// Whether every field name of an update is admitted.
fn update_keys_ok(fields: &Vec<(String, JsonValue)>) -> (r: bool)
    ensures
        r == spec_update_keys_ok(jfields_of(fields@)),
{
    proof {
        lemma_jfields_of_index(fields@);
    }
    let n = fields.len();
    let mut i: usize = 0;
    while i < n
        invariant
            0 <= i <= n,
            n == fields@.len(),
            jfields_of(fields@).len() == n,
            forall|j: int| 0 <= j < n ==> jfields_of(fields@)[j] == (
                fields@[j].0@,
                jval_of(&fields@[j].1),
            ),
            forall|j: int| 0 <= j < i ==> spec_update_key(#[trigger] jfields_of(fields@)[j].0),
        decreases n - i,
    {
        let k = fields[i].0.as_str();
        if !(str_eq(k, "map") || str_eq(k, "player") || str_eq(k, "provider") || str_eq(k, "auth")
            || str_eq(k, "round") || str_eq(k, "added") || str_eq(k, "previously")) {
            proof {
                assert(!spec_update_key(jfields_of(fields@)[i as int].0));
            }
            return false;
        }
        i = i + 1;
    }
    true
}

/// Decodes one update, strictly: any field not in the schema, any value of
/// the wrong shape, and any unknown enumeration spelling is rejected.
pub fn decode_update(v: &JsonValue) -> (r: Option<Update>)
    ensures
        match r {
            Some(x) => spec_decode_update(v@) == Some(x@),
            None => spec_decode_update(v@) is None,
        },
{
    let fields = match v {
        JsonValue::Obj(fields) => fields,
        _ => {
            return None;
        },
    };
    if !update_keys_ok(fields) {
        return None;
    }
    let map = match obj_lookup(fields, "map") {
        None => None,
        Some(JsonValue::Null) => None,
        Some(mv) => match map::decode_map(mv) {
            Some(m) => Some(m),
            None => {
                return None;
            },
        },
    };
    let player = match obj_lookup(fields, "player") {
        None => None,
        Some(JsonValue::Null) => None,
        Some(pv) => match player::decode_player(pv) {
            Some(p) => Some(p),
            None => {
                return None;
            },
        },
    };
    let provider = match obj_lookup(fields, "provider") {
        None => None,
        Some(JsonValue::Null) => None,
        Some(pv) => match decode_provider(pv) {
            Some(p) => Some(p),
            None => {
                return None;
            },
        },
    };
    let auth = match obj_lookup(fields, "auth") {
        Some(JsonValue::Obj(g)) => match crate::json::decode_str_map(g) {
            Some(m) => m,
            None => {
                return None;
            },
        },
        _ => {
            return None;
        },
    };
    let round = match obj_lookup(fields, "round") {
        None => None,
        Some(JsonValue::Null) => None,
        Some(rv) => match round::decode_round(rv) {
            Some(r) => Some(r),
            None => {
                return None;
            },
        },
    };
    Some(Update { map, player, provider, auth, round })
}

/// What encoding one update yields: the five decoded sections, absent ones
/// as `null`; the discarded diffing-metadata fields are not written.
pub open spec fn spec_encode_update(u: UpdateV) -> JVal {
    JVal::Obj(
        seq![
            (
                "map"@,
                match u.map {
                    Some(m) => map::spec_encode_map(m),
                    None => JVal::Null,
                },
            ),
            (
                "player"@,
                match u.player {
                    Some(p) => player::spec_encode_player(p),
                    None => JVal::Null,
                },
            ),
            (
                "provider"@,
                match u.provider {
                    Some(p) => spec_encode_provider(p),
                    None => JVal::Null,
                },
            ),
            ("auth"@, JVal::Obj(spec_encode_str_pairs(u.auth))),
            (
                "round"@,
                match u.round {
                    Some(r) => round::spec_encode_round(r),
                    None => JVal::Null,
                },
            ),
        ],
    )
}

/// Encodes one update.
pub fn encode_update(u: &Update) -> (out: JsonValue)
    ensures
        out@ == spec_encode_update(u@),
{
    let mut fields: Vec<(String, JsonValue)> = Vec::new();
    let map = match &u.map {
        Some(m) => map::encode_map(m),
        None => JsonValue::Null,
    };
    fields.push((String::from_str("map"), map));
    let player = match &u.player {
        Some(p) => player::encode_player(p),
        None => JsonValue::Null,
    };
    fields.push((String::from_str("player"), player));
    let provider = match &u.provider {
        Some(p) => encode_provider(p),
        None => JsonValue::Null,
    };
    fields.push((String::from_str("provider"), provider));
    fields.push((String::from_str("auth"), JsonValue::Obj(crate::json::encode_str_map(&u.auth))));
    let round = match &u.round {
        Some(r) => round::encode_round(r),
        None => JsonValue::Null,
    };
    fields.push((String::from_str("round"), round));
    let out = JsonValue::Obj(fields);
    proof {
        lemma_jfields_of_index(fields@);
        assert(jfields_of(fields@) =~= spec_encode_update(u@)->Obj_0);
    }
    out
}

/// Renders one update as JSON text, for the scripting/echo path.
pub fn update_to_json_text(u: &Update) -> (r: String)
    ensures
        r@ == crate::json::json_text(spec_encode_update(u@)),
{
    let v = encode_update(u);
    crate::json::json_to_string(&v)
}

/// Round-trip: encoding any update and decoding the result gives the same
/// update back; only the discarded diffing-metadata fields are lost, and
/// they carry no decoded value to lose.
pub proof fn lemma_update_codec(u: UpdateV)
    ensures
        spec_decode_update(spec_encode_update(u)) == Some(u),
{
    reveal_strlit("map");
    reveal_strlit("player");
    reveal_strlit("provider");
    reveal_strlit("auth");
    reveal_strlit("round");
    reveal_strlit("added");
    reveal_strlit("previously");
    assert("map"@.len() == 3);
    assert("player"@.len() == 6);
    assert("provider"@.len() == 8);
    assert("auth"@.len() == 4);
    assert("round"@.len() == 5);
    let fields = spec_encode_update(u)->Obj_0;
    assert(spec_update_keys_ok(fields));
    crate::json::lemma_obj_get_at(fields, "map"@, 0);
    crate::json::lemma_obj_get_at(fields, "player"@, 1);
    crate::json::lemma_obj_get_at(fields, "provider"@, 2);
    crate::json::lemma_obj_get_at(fields, "auth"@, 3);
    crate::json::lemma_obj_get_at(fields, "round"@, 4);
    if let Some(m) = u.map {
        map::lemma_map_codec(m);
    }
    if let Some(p) = u.player {
        player::lemma_player_codec(p);
    }
    if let Some(p) = u.provider {
        lemma_provider_codec(p);
    }
    crate::json::lemma_str_map_codec(u.auth);
    if let Some(r) = u.round {
        round::lemma_round_codec(r);
    }
}

/// Rejection: decoding any JSON object that contains one field not in the
/// schema fails, whatever the other fields hold.
pub proof fn lemma_unknown_field_rejected(fields: Seq<(Seq<char>, JVal)>, i: int)
    requires
        0 <= i < fields.len(),
        !spec_update_key(fields[i].0),
    ensures
        spec_decode_update(JVal::Obj(fields)) is None,
{
    assert(!spec_update_keys_ok(fields));
}

} // verus!
