//! Decode and encode behaviour of the update schema.

use csgo_gsi::update::map::{MapInfo, Mode, Phase as MapPhase, Team as TeamInfo};
use csgo_gsi::update::player::{
    Activity, MatchStats, Player, State, Weapon, WeaponState, WeaponType,
};
use csgo_gsi::update::round::{BombState, Phase as RoundPhase, Round};
use csgo_gsi::update::{Provider, Team, Update, decode_update, encode_update, update_to_json_text};
use csgo_gsi::{IngestError, JsonValue, process_update_body};

fn sample_team(name: &str) -> TeamInfo {
    TeamInfo {
        score: 7,
        consecutive_round_losses: 2,
        timeouts_remaining: 1,
        matches_won_this_series: 0,
        name: Some(String::from(name)),
        flag: None,
    }
}

fn sample_map(mode: Mode) -> MapInfo {
    MapInfo {
        current_spectators: 3,
        mode,
        name: String::from("de_dust2"),
        num_matches_to_win_series: 2,
        phase: MapPhase::Live,
        round: 11,
        round_wins: vec![(1, String::from("ct_win_elimination")), (2, String::from("t_win_bomb"))],
        souvenirs_total: 0,
        team_ct: sample_team("alpha"),
        team_t: sample_team("bravo"),
    }
}

fn sample_player() -> Player {
    Player {
        steam_id: String::from("76561198000000000"),
        name: String::from("observer target"),
        observer_slot: Some(4),
        activity: Activity::Playing,
        match_stats: Some(MatchStats { kills: -1, assists: 3, deaths: 5, mvps: 0, score: 9 }),
        state: Some(State {
            health: 87,
            armor: 100,
            helmet: true,
            flashed: 0,
            smoked: 0,
            burning: 0,
            money: 3250,
            round_kills: 1,
            round_killhs: 1,
            equip_value: 4700,
            round_totaldmg: None,
            defuse_kit: Some(false),
        }),
        team: Some(Team::CT),
        weapons: vec![(
            String::from("weapon_0"),
            Weapon {
                name: String::from("weapon_knife"),
                paintkit: String::from("default"),
                weapon_type: Some(WeaponType::Knife),
                state: WeaponState::Holstered,
                ammo_clip: None,
                ammo_clip_max: None,
                ammo_reserve: None,
            },
        )],
        clan: None,
    }
}

fn sample_update() -> Update {
    Update {
        map: Some(sample_map(Mode::Competitive)),
        player: Some(sample_player()),
        provider: Some(Provider {
            name: String::from("Counter-Strike: Global Offensive"),
            app_id: 730,
            version: 13694,
            steam_id: String::from("76561198000000000"),
            timestamp: 1603900000,
        }),
        auth: vec![(String::from("token"), String::from("CCWJu64ZV3JHDT8h"))],
        round: Some(Round {
            phase: RoundPhase::Live,
            bomb: Some(BombState::Planted),
            win_team: None,
        }),
    }
}

#[test]
fn encode_then_decode_full_update() {
    let u = sample_update();
    let encoded = encode_update(&u);
    let decoded = decode_update(&encoded).expect("round trip must decode");
    assert_eq!(decoded, u);
}

#[test]
fn encode_then_decode_minimal_update() {
    let u = Update { map: None, player: None, provider: None, auth: vec![], round: None };
    let encoded = encode_update(&u);
    let decoded = decode_update(&encoded).expect("round trip must decode");
    assert_eq!(decoded, u);
}

#[test]
fn json_text_round_trips_through_real_parser() {
    let u = sample_update();
    let text = update_to_json_text(&u);
    let reparsed = process_update_body(text.as_bytes()).expect("rendered text must decode");
    assert_eq!(reparsed, u);
}

#[test]
fn unknown_field_is_rejected() {
    let u = sample_update();
    let mut fields = match encode_update(&u) {
        JsonValue::Obj(fields) => fields,
        _ => panic!("update encodes as an object"),
    };
    fields.push((String::from("surprise"), JsonValue::Bool(true)));
    assert!(decode_update(&JsonValue::Obj(fields)).is_none());
}

#[test]
fn unknown_nested_field_is_rejected() {
    let body = br#"{"auth": {}, "round": {"phase": "live", "extra": 1}}"#;
    assert_eq!(process_update_body(body), Err(IngestError::SchemaFailure));
}

#[test]
fn diff_metadata_fields_are_accepted_and_discarded() {
    let body = br#"{"auth": {"k": "v"}, "added": {"player": true}, "previously": [1, 2]}"#;
    let u = process_update_body(body).expect("metadata fields are recognised");
    assert_eq!(u.auth, vec![(String::from("k"), String::from("v"))]);
    assert!(u.map.is_none() && u.player.is_none() && u.provider.is_none() && u.round.is_none());
}

#[test]
fn mode_aliases_decode_to_their_modes() {
    for (wire, mode) in [
        ("gungametrbomb", Mode::Demolition),
        ("gungameprogressive", Mode::ArmsRace),
        ("scrimcomp2v2", Mode::Wingman),
    ] {
        let mut fields = match csgo_gsi::update::map::encode_map(&sample_map(Mode::Casual)) {
            JsonValue::Obj(fields) => fields,
            _ => panic!("map encodes as an object"),
        };
        for f in fields.iter_mut() {
            if f.0 == "mode" {
                f.1 = JsonValue::Str(String::from(wire));
            }
        }
        let decoded = csgo_gsi::update::map::decode_map(&JsonValue::Obj(fields))
            .expect("alias must decode");
        assert_eq!(decoded.mode, mode);
    }
}

#[test]
fn mode_aliases_encode_to_wire_spellings() {
    let encoded = csgo_gsi::update::map::encode_map(&sample_map(Mode::Demolition));
    let fields = match encoded {
        JsonValue::Obj(fields) => fields,
        _ => panic!("map encodes as an object"),
    };
    let mode = fields.iter().find(|f| f.0 == "mode").expect("mode field present");
    match &mode.1 {
        JsonValue::Str(s) => assert_eq!(s, "gungametrbomb"),
        _ => panic!("mode encodes as a string"),
    }
}

#[test]
fn unknown_mode_spelling_is_rejected() {
    let body = br#"{"auth": {}, "map": {"current_spectators": 0, "mode": "hydra",
        "name": "de_nuke", "num_matches_to_win_series": 1, "phase": "live", "round": 0,
        "souvenirs_total": 0,
        "team_ct": {"score": 0, "consecutive_round_losses": 0, "timeouts_remaining": 1,
            "matches_won_this_series": 0},
        "team_t": {"score": 0, "consecutive_round_losses": 0, "timeouts_remaining": 1,
            "matches_won_this_series": 0}}}"#;
    assert_eq!(process_update_body(body), Err(IngestError::SchemaFailure));
}

#[test]
fn round_wins_keys_are_decimal_round_numbers() {
    let body = br#"{"auth": {}, "map": {"current_spectators": 0, "mode": "competitive",
        "name": "de_inferno", "num_matches_to_win_series": 1, "phase": "live", "round": 3,
        "round_wins": {"1": "ct_win_elimination", "2": "t_win_bomb"},
        "souvenirs_total": 0,
        "team_ct": {"score": 2, "consecutive_round_losses": 0, "timeouts_remaining": 1,
            "matches_won_this_series": 0},
        "team_t": {"score": 1, "consecutive_round_losses": 2, "timeouts_remaining": 1,
            "matches_won_this_series": 0}}}"#;
    let u = process_update_body(body).expect("round wins must decode");
    let map = u.map.expect("map section present");
    assert_eq!(
        map.round_wins,
        vec![(1, String::from("ct_win_elimination")), (2, String::from("t_win_bomb"))]
    );
}

#[test]
fn non_numeric_round_win_key_is_rejected() {
    let body = br#"{"auth": {}, "map": {"current_spectators": 0, "mode": "competitive",
        "name": "de_inferno", "num_matches_to_win_series": 1, "phase": "live", "round": 3,
        "round_wins": {"first": "ct_win_elimination"},
        "souvenirs_total": 0,
        "team_ct": {"score": 2, "consecutive_round_losses": 0, "timeouts_remaining": 1,
            "matches_won_this_series": 0},
        "team_t": {"score": 1, "consecutive_round_losses": 2, "timeouts_remaining": 1,
            "matches_won_this_series": 0}}}"#;
    assert_eq!(process_update_body(body), Err(IngestError::SchemaFailure));
}

#[test]
fn negative_kill_counts_decode() {
    let body = br#"{"auth": {}, "player": {"steamid": "765", "name": "p",
        "activity": "playing",
        "match_stats": {"kills": -2, "assists": 0, "deaths": 1, "mvps": 0, "score": 0}}}"#;
    let u = process_update_body(body).expect("negative kills must decode");
    let stats = u.player.expect("player present").match_stats.expect("stats present");
    assert_eq!(stats.kills, -2);
}

#[test]
fn wrong_type_for_integer_field_is_rejected() {
    let body = br#"{"auth": {}, "provider": {"name": "csgo", "appid": "730",
        "version": 1, "steamid": "765", "timestamp": 0}}"#;
    assert_eq!(process_update_body(body), Err(IngestError::SchemaFailure));
}

#[test]
fn fractional_number_is_rejected() {
    let body = br#"{"auth": {}, "provider": {"name": "csgo", "appid": 730.5,
        "version": 1, "steamid": "765", "timestamp": 0}}"#;
    assert_eq!(process_update_body(body), Err(IngestError::SchemaFailure));
}

#[test]
fn missing_auth_is_rejected() {
    assert_eq!(process_update_body(br#"{}"#), Err(IngestError::SchemaFailure));
}

#[test]
fn steam_id_stays_an_opaque_string() {
    let body = br#"{"auth": {}, "provider": {"name": "csgo", "appid": 730,
        "version": 1, "steamid": "76561197960287930123456", "timestamp": 5}}"#;
    let u = process_update_body(body).expect("provider must decode");
    assert_eq!(u.provider.expect("provider present").steam_id, "76561197960287930123456");
}

#[test]
fn round_win_key_at_u64_max_decodes() {
    let body = br#"{"auth": {}, "map": {"current_spectators": 0, "mode": "casual",
        "name": "de_office", "num_matches_to_win_series": 0, "phase": "warmup", "round": 0,
        "round_wins": {"18446744073709551615": "ct_win_defuse"},
        "souvenirs_total": 0,
        "team_ct": {"score": 0, "consecutive_round_losses": 0, "timeouts_remaining": 1,
            "matches_won_this_series": 0},
        "team_t": {"score": 0, "consecutive_round_losses": 0, "timeouts_remaining": 1,
            "matches_won_this_series": 0}}}"#;
    let u = process_update_body(body).expect("boundary key must decode");
    assert_eq!(
        u.map.expect("map present").round_wins,
        vec![(u64::MAX, String::from("ct_win_defuse"))]
    );
}

#[test]
fn round_win_key_beyond_u64_is_rejected() {
    let body = br#"{"auth": {}, "map": {"current_spectators": 0, "mode": "casual",
        "name": "de_office", "num_matches_to_win_series": 0, "phase": "warmup", "round": 0,
        "round_wins": {"18446744073709551616": "ct_win_defuse"},
        "souvenirs_total": 0,
        "team_ct": {"score": 0, "consecutive_round_losses": 0, "timeouts_remaining": 1,
            "matches_won_this_series": 0},
        "team_t": {"score": 0, "consecutive_round_losses": 0, "timeouts_remaining": 1,
            "matches_won_this_series": 0}}}"#;
    assert_eq!(process_update_body(body), Err(IngestError::SchemaFailure));
}
