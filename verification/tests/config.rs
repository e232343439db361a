//! Builder defaults, subscription handling, and artifact rendering.

use csgo_gsi::{ConfigFile, GSIConfigBuilder, GSIServer, Subscription};

#[test]
fn defaults_apply_when_nothing_is_set() {
    let config = GSIConfigBuilder::new("svc").build();
    assert_eq!(config.timeout, 1100);
    assert_eq!(config.buffer, 100);
    assert_eq!(config.throttle, 1000);
    assert_eq!(config.heartbeat, 60000);
    assert_eq!(config.precision_time, 2);
    assert_eq!(config.precision_position, 2);
    assert_eq!(config.precision_vector, 2);
    assert!(config.auth.is_empty());
    assert!(config.subscriptions.is_empty());
}

#[test]
fn explicit_timeout_overrides_the_default() {
    let config = GSIConfigBuilder::new("svc").timeout(2000).build();
    assert_eq!(config.timeout, 2000);
}

#[test]
fn heartbeat_defaults_independently_of_throttle() {
    let config = GSIConfigBuilder::new("svc").throttle(2500).build();
    assert_eq!(config.throttle, 2500);
    assert_eq!(config.heartbeat, 60000);
}

#[test]
fn repeated_scalar_options_overwrite() {
    let config = GSIConfigBuilder::new("svc").timeout(2000).timeout(3000).build();
    assert_eq!(config.timeout, 3000);
}

#[test]
fn auth_pairs_accumulate_and_repeated_keys_replace() {
    let config = GSIConfigBuilder::new("svc")
        .auth("token", "first")
        .auth("other", "kept")
        .auth("token", "second")
        .build();
    assert_eq!(
        config.auth,
        vec![
            (String::from("token"), String::from("second")),
            (String::from("other"), String::from("kept")),
        ]
    );
}

#[test]
fn subscriptions_union_without_duplicates() {
    let config = GSIConfigBuilder::new("svc")
        .subscribe(Subscription::MapInfo)
        .subscribe(Subscription::MapInfo)
        .subscribe_multiple(&Subscription::unrestricted())
        .build();
    assert_eq!(config.subscriptions.len(), 8);
    assert!(config.subscriptions.contains(&Subscription::MapInfo));
    assert!(config.subscriptions.contains(&Subscription::Round));
}

#[test]
fn unrestricted_and_spectator_partition_all_categories() {
    let a = Subscription::unrestricted();
    let b = Subscription::spectator_only();
    assert_eq!(a.len(), 8);
    assert_eq!(b.len(), 9);
    for s in &a {
        assert!(!b.contains(s));
    }
}

#[test]
fn map_only_subscription_sets_exactly_the_map_flag() {
    let config = GSIConfigBuilder::new("svc").subscribe(Subscription::MapInfo).build();
    let file = ConfigFile::new(&config, 3000);
    assert!(file.map);
    assert!(!file.map_round_wins);
    assert!(!file.player_id);
    assert!(!file.player_match_stats);
    assert!(!file.player_state);
    assert!(!file.player_weapons);
    assert!(!file.provider);
    assert!(!file.round);
    assert!(!file.allgrenades);
    assert!(!file.allplayers_id);
    assert!(!file.allplayers_match_stats);
    assert!(!file.allplayers_position);
    assert!(!file.allplayers_state);
    assert!(!file.allplayers_weapons);
    assert!(!file.bomb);
    assert!(!file.phase_countdowns);
    assert!(!file.player_position);
}

#[test]
fn rendered_artifact_matches_expected_text() {
    let config = GSIConfigBuilder::new("svc")
        .auth("token", "abc")
        .subscribe(Subscription::MapInfo)
        .build();
    let text = config.render(3000);
    let expected = "\"Managed by the csgo-gsi Rust library\"\n{\n\t\"uri\"\t\"http://127.0.0.1:3000\"\n\t\"timeout\"\t\"1.1\"\n\t\"buffer\"\t\"0.1\"\n\t\"throttle\"\t\"1\"\n\t\"heartbeat\"\t\"60\"\n\t\"auth\"\n\t{\n\t\t\"token\"\t\"abc\"\n\t}\n\t\"output\"\n\t{\n\t\t\"precision_time\"\t\"2\"\n\t\t\"precision_position\"\t\"2\"\n\t\t\"precision_vector\"\t\"2\"\n\t}\n\t\"data\"\n\t{\n\t\t\"map_round_wins\"\t\"0\"\n\t\t\"map\"\t\"1\"\n\t\t\"player_id\"\t\"0\"\n\t\t\"player_match_stats\"\t\"0\"\n\t\t\"player_state\"\t\"0\"\n\t\t\"player_weapons\"\t\"0\"\n\t\t\"provider\"\t\"0\"\n\t\t\"round\"\t\"0\"\n\t\t\"allgrenades\"\t\"0\"\n\t\t\"allplayers_id\"\t\"0\"\n\t\t\"allplayers_match_stats\"\t\"0\"\n\t\t\"allplayers_position\"\t\"0\"\n\t\t\"allplayers_state\"\t\"0\"\n\t\t\"allplayers_weapons\"\t\"0\"\n\t\t\"bomb\"\t\"0\"\n\t\t\"phase_countdowns\"\t\"0\"\n\t\t\"player_position\"\t\"0\"\n\t}\n}";
    assert_eq!(text, expected);
}

#[test]
fn fractional_seconds_render_with_trimmed_digits() {
    let config = GSIConfigBuilder::new("svc")
        .timeout(1234)
        .buffer(1230)
        .throttle(1050)
        .heartbeat(90500)
        .build();
    let text = config.render(1);
    assert!(text.contains("\t\"timeout\"\t\"1.234\"\n"));
    assert!(text.contains("\t\"buffer\"\t\"1.23\"\n"));
    assert!(text.contains("\t\"throttle\"\t\"1.05\"\n"));
    assert!(text.contains("\t\"heartbeat\"\t\"90.5\"\n"));
}

#[test]
fn artifact_file_name_carries_the_service_name() {
    let config = GSIConfigBuilder::new("my service").build();
    assert_eq!(config.cfg_file_name(), "gamestate_integration_my service.cfg");
}

#[test]
fn server_tracks_installation() {
    let config = GSIConfigBuilder::new("svc").build();
    let mut server = GSIServer::new(config, 31337);
    assert!(!server.installed);
    assert_eq!(server.port, 31337);
    assert_eq!(server.install_file_name(), "gamestate_integration_svc.cfg");
    assert!(server.install_file_contents().contains("\t\"uri\"\t\"http://127.0.0.1:31337\"\n"));
    server.mark_installed();
    assert!(server.installed);
}

#[test]
fn install_error_message_names_the_failure() {
    let err = csgo_gsi::Error::ConfigInstallError {
        description: "failed to write config file",
        cause: None,
    };
    assert_eq!(
        err.message(),
        "CS:GO GSI config install error: failed to write config file"
    );
}

#[test]
fn zero_duration_renders_as_zero_seconds() {
    let config = GSIConfigBuilder::new("svc").timeout(0).buffer(60500).build();
    let text = config.render(1);
    assert!(text.contains("\t\"timeout\"\t\"0\"\n"));
    assert!(text.contains("\t\"buffer\"\t\"60.5\"\n"));
}
