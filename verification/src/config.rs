//! The subscription model and the configuration artifact.
//!
//! The game client reads a configuration file at startup that tells it where
//! to push snapshots, how often, and which state sections to include.  The
//! builder here accumulates those choices; rendering produces the artifact
//! text in the keyed format the client reads.

use vstd::prelude::*;

verus! {

broadcast use vstd::string::group_string_axioms;

/// Which pieces of information to subscribe to.
#[derive(Clone, Copy, Debug, PartialEq, Eq, Hash, Structural)]
pub enum Subscription {
    /// history of round wins
    MapRoundWins,
    /// mode, map, phase, team scores
    MapInfo,
    /// steamid
    PlayerID,
    /// scoreboard info
    PlayerMatchStats,
    /// armor, flashed, equip_value, health, etc.
    PlayerState,
    /// list of player weapons and weapon state
    PlayerWeapons,
    /// info about the game providing info
    Provider,
    /// round phase and the winning team
    Round,
    /// grenade effecttime, lifetime, owner, position, type, velocity
    AllGrenades,
    /// the steam id of each player
    AllPlayersID,
    /// the scoreboard info for each player
    AllPlayersMatchStats,
    /// player_position but for each player
    AllPlayersPosition,
    /// the player_state for each player
    AllPlayersState,
    /// the player_weapons for each player
    AllPlayersWeapons,
    /// location of the bomb, who's carrying it, dropped or not
    Bomb,
    /// time remaining in tenths of a second, which phase
    PhaseCountdowns,
    /// forward direction, position for currently spectated player
    PlayerPosition,
}

impl Subscription {
    /// The subscriptions available in every context.
    pub fn unrestricted() -> (r: Vec<Subscription>)
        ensures
            r@ == seq![
                Subscription::MapRoundWins,
                Subscription::MapInfo,
                Subscription::PlayerID,
                Subscription::PlayerMatchStats,
                Subscription::PlayerState,
                Subscription::PlayerWeapons,
                Subscription::Provider,
                Subscription::Round,
            ],
    {
        let mut r: Vec<Subscription> = Vec::new();
        r.push(Subscription::MapRoundWins);
        r.push(Subscription::MapInfo);
        r.push(Subscription::PlayerID);
        r.push(Subscription::PlayerMatchStats);
        r.push(Subscription::PlayerState);
        r.push(Subscription::PlayerWeapons);
        r.push(Subscription::Provider);
        r.push(Subscription::Round);
        proof {
            assert(r@ =~= seq![
                Subscription::MapRoundWins,
                Subscription::MapInfo,
                Subscription::PlayerID,
                Subscription::PlayerMatchStats,
                Subscription::PlayerState,
                Subscription::PlayerWeapons,
                Subscription::Provider,
                Subscription::Round,
            ]);
        }
        r
    }

    /// The subscriptions only meaningful to an observing or spectating
    /// client.  This partition is a documentation aid, not an enforced
    /// constraint: the builder accepts any combination.
    pub fn spectator_only() -> (r: Vec<Subscription>)
        ensures
            r@ == seq![
                Subscription::AllGrenades,
                Subscription::AllPlayersID,
                Subscription::AllPlayersMatchStats,
                Subscription::AllPlayersPosition,
                Subscription::AllPlayersState,
                Subscription::AllPlayersWeapons,
                Subscription::Bomb,
                Subscription::PhaseCountdowns,
                Subscription::PlayerPosition,
            ],
    {
        let mut r: Vec<Subscription> = Vec::new();
        r.push(Subscription::AllGrenades);
        r.push(Subscription::AllPlayersID);
        r.push(Subscription::AllPlayersMatchStats);
        r.push(Subscription::AllPlayersPosition);
        r.push(Subscription::AllPlayersState);
        r.push(Subscription::AllPlayersWeapons);
        r.push(Subscription::Bomb);
        r.push(Subscription::PhaseCountdowns);
        r.push(Subscription::PlayerPosition);
        proof {
            assert(r@ =~= seq![
                Subscription::AllGrenades,
                Subscription::AllPlayersID,
                Subscription::AllPlayersMatchStats,
                Subscription::AllPlayersPosition,
                Subscription::AllPlayersState,
                Subscription::AllPlayersWeapons,
                Subscription::Bomb,
                Subscription::PhaseCountdowns,
                Subscription::PlayerPosition,
            ]);
        }
        r
    }
}

/// Membership in a pushed sequence, one element further.
pub proof fn lemma_push_contains<A>(s: Seq<A>, e: A, x: A)
    ensures
        s.push(e).contains(x) <==> (s.contains(x) || x == e),
{
    if s.contains(x) {
        let i = choose|i: int| 0 <= i < s.len() && s[i] == x;
        assert(s.push(e)[i] == x);
    }
    if x == e {
        assert(s.push(e)[s.len() as int] == x);
    }
    if s.push(e).contains(x) {
        let i = choose|i: int| 0 <= i < s.push(e).len() && s.push(e)[i] == x;
        if i < s.len() {
            assert(s[i] == x);
        }
    }
}

/// Membership in a prefix, one element further.
pub proof fn lemma_take_contains<A>(s: Seq<A>, i: int, x: A)
    requires
        0 <= i < s.len(),
    ensures
        s.take(i + 1).contains(x) <==> (s.take(i).contains(x) || x == s[i]),
{
    assert(s.take(i + 1) =~= s.take(i).push(s[i]));
    lemma_push_contains(s.take(i), s[i], x);
}

/// Whether a subscription list already carries `s`.
fn subs_contain(v: &Vec<Subscription>, s: Subscription) -> (r: bool)
    ensures
        r == v@.contains(s),
{
    let n = v.len();
    let mut i: usize = 0;
    while i < n
        invariant
            0 <= i <= n,
            n == v@.len(),
            forall|j: int| 0 <= j < i ==> v@[j] != s,
        decreases n - i,
    {
        if v[i] == s {
            return true;
        }
        i = i + 1;
    }
    false
}

/// Builder for [`GSIConfig`].
///
/// Calls are independent and order-insensitive; a repeated scalar option
/// overwrites, while subscriptions and auth pairs accumulate (a subscription
/// already present is not added twice, and an auth key already present has
/// its value replaced).  Durations are carried as whole milliseconds.
pub struct GSIConfigBuilder {
    /// service name
    pub name: String,
    /// client timeout override, in milliseconds
    pub timeout: Option<u64>,
    /// buffer duration override, in milliseconds
    pub buffer: Option<u64>,
    /// throttle duration override, in milliseconds
    pub throttle: Option<u64>,
    /// heartbeat duration override, in milliseconds
    pub heartbeat: Option<u64>,
    /// auth key/value pairs, keys unique in order of first insertion
    pub auth: Vec<(String, String)>,
    /// digits after the decimal point in time values
    pub precision_time: Option<u8>,
    /// digits after the decimal point in position values
    pub precision_position: Option<u8>,
    /// digits after the decimal point in vector values
    pub precision_vector: Option<u8>,
    /// the subscribed categories, each at most once
    pub subscriptions: Vec<Subscription>,
}

impl GSIConfigBuilder {
    /// Initializes the builder, with the given service name.
    pub fn new(name: &str) -> (b: GSIConfigBuilder)
        ensures
            b.name@ == name@,
            b.timeout is None,
            b.buffer is None,
            b.throttle is None,
            b.heartbeat is None,
            b.auth@.len() == 0,
            b.precision_time is None,
            b.precision_position is None,
            b.precision_vector is None,
            b.subscriptions@.len() == 0,
    {
        GSIConfigBuilder {
            name: String::from_str(name),
            timeout: None,
            buffer: None,
            throttle: None,
            heartbeat: None,
            auth: Vec::new(),
            precision_time: None,
            precision_position: None,
            precision_vector: None,
            subscriptions: Vec::new(),
        }
    }

    /// The game client's timeout for requests, in milliseconds (the default
    /// is 1.1 seconds).
    pub fn timeout(self, timeout_ms: u64) -> (b: Self)
        ensures
            b == (Self { timeout: Some(timeout_ms), ..self }),
    {
        Self { timeout: Some(timeout_ms), ..self }
    }

    /// Minimum wait between sending updates, in milliseconds (the default is
    /// 0.1 seconds).
    pub fn buffer(self, buffer_ms: u64) -> (b: Self)
        ensures
            b == (Self { buffer: Some(buffer_ms), ..self }),
    {
        Self { buffer: Some(buffer_ms), ..self }
    }

    /// Minimum wait between the response to one update and sending the
    /// next, in milliseconds (the default is 1.0 seconds).
    pub fn throttle(self, throttle_ms: u64) -> (b: Self)
        ensures
            b == (Self { throttle: Some(throttle_ms), ..self }),
    {
        Self { throttle: Some(throttle_ms), ..self }
    }

    /// Maximum time between updates, in milliseconds (the default is 60
    /// seconds).
    pub fn heartbeat(self, heartbeat_ms: u64) -> (b: Self)
        ensures
            b == (Self { heartbeat: Some(heartbeat_ms), ..self }),
    {
        Self { heartbeat: Some(heartbeat_ms), ..self }
    }

    /// Digits after the decimal point in time values (the default is 2).
    pub fn precision_time(self, precision: u8) -> (b: Self)
        ensures
            b == (Self { precision_time: Some(precision), ..self }),
    {
        Self { precision_time: Some(precision), ..self }
    }

    /// Digits after the decimal point in position values (the default is 2).
    pub fn precision_position(self, precision: u8) -> (b: Self)
        ensures
            b == (Self { precision_position: Some(precision), ..self }),
    {
        Self { precision_position: Some(precision), ..self }
    }

    /// Digits after the decimal point in vector values (the default is 2).
    pub fn precision_vector(self, precision: u8) -> (b: Self)
        ensures
            b == (Self { precision_vector: Some(precision), ..self }),
    {
        Self { precision_vector: Some(precision), ..self }
    }

    /// Adds an authorization key/value pair; a repeated key replaces the
    /// value in place.
    pub fn auth(self, key: &str, value: &str) -> (b: Self)
        ensures
            b.name == self.name,
            b.timeout == self.timeout,
            b.buffer == self.buffer,
            b.throttle == self.throttle,
            b.heartbeat == self.heartbeat,
            b.precision_time == self.precision_time,
            b.precision_position == self.precision_position,
            b.precision_vector == self.precision_vector,
            b.subscriptions == self.subscriptions,
            crate::json::str_pairs_view(b.auth@) == spec_auth_insert(
                crate::json::str_pairs_view(self.auth@),
                key@,
                value@,
            ),
    {
        let mut b = self;
        let n = b.auth.len();
        let mut i: usize = 0;
        while i < n
            invariant
                0 <= i <= n,
                b == self,
                n == b.auth@.len(),
                forall|j: int| 0 <= j < i ==> b.auth@[j].0@ != key@,
            decreases n - i,
        {
            if crate::json::str_eq(b.auth[i].0.as_str(), key) {
                let pair = (String::from_str(key), String::from_str(value));
                b.auth.set(i, pair);
                proof {
                    lemma_auth_insert_at(
                        crate::json::str_pairs_view(self.auth@),
                        key@,
                        value@,
                        i as int,
                    );
                    assert(crate::json::str_pairs_view(b.auth@) =~= crate::json::str_pairs_view(
                        self.auth@,
                    ).update(i as int, (key@, value@)));
                }
                return b;
            }
            i = i + 1;
        }
        b.auth.push((String::from_str(key), String::from_str(value)));
        proof {
            lemma_auth_insert_absent(crate::json::str_pairs_view(self.auth@), key@, value@);
            assert(crate::json::str_pairs_view(b.auth@) =~= crate::json::str_pairs_view(self.auth@)
                .push((key@, value@)));
        }
        b
    }

    /// Subscribes to a certain set of update info.
    pub fn subscribe(self, subscription: Subscription) -> (b: Self)
        ensures
            b.name == self.name,
            b.timeout == self.timeout,
            b.buffer == self.buffer,
            b.throttle == self.throttle,
            b.heartbeat == self.heartbeat,
            b.auth == self.auth,
            b.precision_time == self.precision_time,
            b.precision_position == self.precision_position,
            b.precision_vector == self.precision_vector,
            forall|x: Subscription| #[trigger]
                b.subscriptions@.contains(x) <==> (self.subscriptions@.contains(x) || x
                    == subscription),
    {
        let mut b = self;
        if !subs_contain(&b.subscriptions, subscription) {
            b.subscriptions.push(subscription);
            proof {
                assert forall|x: Subscription| #[trigger]
                    b.subscriptions@.contains(x) <==> (self.subscriptions@.contains(x) || x
                        == subscription) by {
                    lemma_push_contains(self.subscriptions@, subscription, x);
                }
            }
        }
        b
    }

    /// Subscribes to several sets of update info.
    pub fn subscribe_multiple(self, subscriptions: &[Subscription]) -> (b: Self)
        ensures
            b.name == self.name,
            b.timeout == self.timeout,
            b.buffer == self.buffer,
            b.throttle == self.throttle,
            b.heartbeat == self.heartbeat,
            b.auth == self.auth,
            b.precision_time == self.precision_time,
            b.precision_position == self.precision_position,
            b.precision_vector == self.precision_vector,
            forall|x: Subscription| #[trigger]
                b.subscriptions@.contains(x) <==> (self.subscriptions@.contains(x)
                    || subscriptions@.contains(x)),
    {
        let n = subscriptions.len();
        let mut b = self;
        let mut i: usize = 0;
        while i < n
            invariant
                0 <= i <= n,
                n == subscriptions@.len(),
                b.name == self.name,
                b.timeout == self.timeout,
                b.buffer == self.buffer,
                b.throttle == self.throttle,
                b.heartbeat == self.heartbeat,
                b.auth == self.auth,
                b.precision_time == self.precision_time,
                b.precision_position == self.precision_position,
                b.precision_vector == self.precision_vector,
                forall|x: Subscription| #[trigger]
                    b.subscriptions@.contains(x) <==> (self.subscriptions@.contains(x)
                        || subscriptions@.take(i as int).contains(x)),
            decreases n - i,
        {
            let ghost before = b.subscriptions@;
            b = b.subscribe(subscriptions[i]);
            proof {
                assert forall|x: Subscription| #[trigger]
                    b.subscriptions@.contains(x) <==> (self.subscriptions@.contains(x)
                        || subscriptions@.take(i + 1).contains(x)) by {
                    lemma_take_contains(subscriptions@, i as int, x);
                }
            }
            i = i + 1;
        }
        proof {
            assert(subscriptions@.take(n as int) =~= subscriptions@);
        }
        b
    }

    /// Creates the config object, filling every option not given with its
    /// default.
    pub fn build(&self) -> (c: GSIConfig)
        ensures
            c@ == spec_build(self@),
    {
        GSIConfig {
            service_name: self.name.clone(),
            timeout: match self.timeout {
                Some(t) => t,
                None => 1100,
            },
            buffer: match self.buffer {
                Some(t) => t,
                None => 100,
            },
            throttle: match self.throttle {
                Some(t) => t,
                None => 1000,
            },
            heartbeat: match self.heartbeat {
                Some(t) => t,
                None => 60000,
            },
            auth: clone_string_pairs(&self.auth),
            precision_time: match self.precision_time {
                Some(p) => p,
                None => 2,
            },
            precision_position: match self.precision_position {
                Some(p) => p,
                None => 2,
            },
            precision_vector: match self.precision_vector {
                Some(p) => p,
                None => 2,
            },
            subscriptions: clone_subscriptions(&self.subscriptions),
        }
    }
}

/// What inserting an auth pair yields: the first field with this key has
/// its value replaced in place; an absent key is appended.
pub open spec fn spec_auth_insert(
    auth: Seq<(Seq<char>, Seq<char>)>,
    key: Seq<char>,
    value: Seq<char>,
) -> Seq<(Seq<char>, Seq<char>)>
    decreases auth.len(),
{
    if auth.len() == 0 {
        seq![(key, value)]
    } else if auth[0].0 == key {
        seq![(key, value)] + auth.drop_first()
    } else {
        seq![auth[0]] + spec_auth_insert(auth.drop_first(), key, value)
    }
}

/// When the first field with this key stands at position `i`, the insertion
/// is the update at `i`.
proof fn lemma_auth_insert_at(
    auth: Seq<(Seq<char>, Seq<char>)>,
    key: Seq<char>,
    value: Seq<char>,
    i: int,
)
    requires
        0 <= i < auth.len(),
        auth[i].0 == key,
        forall|j: int| 0 <= j < i ==> auth[j].0 != key,
    ensures
        spec_auth_insert(auth, key, value) == auth.update(i, (key, value)),
    decreases i,
{
    if i == 0 {
        assert(seq![(key, value)] + auth.drop_first() =~= auth.update(0, (key, value)));
    } else {
        lemma_auth_insert_at(auth.drop_first(), key, value, i - 1);
        assert(seq![auth[0]] + auth.drop_first().update(i - 1, (key, value)) =~= auth.update(
            i,
            (key, value),
        ));
    }
}

/// When no field holds this key, the insertion is the append.
proof fn lemma_auth_insert_absent(
    auth: Seq<(Seq<char>, Seq<char>)>,
    key: Seq<char>,
    value: Seq<char>,
)
    requires
        forall|j: int| 0 <= j < auth.len() ==> auth[j].0 != key,
    ensures
        spec_auth_insert(auth, key, value) == auth.push((key, value)),
    decreases auth.len(),
{
    if auth.len() == 0 {
        assert(spec_auth_insert(auth, key, value) =~= auth.push((key, value)));
    } else {
        lemma_auth_insert_absent(auth.drop_first(), key, value);
        assert(seq![auth[0]] + auth.drop_first().push((key, value)) =~= auth.push((key, value)));
    }
}

/// Copies an auth list; the copy denotes the same pairs.
fn clone_string_pairs(v: &Vec<(String, String)>) -> (r: Vec<(String, String)>)
    ensures
        crate::json::str_pairs_view(r@) == crate::json::str_pairs_view(v@),
{
    let n = v.len();
    let mut r: Vec<(String, String)> = Vec::new();
    let mut i: usize = 0;
    while i < n
        invariant
            0 <= i <= n,
            n == v@.len(),
            r@.len() == i,
            forall|j: int| 0 <= j < i ==> r@[j].0@ == v@[j].0@ && r@[j].1@ == v@[j].1@,
        decreases n - i,
    {
        let pair = (v[i].0.clone(), v[i].1.clone());
        r.push(pair);
        i = i + 1;
    }
    proof {
        assert(crate::json::str_pairs_view(r@) =~= crate::json::str_pairs_view(v@));
    }
    r
}

/// Copies a subscription list.
fn clone_subscriptions(v: &Vec<Subscription>) -> (r: Vec<Subscription>)
    ensures
        r@ == v@,
{
    let n = v.len();
    let mut r: Vec<Subscription> = Vec::new();
    let mut i: usize = 0;
    while i < n
        invariant
            0 <= i <= n,
            n == v@.len(),
            r@.len() == i,
            forall|j: int| 0 <= j < i ==> r@[j] == v@[j],
        decreases n - i,
    {
        r.push(v[i]);
        i = i + 1;
    }
    proof {
        assert(r@ =~= v@);
    }
    r
}

/// The mathematical value of a [`GSIConfigBuilder`].
pub ghost struct GSIConfigBuilderV {
    /// service name
    pub name: Seq<char>,
    /// client timeout override, in milliseconds
    pub timeout: Option<u64>,
    /// buffer duration override, in milliseconds
    pub buffer: Option<u64>,
    /// throttle duration override, in milliseconds
    pub throttle: Option<u64>,
    /// heartbeat duration override, in milliseconds
    pub heartbeat: Option<u64>,
    /// auth key/value pairs
    pub auth: Seq<(Seq<char>, Seq<char>)>,
    /// digits after the decimal point in time values
    pub precision_time: Option<u8>,
    /// digits after the decimal point in position values
    pub precision_position: Option<u8>,
    /// digits after the decimal point in vector values
    pub precision_vector: Option<u8>,
    /// the subscribed categories
    pub subscriptions: Seq<Subscription>,
}

impl View for GSIConfigBuilder {
    type V = GSIConfigBuilderV;

    open spec fn view(&self) -> GSIConfigBuilderV {
        GSIConfigBuilderV {
            name: self.name@,
            timeout: self.timeout,
            buffer: self.buffer,
            throttle: self.throttle,
            heartbeat: self.heartbeat,
            auth: crate::json::str_pairs_view(self.auth@),
            precision_time: self.precision_time,
            precision_position: self.precision_position,
            precision_vector: self.precision_vector,
            subscriptions: self.subscriptions@,
        }
    }
}

/// Game state integration configuration: the builder's choices with every
/// default applied.  Durations are whole milliseconds.
pub struct GSIConfig {
    /// service name; also names the installed artifact file
    pub service_name: String,
    /// the game client's timeout for requests, in milliseconds
    pub timeout: u64,
    /// minimum wait between sending updates, in milliseconds
    pub buffer: u64,
    /// minimum wait between response and next update, in milliseconds
    pub throttle: u64,
    /// maximum time between updates, in milliseconds
    pub heartbeat: u64,
    /// auth key/value pairs echoed in every push
    pub auth: Vec<(String, String)>,
    /// digits after the decimal point in time values
    pub precision_time: u8,
    /// digits after the decimal point in position values
    pub precision_position: u8,
    /// digits after the decimal point in vector values
    pub precision_vector: u8,
    /// the subscribed categories
    pub subscriptions: Vec<Subscription>,
}

/// The mathematical value of a [`GSIConfig`].
pub ghost struct GSIConfigV {
    /// service name
    pub service_name: Seq<char>,
    /// the game client's timeout for requests, in milliseconds
    pub timeout: u64,
    /// minimum wait between sending updates, in milliseconds
    pub buffer: u64,
    /// minimum wait between response and next update, in milliseconds
    pub throttle: u64,
    /// maximum time between updates, in milliseconds
    pub heartbeat: u64,
    /// auth key/value pairs
    pub auth: Seq<(Seq<char>, Seq<char>)>,
    /// digits after the decimal point in time values
    pub precision_time: u8,
    /// digits after the decimal point in position values
    pub precision_position: u8,
    /// digits after the decimal point in vector values
    pub precision_vector: u8,
    /// the subscribed categories
    pub subscriptions: Seq<Subscription>,
}

impl View for GSIConfig {
    type V = GSIConfigV;

    open spec fn view(&self) -> GSIConfigV {
        GSIConfigV {
            service_name: self.service_name@,
            timeout: self.timeout,
            buffer: self.buffer,
            throttle: self.throttle,
            heartbeat: self.heartbeat,
            auth: crate::json::str_pairs_view(self.auth@),
            precision_time: self.precision_time,
            precision_position: self.precision_position,
            precision_vector: self.precision_vector,
            subscriptions: self.subscriptions@,
        }
    }
}

/// The configuration artifact, field by field: the address to push to, the
/// four durations, the auth pairs, the three precisions, and one boolean
/// per subscription category.
pub struct ConfigFile {
    /// where the game client pushes to
    pub uri: String,
    /// the client's timeout for requests, in milliseconds
    pub timeout: u64,
    /// minimum wait between sending updates, in milliseconds
    pub buffer: u64,
    /// minimum wait between response and next update, in milliseconds
    pub throttle: u64,
    /// maximum time between updates, in milliseconds
    pub heartbeat: u64,
    /// auth key/value pairs echoed in every push
    pub auth: Vec<(String, String)>,
    /// digits after the decimal point in time values
    pub precision_time: u8,
    /// digits after the decimal point in position values
    pub precision_position: u8,
    /// digits after the decimal point in vector values
    pub precision_vector: u8,
    /// history of round wins
    pub map_round_wins: bool,
    /// mode, map, phase, team scores
    pub map: bool,
    /// steamid
    pub player_id: bool,
    /// scoreboard info
    pub player_match_stats: bool,
    /// armor, flashed, equip_value, health, etc.
    pub player_state: bool,
    /// list of player weapons and weapon state
    pub player_weapons: bool,
    /// info about the game providing info
    pub provider: bool,
    /// round phase and the winning team
    pub round: bool,
    /// grenade effecttime, lifetime, owner, position, type, velocity
    pub allgrenades: bool,
    /// the steam id of each player
    pub allplayers_id: bool,
    /// the scoreboard info for each player
    pub allplayers_match_stats: bool,
    /// player_position but for each player
    pub allplayers_position: bool,
    /// the player_state for each player
    pub allplayers_state: bool,
    /// the player_weapons for each player
    pub allplayers_weapons: bool,
    /// location of the bomb, who's carrying it, dropped or not
    pub bomb: bool,
    /// time remaining in tenths of a second, which phase
    pub phase_countdowns: bool,
    /// forward direction, position for currently spectated player
    pub player_position: bool,
}

/// The mathematical value of a [`ConfigFile`].
pub ghost struct ConfigFileV {
    /// where the game client pushes to
    pub uri: Seq<char>,
    /// the client's timeout for requests, in milliseconds
    pub timeout: u64,
    /// minimum wait between sending updates, in milliseconds
    pub buffer: u64,
    /// minimum wait between response and next update, in milliseconds
    pub throttle: u64,
    /// maximum time between updates, in milliseconds
    pub heartbeat: u64,
    /// auth key/value pairs
    pub auth: Seq<(Seq<char>, Seq<char>)>,
    /// digits after the decimal point in time values
    pub precision_time: u8,
    /// digits after the decimal point in position values
    pub precision_position: u8,
    /// digits after the decimal point in vector values
    pub precision_vector: u8,
    /// history of round wins
    pub map_round_wins: bool,
    /// mode, map, phase, team scores
    pub map: bool,
    /// steamid
    pub player_id: bool,
    /// scoreboard info
    pub player_match_stats: bool,
    /// armor, flashed, equip_value, health, etc.
    pub player_state: bool,
    /// list of player weapons and weapon state
    pub player_weapons: bool,
    /// info about the game providing info
    pub provider: bool,
    /// round phase and the winning team
    pub round: bool,
    /// grenade effecttime, lifetime, owner, position, type, velocity
    pub allgrenades: bool,
    /// the steam id of each player
    pub allplayers_id: bool,
    /// the scoreboard info for each player
    pub allplayers_match_stats: bool,
    /// player_position but for each player
    pub allplayers_position: bool,
    /// the player_state for each player
    pub allplayers_state: bool,
    /// the player_weapons for each player
    pub allplayers_weapons: bool,
    /// location of the bomb, who's carrying it, dropped or not
    pub bomb: bool,
    /// time remaining in tenths of a second, which phase
    pub phase_countdowns: bool,
    /// forward direction, position for currently spectated player
    pub player_position: bool,
}

impl View for ConfigFile {
    type V = ConfigFileV;

    open spec fn view(&self) -> ConfigFileV {
        ConfigFileV {
            uri: self.uri@,
            timeout: self.timeout,
            buffer: self.buffer,
            throttle: self.throttle,
            heartbeat: self.heartbeat,
            auth: crate::json::str_pairs_view(self.auth@),
            precision_time: self.precision_time,
            precision_position: self.precision_position,
            precision_vector: self.precision_vector,
            map_round_wins: self.map_round_wins,
            map: self.map,
            player_id: self.player_id,
            player_match_stats: self.player_match_stats,
            player_state: self.player_state,
            player_weapons: self.player_weapons,
            provider: self.provider,
            round: self.round,
            allgrenades: self.allgrenades,
            allplayers_id: self.allplayers_id,
            allplayers_match_stats: self.allplayers_match_stats,
            allplayers_position: self.allplayers_position,
            allplayers_state: self.allplayers_state,
            allplayers_weapons: self.allplayers_weapons,
            bomb: self.bomb,
            phase_countdowns: self.phase_countdowns,
            player_position: self.player_position,
        }
    }
}

/// What the artifact for a configuration and a listening port holds: each
/// data flag is set exactly when its category is subscribed.
pub open spec fn spec_config_file(c: GSIConfigV, port: u16) -> ConfigFileV {
    ConfigFileV {
        uri: "http://127.0.0.1:"@ + crate::text::dec_digits(port as nat),
        timeout: c.timeout,
        buffer: c.buffer,
        throttle: c.throttle,
        heartbeat: c.heartbeat,
        auth: c.auth,
        precision_time: c.precision_time,
        precision_position: c.precision_position,
        precision_vector: c.precision_vector,
        map_round_wins: c.subscriptions.contains(Subscription::MapRoundWins),
        map: c.subscriptions.contains(Subscription::MapInfo),
        player_id: c.subscriptions.contains(Subscription::PlayerID),
        player_match_stats: c.subscriptions.contains(Subscription::PlayerMatchStats),
        player_state: c.subscriptions.contains(Subscription::PlayerState),
        player_weapons: c.subscriptions.contains(Subscription::PlayerWeapons),
        provider: c.subscriptions.contains(Subscription::Provider),
        round: c.subscriptions.contains(Subscription::Round),
        allgrenades: c.subscriptions.contains(Subscription::AllGrenades),
        allplayers_id: c.subscriptions.contains(Subscription::AllPlayersID),
        allplayers_match_stats: c.subscriptions.contains(Subscription::AllPlayersMatchStats),
        allplayers_position: c.subscriptions.contains(Subscription::AllPlayersPosition),
        allplayers_state: c.subscriptions.contains(Subscription::AllPlayersState),
        allplayers_weapons: c.subscriptions.contains(Subscription::AllPlayersWeapons),
        bomb: c.subscriptions.contains(Subscription::Bomb),
        phase_countdowns: c.subscriptions.contains(Subscription::PhaseCountdowns),
        player_position: c.subscriptions.contains(Subscription::PlayerPosition),
    }
}

impl ConfigFile {
    /// Builds the artifact for a configuration and a listening port.
    #[verifier::rlimit(60)]
    pub fn new(config: &GSIConfig, port: u16) -> (f: ConfigFile)
        ensures
            f@ == spec_config_file(config@, port),
    {
        let mut uri = String::from_str("http://127.0.0.1:");
        uri.append(crate::text::u64_to_dec(port as u64).as_str());
        ConfigFile {
            uri,
            timeout: config.timeout,
            buffer: config.buffer,
            throttle: config.throttle,
            heartbeat: config.heartbeat,
            auth: clone_string_pairs(&config.auth),
            precision_time: config.precision_time,
            precision_position: config.precision_position,
            precision_vector: config.precision_vector,
            map_round_wins: subs_contain(&config.subscriptions, Subscription::MapRoundWins),
            map: subs_contain(&config.subscriptions, Subscription::MapInfo),
            player_id: subs_contain(&config.subscriptions, Subscription::PlayerID),
            player_match_stats: subs_contain(&config.subscriptions, Subscription::PlayerMatchStats),
            player_state: subs_contain(&config.subscriptions, Subscription::PlayerState),
            player_weapons: subs_contain(&config.subscriptions, Subscription::PlayerWeapons),
            provider: subs_contain(&config.subscriptions, Subscription::Provider),
            round: subs_contain(&config.subscriptions, Subscription::Round),
            allgrenades: subs_contain(&config.subscriptions, Subscription::AllGrenades),
            allplayers_id: subs_contain(&config.subscriptions, Subscription::AllPlayersID),
            allplayers_match_stats: subs_contain(
                &config.subscriptions,
                Subscription::AllPlayersMatchStats,
            ),
            allplayers_position: subs_contain(
                &config.subscriptions,
                Subscription::AllPlayersPosition,
            ),
            allplayers_state: subs_contain(&config.subscriptions, Subscription::AllPlayersState),
            allplayers_weapons: subs_contain(
                &config.subscriptions,
                Subscription::AllPlayersWeapons,
            ),
            bomb: subs_contain(&config.subscriptions, Subscription::Bomb),
            phase_countdowns: subs_contain(&config.subscriptions, Subscription::PhaseCountdowns),
            player_position: subs_contain(&config.subscriptions, Subscription::PlayerPosition),
        }
    }
}

/// What building yields: every absent option replaced by its default.
/// Defaults: timeout 1.1 s, buffer 0.1 s, throttle 1.0 s, heartbeat 60 s,
/// each precision 2 digits.  The heartbeat default is its own, not derived
/// from the throttle option.
pub open spec fn spec_build(b: GSIConfigBuilderV) -> GSIConfigV {
    GSIConfigV {
        service_name: b.name,
        timeout: match b.timeout {
            Some(t) => t,
            None => 1100,
        },
        buffer: match b.buffer {
            Some(t) => t,
            None => 100,
        },
        throttle: match b.throttle {
            Some(t) => t,
            None => 1000,
        },
        heartbeat: match b.heartbeat {
            Some(t) => t,
            None => 60000,
        },
        auth: b.auth,
        precision_time: match b.precision_time {
            Some(p) => p,
            None => 2,
        },
        precision_position: match b.precision_position {
            Some(p) => p,
            None => 2,
        },
        precision_vector: match b.precision_vector {
            Some(p) => p,
            None => 2,
        },
        subscriptions: b.subscriptions,
    }
}


/// A quoted token of the artifact text.
pub open spec fn spec_quoted(s: Seq<char>) -> Seq<char> {
    seq!['"'] + s + seq!['"']
}

/// One key/value line at nesting depth one.
pub open spec fn spec_kv1(k: Seq<char>, v: Seq<char>) -> Seq<char> {
    seq!['\t'] + spec_quoted(k) + seq!['\t'] + spec_quoted(v) + seq!['\n']
}

/// One key/value line at nesting depth two.
pub open spec fn spec_kv2(k: Seq<char>, v: Seq<char>) -> Seq<char> {
    seq!['\t', '\t'] + spec_quoted(k) + seq!['\t'] + spec_quoted(v) + seq!['\n']
}

/// The opening of a nested block at depth one.
pub open spec fn spec_block_open(k: Seq<char>) -> Seq<char> {
    seq!['\t'] + spec_quoted(k) + seq!['\n', '\t', '{', '\n']
}

/// The closing of a nested block at depth one.
pub open spec fn spec_block_close() -> Seq<char> {
    seq!['\t', '}', '\n']
}

/// The artifact spelling of a boolean.
pub open spec fn spec_bool_text(b: bool) -> Seq<char> {
    if b {
        seq!['1']
    } else {
        seq!['0']
    }
}

/// The auth block's lines, one per pair, in order.
pub open spec fn spec_auth_lines(auth: Seq<(Seq<char>, Seq<char>)>) -> Seq<char>
    decreases auth.len(),
{
    if auth.len() == 0 {
        Seq::empty()
    } else {
        spec_auth_lines(auth.drop_last()) + spec_kv2(auth.last().0, auth.last().1)
    }
}

/// The artifact's outer title, scalar lines and auth block.
pub open spec fn spec_render_head(f: ConfigFileV) -> Seq<char> {
    spec_quoted("Managed by the csgo-gsi Rust library"@) + seq!['\n', '{', '\n'] + spec_kv1(
        "uri"@,
        f.uri,
    ) + spec_kv1("timeout"@, crate::text::spec_secs_text(f.timeout)) + spec_kv1(
        "buffer"@,
        crate::text::spec_secs_text(f.buffer),
    ) + spec_kv1("throttle"@, crate::text::spec_secs_text(f.throttle)) + spec_kv1(
        "heartbeat"@,
        crate::text::spec_secs_text(f.heartbeat),
    ) + spec_block_open("auth"@) + spec_auth_lines(f.auth) + spec_block_close()
}

/// The artifact's `output` block: the three precisions.
pub open spec fn spec_render_output(f: ConfigFileV) -> Seq<char> {
    spec_block_open("output"@) + spec_kv2(
        "precision_time"@,
        crate::text::dec_digits(f.precision_time as nat),
    ) + spec_kv2("precision_position"@, crate::text::dec_digits(f.precision_position as nat))
        + spec_kv2("precision_vector"@, crate::text::dec_digits(f.precision_vector as nat))
        + spec_block_close()
}

/// The first half of the artifact's `data` block: its opening and the
/// unrestricted categories' flag lines.
pub open spec fn spec_render_data_a(f: ConfigFileV) -> Seq<char> {
    spec_block_open("data"@) + spec_kv2("map_round_wins"@, spec_bool_text(f.map_round_wins))
        + spec_kv2("map"@, spec_bool_text(f.map)) + spec_kv2(
        "player_id"@,
        spec_bool_text(f.player_id),
    ) + spec_kv2("player_match_stats"@, spec_bool_text(f.player_match_stats)) + spec_kv2(
        "player_state"@,
        spec_bool_text(f.player_state),
    ) + spec_kv2("player_weapons"@, spec_bool_text(f.player_weapons)) + spec_kv2(
        "provider"@,
        spec_bool_text(f.provider),
    ) + spec_kv2("round"@, spec_bool_text(f.round))
}

/// The second half of the artifact's `data` block: the spectator-only
/// categories' flag lines and its closing.
pub open spec fn spec_render_data_b(f: ConfigFileV) -> Seq<char> {
    spec_kv2("allgrenades"@, spec_bool_text(f.allgrenades)) + spec_kv2(
        "allplayers_id"@,
        spec_bool_text(f.allplayers_id),
    ) + spec_kv2("allplayers_match_stats"@, spec_bool_text(f.allplayers_match_stats)) + spec_kv2(
        "allplayers_position"@,
        spec_bool_text(f.allplayers_position),
    ) + spec_kv2("allplayers_state"@, spec_bool_text(f.allplayers_state)) + spec_kv2(
        "allplayers_weapons"@,
        spec_bool_text(f.allplayers_weapons),
    ) + spec_kv2("bomb"@, spec_bool_text(f.bomb)) + spec_kv2(
        "phase_countdowns"@,
        spec_bool_text(f.phase_countdowns),
    ) + spec_kv2("player_position"@, spec_bool_text(f.player_position)) + spec_block_close()
}

/// The artifact's `data` block: one flag line per subscription category.
pub open spec fn spec_render_data(f: ConfigFileV) -> Seq<char> {
    spec_render_data_a(f) + spec_render_data_b(f)
}

/// The whole artifact text for a [`ConfigFileV`]: the titled outer block,
/// the scalar lines, and the `auth`, `output` and `data` blocks, in the
/// keyed tab-indented format the game client reads.
pub open spec fn spec_render(f: ConfigFileV) -> Seq<char> {
    spec_render_head(f) + spec_render_output(f) + spec_render_data(f) + seq!['}']
}

/// Appends a quoted token.
fn push_quoted(out: &mut String, s: &str)
    ensures
        final(out)@ == old(out)@ + spec_quoted(s@),
{
    proof {
        reveal_strlit("\"");
        assert("\""@.len() == 1);
        assert("\""@ =~= seq!['"']);
    }
    out.append("\"");
    out.append(s);
    out.append("\"");
    proof {
        assert(final(out)@ =~= old(out)@ + spec_quoted(s@));
    }
}

/// Appends one tab character.
fn push_tab(out: &mut String)
    ensures
        final(out)@ == old(out)@ + seq!['\t'],
{
    proof {
        reveal_strlit("\t");
        assert("\t"@.len() == 1);
        assert("\t"@ =~= seq!['\t']);
    }
    out.append("\t");
}

/// Appends one newline character.
fn push_nl(out: &mut String)
    ensures
        final(out)@ == old(out)@ + seq!['\n'],
{
    proof {
        reveal_strlit("\n");
        assert("\n"@.len() == 1);
        assert("\n"@ =~= seq!['\n']);
    }
    out.append("\n");
}

/// Appends a key/value line at depth one.
fn push_kv1(out: &mut String, k: &str, v: &str)
    ensures
        final(out)@ == old(out)@ + spec_kv1(k@, v@),
{
    push_tab(out);
    push_quoted(out, k);
    push_tab(out);
    push_quoted(out, v);
    push_nl(out);
    proof {
        assert(final(out)@ =~= old(out)@ + spec_kv1(k@, v@));
    }
}

/// Appends a key/value line at depth two.
fn push_kv2(out: &mut String, k: &str, v: &str)
    ensures
        final(out)@ == old(out)@ + spec_kv2(k@, v@),
{
    push_tab(out);
    push_tab(out);
    push_quoted(out, k);
    push_tab(out);
    push_quoted(out, v);
    push_nl(out);
    proof {
        assert(final(out)@ =~= old(out)@ + spec_kv2(k@, v@));
    }
}

/// Appends the opening of a nested block at depth one.
fn push_block_open(out: &mut String, k: &str)
    ensures
        final(out)@ == old(out)@ + spec_block_open(k@),
{
    proof {
        reveal_strlit("{");
        assert("{"@.len() == 1);
        assert("{"@ =~= seq!['{']);
    }
    push_tab(out);
    push_quoted(out, k);
    push_nl(out);
    push_tab(out);
    out.append("{");
    push_nl(out);
    proof {
        assert(final(out)@ =~= old(out)@ + spec_block_open(k@));
    }
}

/// Appends the closing of a nested block at depth one.
fn push_block_close(out: &mut String)
    ensures
        final(out)@ == old(out)@ + spec_block_close(),
{
    proof {
        reveal_strlit("}");
        assert("}"@.len() == 1);
        assert("}"@ =~= seq!['}']);
    }
    push_tab(out);
    out.append("}");
    push_nl(out);
    proof {
        assert(final(out)@ =~= old(out)@ + spec_block_close());
    }
}

/// Appends the artifact spelling of a boolean.
fn push_kv2_bool(out: &mut String, k: &str, v: bool)
    ensures
        final(out)@ == old(out)@ + spec_kv2(k@, spec_bool_text(v)),
{
    proof {
        reveal_strlit("1");
        reveal_strlit("0");
        assert("1"@.len() == 1);
        assert("0"@.len() == 1);
        assert("1"@ =~= seq!['1']);
        assert("0"@ =~= seq!['0']);
    }
    if v {
        push_kv2(out, k, "1");
    } else {
        push_kv2(out, k, "0");
    }
}

/// Appends the auth block's lines.
fn push_auth_lines(out: &mut String, auth: &Vec<(String, String)>)
    ensures
        final(out)@ == old(out)@ + spec_auth_lines(crate::json::str_pairs_view(auth@)),
{
    let ghost ga = crate::json::str_pairs_view(auth@);
    let n = auth.len();
    let mut i: usize = 0;
    while i < n
        invariant
            0 <= i <= n,
            n == auth@.len(),
            ga == crate::json::str_pairs_view(auth@),
            ga.len() == n,
            out@ == old(out)@ + spec_auth_lines(ga.take(i as int)),
        decreases n - i,
    {
        push_kv2(out, auth[i].0.as_str(), auth[i].1.as_str());
        proof {
            assert(ga.take(i + 1).drop_last() =~= ga.take(i as int));
            assert(ga.take(i + 1).last() == ga[i as int]);
        }
        i = i + 1;
    }
    proof {
        assert(ga.take(n as int) =~= ga);
    }
}

/// Appends the artifact's title, scalar lines and auth block.
#[verifier::rlimit(60)]
fn push_head(out: &mut String, f: &ConfigFile)
    ensures
        final(out)@ == old(out)@ + spec_render_head(f@),
{
    proof {
        reveal_strlit("{");
        assert("{"@.len() == 1);
        assert("{"@ =~= seq!['{']);
    }
    push_quoted(out, "Managed by the csgo-gsi Rust library");
    push_nl(out);
    out.append("{");
    push_nl(out);
    push_kv1(out, "uri", f.uri.as_str());
    push_kv1(out, "timeout", crate::text::millis_to_secs_text(f.timeout).as_str());
    push_kv1(out, "buffer", crate::text::millis_to_secs_text(f.buffer).as_str());
    push_kv1(out, "throttle", crate::text::millis_to_secs_text(f.throttle).as_str());
    push_kv1(out, "heartbeat", crate::text::millis_to_secs_text(f.heartbeat).as_str());
    push_block_open(out, "auth");
    push_auth_lines(out, &f.auth);
    push_block_close(out);
    proof {
        assert(final(out)@ =~= old(out)@ + spec_render_head(f@));
    }
}

/// Appends the artifact's `output` block.
#[verifier::rlimit(60)]
fn push_output(out: &mut String, f: &ConfigFile)
    ensures
        final(out)@ == old(out)@ + spec_render_output(f@),
{
    push_block_open(out, "output");
    push_kv2(out, "precision_time", crate::text::u64_to_dec(f.precision_time as u64).as_str());
    push_kv2(
        out,
        "precision_position",
        crate::text::u64_to_dec(f.precision_position as u64).as_str(),
    );
    push_kv2(out, "precision_vector", crate::text::u64_to_dec(f.precision_vector as u64).as_str());
    push_block_close(out);
    proof {
        assert(final(out)@ =~= old(out)@ + spec_render_output(f@));
    }
}

/// Concatenation of character sequences is associative.
proof fn lemma_concat_assoc(a: Seq<char>, b: Seq<char>, c: Seq<char>)
    ensures
        (a + b) + c == a + (b + c),
{
    assert((a + b) + c =~= a + (b + c));
}

/// Appends the opening and first half of the artifact's `data` block.
#[verifier::rlimit(60)]
fn push_data_a(out: &mut String, f: &ConfigFile)
    ensures
        final(out)@ == old(out)@ + spec_render_data_a(f@),
{
    let ghost o = old(out)@;
    push_block_open(out, "data");
    let ghost mut c = spec_block_open("data"@);
    push_kv2_bool(out, "map_round_wins", f.map_round_wins);
    proof {
        let p = spec_kv2("map_round_wins"@, spec_bool_text(f.map_round_wins));
        lemma_concat_assoc(o, c, p);
        c = c + p;
    }
    push_kv2_bool(out, "map", f.map);
    proof {
        let p = spec_kv2("map"@, spec_bool_text(f.map));
        lemma_concat_assoc(o, c, p);
        c = c + p;
    }
    push_kv2_bool(out, "player_id", f.player_id);
    proof {
        let p = spec_kv2("player_id"@, spec_bool_text(f.player_id));
        lemma_concat_assoc(o, c, p);
        c = c + p;
    }
    push_kv2_bool(out, "player_match_stats", f.player_match_stats);
    proof {
        let p = spec_kv2("player_match_stats"@, spec_bool_text(f.player_match_stats));
        lemma_concat_assoc(o, c, p);
        c = c + p;
    }
    push_kv2_bool(out, "player_state", f.player_state);
    proof {
        let p = spec_kv2("player_state"@, spec_bool_text(f.player_state));
        lemma_concat_assoc(o, c, p);
        c = c + p;
    }
    push_kv2_bool(out, "player_weapons", f.player_weapons);
    proof {
        let p = spec_kv2("player_weapons"@, spec_bool_text(f.player_weapons));
        lemma_concat_assoc(o, c, p);
        c = c + p;
    }
    push_kv2_bool(out, "provider", f.provider);
    proof {
        let p = spec_kv2("provider"@, spec_bool_text(f.provider));
        lemma_concat_assoc(o, c, p);
        c = c + p;
    }
    push_kv2_bool(out, "round", f.round);
    proof {
        let p = spec_kv2("round"@, spec_bool_text(f.round));
        lemma_concat_assoc(o, c, p);
        c = c + p;
    }
    proof {
        assert(c == spec_render_data_a(f@));
    }
}

/// Appends the second half and closing of the artifact's `data` block.
#[verifier::rlimit(60)]
fn push_data_b(out: &mut String, f: &ConfigFile)
    ensures
        final(out)@ == old(out)@ + spec_render_data_b(f@),
{
    let ghost o = old(out)@;
    push_kv2_bool(out, "allgrenades", f.allgrenades);
    let ghost mut c = spec_kv2("allgrenades"@, spec_bool_text(f.allgrenades));
    push_kv2_bool(out, "allplayers_id", f.allplayers_id);
    proof {
        let p = spec_kv2("allplayers_id"@, spec_bool_text(f.allplayers_id));
        lemma_concat_assoc(o, c, p);
        c = c + p;
    }
    push_kv2_bool(out, "allplayers_match_stats", f.allplayers_match_stats);
    proof {
        let p = spec_kv2("allplayers_match_stats"@, spec_bool_text(f.allplayers_match_stats));
        lemma_concat_assoc(o, c, p);
        c = c + p;
    }
    push_kv2_bool(out, "allplayers_position", f.allplayers_position);
    proof {
        let p = spec_kv2("allplayers_position"@, spec_bool_text(f.allplayers_position));
        lemma_concat_assoc(o, c, p);
        c = c + p;
    }
    push_kv2_bool(out, "allplayers_state", f.allplayers_state);
    proof {
        let p = spec_kv2("allplayers_state"@, spec_bool_text(f.allplayers_state));
        lemma_concat_assoc(o, c, p);
        c = c + p;
    }
    push_kv2_bool(out, "allplayers_weapons", f.allplayers_weapons);
    proof {
        let p = spec_kv2("allplayers_weapons"@, spec_bool_text(f.allplayers_weapons));
        lemma_concat_assoc(o, c, p);
        c = c + p;
    }
    push_kv2_bool(out, "bomb", f.bomb);
    proof {
        let p = spec_kv2("bomb"@, spec_bool_text(f.bomb));
        lemma_concat_assoc(o, c, p);
        c = c + p;
    }
    push_kv2_bool(out, "phase_countdowns", f.phase_countdowns);
    proof {
        let p = spec_kv2("phase_countdowns"@, spec_bool_text(f.phase_countdowns));
        lemma_concat_assoc(o, c, p);
        c = c + p;
    }
    push_kv2_bool(out, "player_position", f.player_position);
    proof {
        let p = spec_kv2("player_position"@, spec_bool_text(f.player_position));
        lemma_concat_assoc(o, c, p);
        c = c + p;
    }
    push_block_close(out);
    proof {
        let p = spec_block_close();
        lemma_concat_assoc(o, c, p);
        c = c + p;
        assert(c == spec_render_data_b(f@));
    }
}

impl ConfigFile {
    /// Renders the artifact text.
    pub fn render(&self) -> (r: String)
        ensures
            r@ == spec_render(self@),
    {
        proof {
            reveal_strlit("}");
            assert("}"@.len() == 1);
            assert("}"@ =~= seq!['}']);
        }
        let mut out = String::new();
        push_head(&mut out, self);
        push_output(&mut out, self);
        push_data_a(&mut out, self);
        push_data_b(&mut out, self);
        out.append("}");
        proof {
            assert(out@ =~= spec_render(self@));
        }
        out
    }
}

impl GSIConfig {
    /// The artifact file's name for this service,
    /// `gamestate_integration_<service name>.cfg`.
    pub fn cfg_file_name(&self) -> (r: String)
        ensures
            r@ == "gamestate_integration_"@ + self.service_name@ + ".cfg"@,
    {
        let mut r = String::from_str("gamestate_integration_");
        r.append(self.service_name.as_str());
        r.append(".cfg");
        proof {
            assert(r@ =~= "gamestate_integration_"@ + self.service_name@ + ".cfg"@);
        }
        r
    }

    /// Renders the artifact text this configuration installs for a
    /// listening port.
    pub fn render(&self, port: u16) -> (r: String)
        ensures
            r@ == spec_render(spec_config_file(self@, port)),
    {
        ConfigFile::new(self, port).render()
    }
}

/// A singleton sequence carries exactly its one element.
pub proof fn lemma_singleton_contains<A>(e: A, x: A)
    ensures
        seq![e].contains(x) <==> x == e,
{
    if x == e {
        assert(seq![e][0] == x);
    }
}

/// An artifact built from a configuration whose only subscription is the
/// map section has its map flag set and every other data flag clear.
pub proof fn lemma_map_only_artifact(c: GSIConfigV, port: u16)
    requires
        c.subscriptions == seq![Subscription::MapInfo],
    ensures
        spec_config_file(c, port).map,
        !spec_config_file(c, port).map_round_wins,
        !spec_config_file(c, port).player_id,
        !spec_config_file(c, port).player_match_stats,
        !spec_config_file(c, port).player_state,
        !spec_config_file(c, port).player_weapons,
        !spec_config_file(c, port).provider,
        !spec_config_file(c, port).round,
        !spec_config_file(c, port).allgrenades,
        !spec_config_file(c, port).allplayers_id,
        !spec_config_file(c, port).allplayers_match_stats,
        !spec_config_file(c, port).allplayers_position,
        !spec_config_file(c, port).allplayers_state,
        !spec_config_file(c, port).allplayers_weapons,
        !spec_config_file(c, port).bomb,
        !spec_config_file(c, port).phase_countdowns,
        !spec_config_file(c, port).player_position,
{
    lemma_singleton_contains(Subscription::MapInfo, Subscription::MapInfo);
    lemma_singleton_contains(Subscription::MapInfo, Subscription::MapRoundWins);
    lemma_singleton_contains(Subscription::MapInfo, Subscription::PlayerID);
    lemma_singleton_contains(Subscription::MapInfo, Subscription::PlayerMatchStats);
    lemma_singleton_contains(Subscription::MapInfo, Subscription::PlayerState);
    lemma_singleton_contains(Subscription::MapInfo, Subscription::PlayerWeapons);
    lemma_singleton_contains(Subscription::MapInfo, Subscription::Provider);
    lemma_singleton_contains(Subscription::MapInfo, Subscription::Round);
    lemma_singleton_contains(Subscription::MapInfo, Subscription::AllGrenades);
    lemma_singleton_contains(Subscription::MapInfo, Subscription::AllPlayersID);
    lemma_singleton_contains(Subscription::MapInfo, Subscription::AllPlayersMatchStats);
    lemma_singleton_contains(Subscription::MapInfo, Subscription::AllPlayersPosition);
    lemma_singleton_contains(Subscription::MapInfo, Subscription::AllPlayersState);
    lemma_singleton_contains(Subscription::MapInfo, Subscription::AllPlayersWeapons);
    lemma_singleton_contains(Subscription::MapInfo, Subscription::Bomb);
    lemma_singleton_contains(Subscription::MapInfo, Subscription::PhaseCountdowns);
    lemma_singleton_contains(Subscription::MapInfo, Subscription::PlayerPosition);
}

} // verus!
