use rpg_game::{
    AchievementRecord, BattleRecord, ChainId, GameSnapshot, GuildData, HubOperation,
    HubParameters, HubRuntime, HubSnapshot, HubState, Parameters, PlayerAchievement, PlayerData,
    RpgGameContract, RpgGameMessage, RpgGameOperation, RpgGameState, RpgHubContract, Runtime,
    WorldChainInfo,
};

fn empty_game() -> GameSnapshot {
    RpgGameState::new("world1".to_string()).into_snapshot()
}

fn busy_game() -> RpgGameState {
    let runtime = Runtime::new(
        ChainId::new("A".to_string()),
        11,
        Parameters { world_region: "world1".to_string() },
        8,
    );
    let mut contract = RpgGameContract::load(RpgGameState::new("world1".to_string()), runtime);
    let p = "p".to_string();
    let operations = vec![
        RpgGameOperation::SavePlayerState {
            player_id: p.clone(),
            health: 1,
            max_health: 2,
            strength: 3,
            wisdomness: 4,
            benchpress: 5,
            curl: 6,
            experience: 7,
            level: 8,
        },
        RpgGameOperation::SaveInventory {
            player_id: p.clone(),
            inventory: r#"[{"slot":"s","item_id":"i","params":{"k":[1,2.5,"x"]}}]"#.to_string(),
        },
        RpgGameOperation::SaveQuests {
            player_id: p.clone(),
            quests: r#"[{"id":"q","title":"t","text":"x","completed":false,"progress":1}]"#.to_string(),
        },
        RpgGameOperation::RecordBattle {
            battle_id: "b1".to_string(),
            player_id: p.clone(),
            opponent: "orc".to_string(),
            player_result: 2,
            damage_dealt: 3,
            damage_taken: 4,
            experience_gained: 5,
        },
        RpgGameOperation::JoinGuild {
            player_id: p.clone(),
            guild_id: "g".to_string(),
            chain_id: ChainId::new("B".to_string()),
        },
    ];
    for operation in operations {
        assert_eq!(contract.execute_operation(operation), Ok(()));
    }
    for player in ["p", "q"] {
        assert_eq!(
            contract.execute_message(RpgGameMessage::GuildJoinRequest {
                player_id: player.to_string(),
                guild_id: "g".to_string(),
            }),
            Ok(())
        );
    }
    contract.store()
}

#[test]
fn game_snapshot_lists_everything() {
    let snapshot = busy_game().into_snapshot();
    assert_eq!(snapshot.world_region, "world1");
    assert_eq!(snapshot.player_states.len(), 1);
    assert_eq!(snapshot.player_states[0].0, "p");
    assert_eq!(snapshot.player_states[0].1.level, 8);
    assert_eq!(snapshot.player_inventories[0].1.items[0].item_id, "i");
    assert_eq!(snapshot.player_quests[0].1[0].progress, 1);
    assert_eq!(snapshot.battle_records[0].0, "b1");
    assert_eq!(snapshot.battle_facts[0].1.len(), 1);
    assert_eq!(snapshot.player_battles[0], ("p".to_string(), vec!["b1".to_string()]));
    assert_eq!(snapshot.guilds[0].1.members, vec!["p".to_string(), "q".to_string()]);
    assert_eq!(snapshot.player_guilds.len(), 2);
    assert_eq!(snapshot.guild_join_requests[0], ("g".to_string(), vec!["p".to_string()]));
    assert!(snapshot.player_transfer_requests.is_empty());
}

#[test]
fn game_is_restored_from_its_snapshot() {
    let state = RpgGameState::restore(busy_game().into_snapshot()).unwrap();
    let p = "p".to_string();
    assert_eq!(state.player_state(&p).unwrap().health, 1);
    assert_eq!(state.inventory(&p).unwrap().items.len(), 1);
    assert_eq!(
        state.inventory(&p).unwrap().items[0].params.to_string(),
        r#"{"k":[1,2.5,"x"]}"#
    );
    assert_eq!(state.quests(&p).unwrap()[0].id, "q");
    assert_eq!(state.battle_record(&"b1".to_string()).unwrap().timestamp, 11);
    assert_eq!(*state.player_battles(&p).unwrap(), vec!["b1".to_string()]);
    assert_eq!(state.guild(&"g".to_string()).unwrap().name, "Guild_g");
    assert_eq!(*state.player_guild(&"q".to_string()).unwrap(), "g");
    assert_eq!(state.world_region(), "world1");
    let again = state.into_snapshot();
    assert_eq!(again.guilds.len(), 1);
    assert_eq!(again.player_guilds.len(), 2);
}

#[test]
fn restore_refuses_a_repeated_key() {
    let mut snapshot = empty_game();
    let data = PlayerData {
        health: 1,
        max_health: 1,
        strength: 1,
        wisdomness: 1,
        benchpress: 1,
        curl: 1,
        experience: 1,
        level: 1,
    };
    snapshot.player_states = vec![("p".to_string(), data), ("q".to_string(), data)];
    assert!(RpgGameState::restore(snapshot).is_some());
    let mut snapshot = empty_game();
    snapshot.player_states = vec![("p".to_string(), data), ("q".to_string(), data), ("p".to_string(), data)];
    assert!(RpgGameState::restore(snapshot).is_none());
}

#[test]
fn restore_refuses_a_guild_with_a_repeated_member() {
    let guild = |members: Vec<&str>| GuildData {
        id: "g".to_string(),
        name: "Guild_g".to_string(),
        members: members.into_iter().map(|m| m.to_string()).collect(),
        resources: 0,
        level: 1,
    };
    let mut snapshot = empty_game();
    snapshot.guilds = vec![("g".to_string(), guild(vec!["p", "q", "r"]))];
    assert!(RpgGameState::restore(snapshot).is_some());
    let mut snapshot = empty_game();
    snapshot.guilds = vec![("g".to_string(), guild(vec!["p", "q", "p"]))];
    assert!(RpgGameState::restore(snapshot).is_none());
}

#[test]
fn restore_refuses_battles_that_are_out_of_place() {
    let record = |id: &str, opponent: &str| BattleRecord {
        battle_id: id.to_string(),
        player_id: "p".to_string(),
        opponent: opponent.to_string(),
        result: 1,
        damage_dealt: 1,
        damage_taken: 1,
        experience_gained: 1,
        timestamp: 1,
    };
    let history = |ids: Vec<&str>| {
        vec![("p".to_string(), ids.into_iter().map(|id| id.to_string()).collect::<Vec<String>>())]
    };
    let mut snapshot = empty_game();
    snapshot.battle_records = vec![("b1".to_string(), record("b1", "troll"))];
    snapshot.battle_facts =
        vec![("b1".to_string(), vec![record("b1", "orc"), record("b1", "troll")])];
    snapshot.player_battles = history(vec!["b1", "b1"]);
    assert!(RpgGameState::restore(snapshot).is_some());

    // the record is not the fact that was recorded last
    let mut snapshot = empty_game();
    snapshot.battle_records = vec![("b1".to_string(), record("b1", "orc"))];
    snapshot.battle_facts =
        vec![("b1".to_string(), vec![record("b1", "orc"), record("b1", "troll")])];
    snapshot.player_battles = history(vec!["b1", "b1"]);
    assert!(RpgGameState::restore(snapshot).is_none());

    // a record without any fact
    let mut snapshot = empty_game();
    snapshot.battle_records = vec![("b1".to_string(), record("b1", "orc"))];
    snapshot.player_battles = history(vec!["b1"]);
    assert!(RpgGameState::restore(snapshot).is_none());

    // a fact whose id is not in its player's history
    let mut snapshot = empty_game();
    snapshot.battle_facts = vec![("b1".to_string(), vec![record("b1", "orc")])];
    snapshot.player_battles = history(vec!["b2"]);
    assert!(RpgGameState::restore(snapshot).is_none());

    // a fact under another id
    let mut snapshot = empty_game();
    snapshot.battle_facts = vec![("b1".to_string(), vec![record("other", "orc")])];
    snapshot.player_battles = history(vec!["b1", "other"]);
    assert!(RpgGameState::restore(snapshot).is_none());

    // the same fact twice, at different times
    let mut later = record("b1", "orc");
    later.timestamp = 9;
    let mut snapshot = empty_game();
    snapshot.battle_facts = vec![("b1".to_string(), vec![record("b1", "orc"), later])];
    snapshot.player_battles = history(vec!["b1"]);
    assert!(RpgGameState::restore(snapshot).is_none());
}

fn busy_hub() -> HubState {
    let runtime = HubRuntime { system_time: 3, parameters: HubParameters { max_achievements: 9 } };
    let mut hub = RpgHubContract::load(HubState::new(), runtime);
    for (player, achievement, chain) in [("x", "a1", "C1"), ("y", "a1", "C1"), ("x", "a2", "C2")] {
        assert_eq!(
            hub.execute_operation(HubOperation::SubmitAchievement {
                player_id: player.to_string(),
                achievement_id: achievement.to_string(),
                chain_id: ChainId::new(chain.to_string()),
                timestamp: 5,
                metadata: "{}".to_string(),
            }),
            Ok(())
        );
    }
    assert_eq!(
        hub.execute_operation(HubOperation::RegisterWorldChain {
            chain_id: ChainId::new("C1".to_string()),
            world_region: "north".to_string(),
        }),
        Ok(())
    );
    hub.store()
}

#[test]
fn hub_is_restored_from_its_snapshot() {
    let snapshot = busy_hub().into_snapshot();
    assert_eq!(snapshot.total_achievements, 3);
    assert_eq!(snapshot.total_chains, 1);
    assert_eq!(snapshot.all_achievements.len(), 2);
    assert_eq!(snapshot.player_achievements.len(), 2);
    let hub = HubState::restore(snapshot).unwrap();
    assert_eq!(hub.total_achievements_count(), 3);
    assert_eq!(hub.world_chains_count(), 1);
    assert_eq!(hub.player_achievements(&"x".to_string()).unwrap().len(), 2);
    assert_eq!(hub.achievement_records(&"a1".to_string()).unwrap().len(), 2);
}

#[test]
fn restore_refuses_a_register_that_disagrees_with_the_registrations() {
    let info = |region: &str| WorldChainInfo {
        world_region: region.to_string(),
        registration_timestamp: 1,
        active: true,
    };
    let regions = |list: Vec<&str>| list.into_iter().map(|r| r.to_string()).collect::<Vec<String>>();
    let mut snapshot = busy_hub().into_snapshot();
    assert_eq!(snapshot.registrations, vec![("C1".to_string(), regions(vec!["north"]))]);
    snapshot.world_chains = vec![("C1".to_string(), info("east"))];
    snapshot.registrations = vec![("C1".to_string(), regions(vec!["north", "east"]))];
    assert!(HubState::restore(snapshot).is_some());

    let mut snapshot = busy_hub().into_snapshot();
    snapshot.world_chains = vec![("C1".to_string(), info("north"))];
    snapshot.registrations = vec![("C1".to_string(), regions(vec!["north", "east"]))];
    assert!(HubState::restore(snapshot).is_none());

    let mut snapshot = busy_hub().into_snapshot();
    snapshot.registrations = vec![];
    assert!(HubState::restore(snapshot).is_none());

    let mut snapshot = busy_hub().into_snapshot();
    snapshot.registrations = vec![("C1".to_string(), regions(vec!["north", "east", "north"]))];
    assert!(HubState::restore(snapshot).is_none());

    let mut snapshot = busy_hub().into_snapshot();
    snapshot.world_chains.push(("C2".to_string(), info("south")));
    assert!(HubState::restore(snapshot).is_none());

    // registrations noted for a ledger that is not in the register
    let mut snapshot = busy_hub().into_snapshot();
    snapshot.registrations.push(("C2".to_string(), regions(vec!["south"])));
    assert!(HubState::restore(snapshot).is_none());
    let mut snapshot = busy_hub().into_snapshot();
    snapshot.registrations.push(("C2".to_string(), regions(vec![])));
    assert!(HubState::restore(snapshot).is_none());
    let mut snapshot = busy_hub().into_snapshot();
    snapshot.registrations.push(("C2".to_string(), regions(vec!["south"])));
    snapshot.world_chains.push(("C2".to_string(), info("south")));
    assert!(HubState::restore(snapshot).is_some());
}

#[test]
fn restore_refuses_a_hub_whose_lists_disagree() {
    let entry = || PlayerAchievement {
        achievement_id: "a1".to_string(),
        chain_id: ChainId::new("C1".to_string()),
        timestamp: 5,
        metadata: "{}".to_string(),
    };
    let record = |player: &str| AchievementRecord {
        achievement_id: "a1".to_string(),
        player_id: player.to_string(),
        chain_id: ChainId::new("C1".to_string()),
        timestamp: 5,
        metadata: "{}".to_string(),
    };
    let hub = |entries: Vec<(String, Vec<PlayerAchievement>)>, records: Vec<(String, Vec<AchievementRecord>)>| HubSnapshot {
        player_achievements: entries,
        world_chains: vec![],
        registrations: vec![],
        all_achievements: records,
        total_chains: 0,
        total_achievements: 1,
    };
    assert!(HubState::restore(hub(
        vec![("x".to_string(), vec![entry()])],
        vec![("a1".to_string(), vec![record("x")])],
    ))
    .is_some());
    assert!(HubState::restore(hub(vec![("x".to_string(), vec![entry()])], vec![])).is_none());
    assert!(HubState::restore(hub(vec![], vec![("a1".to_string(), vec![record("x")])])).is_none());
    assert!(HubState::restore(hub(
        vec![("x".to_string(), vec![entry()])],
        vec![("a1".to_string(), vec![record("y")])],
    ))
    .is_none());
    assert!(HubState::restore(hub(
        vec![("x".to_string(), vec![entry()])],
        vec![("a2".to_string(), vec![record("x")])],
    ))
    .is_none());
    assert!(HubState::restore(hub(
        vec![("x".to_string(), vec![entry(), entry()])],
        vec![("a1".to_string(), vec![record("x")])],
    ))
    .is_none());
    assert!(HubState::restore(hub(
        vec![("x".to_string(), vec![entry()])],
        vec![("a1".to_string(), vec![record("x"), record("x")])],
    ))
    .is_none());
}
