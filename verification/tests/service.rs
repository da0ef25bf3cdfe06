use rpg_game::table::Table;
use rpg_game::{
    ChainId, Envelope, Outbox, Parameters, PlayerState, RpgGameContract, RpgGameMessage,
    RpgGameOperation, RpgGameService, RpgGameState, Runtime,
};

#[test]
fn mutations_build_the_operations() {
    assert_eq!(
        RpgGameService::save_player_state("p".to_string(), 1, 2, 3, 4, 5, 6, 7, 8),
        RpgGameOperation::SavePlayerState {
            player_id: "p".to_string(),
            health: 1,
            max_health: 2,
            strength: 3,
            wisdomness: 4,
            benchpress: 5,
            curl: 6,
            experience: 7,
            level: 8,
        }
    );
    assert_eq!(
        RpgGameService::transfer_player(
            "p".to_string(),
            ChainId::new("B".to_string()),
            1,
            2,
            3,
            4,
            5,
            6,
            7,
            8,
            "[]".to_string(),
            "[1]".to_string(),
            "token".to_string(),
        ),
        RpgGameOperation::TransferPlayer {
            player_id: "p".to_string(),
            destination_chain: ChainId::new("B".to_string()),
            player_state: PlayerState {
                health: 1,
                max_health: 2,
                strength: 3,
                wisdomness: 4,
                benchpress: 5,
                curl: 6,
                experience: 7,
                level: 8,
            },
            inventory: "[]".to_string(),
            quests: "[1]".to_string(),
            auth_token: "token".to_string(),
        }
    );
    assert_eq!(
        RpgGameService::save_inventory("p".to_string(), "[]".to_string()),
        RpgGameOperation::SaveInventory { player_id: "p".to_string(), inventory: "[]".to_string() }
    );
    assert_eq!(
        RpgGameService::save_quests("p".to_string(), "[]".to_string()),
        RpgGameOperation::SaveQuests { player_id: "p".to_string(), quests: "[]".to_string() }
    );
    assert_eq!(
        RpgGameService::join_guild("p".to_string(), "g".to_string(), ChainId::new("B".to_string())),
        RpgGameOperation::JoinGuild {
            player_id: "p".to_string(),
            guild_id: "g".to_string(),
            chain_id: ChainId::new("B".to_string()),
        }
    );
    assert_eq!(
        RpgGameService::record_battle("b".to_string(), "p".to_string(), "orc".to_string(), 1, 2, 3, 4),
        RpgGameOperation::RecordBattle {
            battle_id: "b".to_string(),
            player_id: "p".to_string(),
            opponent: "orc".to_string(),
            player_result: 1,
            damage_dealt: 2,
            damage_taken: 3,
            experience_gained: 4,
        }
    );
}

#[test]
fn queries_answer_from_the_state() {
    let runtime = Runtime::new(
        ChainId::new("A".to_string()),
        77,
        Parameters { world_region: "world1".to_string() },
        4,
    );
    let mut contract = RpgGameContract::load(RpgGameState::new("world1".to_string()), runtime);
    let p = "p".to_string();
    for operation in [
        RpgGameService::save_player_state(p.clone(), 9, 10, 3, 4, 5, 6, 7, 8),
        RpgGameService::save_inventory(
            p.clone(),
            r#"[{"slot":"hand","item_id":"axe","params":{"sharp":true}}]"#.to_string(),
        ),
        RpgGameService::save_quests(
            p.clone(),
            r#"[{"id":"q1","title":"T","text":"X","completed":true,"progress":3}]"#.to_string(),
        ),
        RpgGameService::record_battle("b".to_string(), p.clone(), "orc".to_string(), 1, 2, 3, 4),
    ] {
        assert_eq!(contract.execute_operation(operation), Ok(()));
    }
    let service = RpgGameService::new(contract.store());
    assert_eq!(service.player_state(&p).unwrap().health, 9);
    assert_eq!(service.player_state(&p).unwrap().level, 8);
    assert!(service.player_state(&"nobody".to_string()).is_none());
    assert_eq!(service.inventory(&p).unwrap().items[0].item_id, "axe");
    assert_eq!(service.quests(&p).unwrap()[0].title, "T");
    assert!(service.quests(&p).unwrap()[0].completed);
    let record = service.battle_record(&"b".to_string()).unwrap();
    assert_eq!(record.result, 1);
    assert_eq!(record.timestamp, 77);
    assert_eq!(*service.player_battles(&p).unwrap(), vec!["b".to_string()]);
    assert!(service.guild(&"g".to_string()).is_none());
    assert!(service.player_guild(&p).is_none());
    assert_eq!(service.world_region(), "world1");
}

#[test]
fn table_keeps_one_value_per_key() {
    let mut table: Table<String> = Table::new();
    assert_eq!(table.len(), 0);
    assert!(table.get(&"a".to_string()).is_none());
    table.insert("a".to_string(), "1".to_string());
    table.insert("b".to_string(), "2".to_string());
    table.insert("a".to_string(), "3".to_string());
    assert_eq!(table.len(), 2);
    assert!(table.contains_key(&"a".to_string()));
    assert!(!table.contains_key(&"c".to_string()));
    assert_eq!(table.get(&"a".to_string()).unwrap(), "3");
    assert_eq!(table.get(&"b".to_string()).unwrap(), "2");
    assert_eq!(table.remove(&"a".to_string()), Some("3".to_string()));
    assert_eq!(table.remove(&"a".to_string()), None);
    assert_eq!(table.len(), 1);
    assert_eq!(table.get(&"b".to_string()).unwrap(), "2");
    assert!(table.get(&"a".to_string()).is_none());
}

#[test]
fn outbox_keeps_the_order_and_its_limit() {
    let envelope = |player: &str| Envelope {
        destination: ChainId::new("B".to_string()),
        message: RpgGameMessage::GuildJoinRequest {
            player_id: player.to_string(),
            guild_id: "g".to_string(),
        },
    };
    let mut outbox = Outbox::new(2);
    assert!(outbox.is_open());
    assert_eq!(outbox.send(envelope("p")), None);
    assert_eq!(outbox.send(envelope("q")), None);
    assert!(!outbox.is_open());
    assert_eq!(outbox.send(envelope("r")), Some(envelope("r")));
    assert_eq!(outbox.len(), 2);
    assert_eq!(outbox.drain(), vec![envelope("p"), envelope("q")]);
    assert_eq!(outbox.len(), 0);
    assert!(outbox.is_open());
    let mut closed = Outbox::new(0);
    assert!(!closed.is_open());
    assert_eq!(closed.send(envelope("p")), Some(envelope("p")));
    assert!(closed.drain().is_empty());
}

#[test]
fn chain_ids_are_told_apart_by_name() {
    let a = ChainId::new("A".to_string());
    assert!(a.same(&a.duplicate()));
    assert!(!a.same(&ChainId::new("B".to_string())));
    assert_eq!(a.duplicate().name, "A");
    let state = PlayerState {
        health: 1,
        max_health: 2,
        strength: 3,
        wisdomness: 4,
        benchpress: 5,
        curl: 6,
        experience: 7,
        level: 8,
    };
    let data = state.to_data();
    assert_eq!(
        (data.health, data.max_health, data.strength, data.wisdomness),
        (1, 2, 3, 4)
    );
    assert_eq!((data.benchpress, data.curl, data.experience, data.level), (5, 6, 7, 8));
}
