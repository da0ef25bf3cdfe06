use rpg_game::{
    ChainId, DecodeField, HubMessage, HubOperation, HubParameters, HubRuntime, HubState,
    LedgerError, RpgHubContract, RpgHubService, StoreCause,
};

fn hub(time: u64) -> RpgHubContract {
    let runtime = HubRuntime { system_time: time, parameters: HubParameters { max_achievements: 100 } };
    let mut contract = RpgHubContract::load(HubState::new(), runtime);
    assert!(contract.instantiate(100));
    contract
}

fn submit(player: &str, achievement: &str, chain: &str, timestamp: u64, metadata: &str) -> HubOperation {
    HubOperation::SubmitAchievement {
        player_id: player.to_string(),
        achievement_id: achievement.to_string(),
        chain_id: ChainId::new(chain.to_string()),
        timestamp,
        metadata: metadata.to_string(),
    }
}

#[test]
fn redelivered_achievement_is_counted_once() {
    let mut h = hub(10);
    assert_eq!(h.execute_operation(submit("x", "ach1", "C1", 42, r#"{"stars":3}"#)), Ok(()));
    assert_eq!(
        h.execute_operation(submit("x", "ach1", "C1", 42, r#"{"stars":3}"#)),
        Err(LedgerError::Duplicate)
    );
    assert_eq!(
        h.execute_message(HubMessage::AchievementSubmitted {
            player_id: "x".to_string(),
            achievement_id: "ach1".to_string(),
            chain_id: ChainId::new("C1".to_string()),
            timestamp: 42,
            metadata: r#"{"stars":3}"#.to_string(),
        }),
        Err(LedgerError::Duplicate)
    );
    assert_eq!(h.state.total_achievements_count(), 1);
    let entries = h.state.player_achievements(&"x".to_string()).unwrap();
    assert_eq!(entries.len(), 1);
    assert_eq!(entries[0].achievement_id, "ach1");
    assert_eq!(entries[0].chain_id, ChainId::new("C1".to_string()));
    assert_eq!(entries[0].timestamp, 42);
    assert_eq!(entries[0].metadata, r#"{"stars":3}"#);
    let records = h.state.achievement_records(&"ach1".to_string()).unwrap();
    assert_eq!(records.len(), 1);
    assert_eq!(records[0].player_id, "x");
}

#[test]
fn distinct_submissions_are_all_taken_in() {
    let mut h = hub(10);
    assert_eq!(h.execute_operation(submit("x", "ach1", "C1", 1, "{}")), Ok(()));
    assert_eq!(h.execute_operation(submit("x", "ach1", "C2", 1, "{}")), Ok(()));
    assert_eq!(h.execute_operation(submit("y", "ach1", "C1", 1, "{}")), Ok(()));
    assert_eq!(h.execute_operation(submit("x", "ach2", "C1", 1, "{}")), Ok(()));
    assert_eq!(h.execute_operation(submit("x", "ach1", "C1", 2, "{}")), Ok(()));
    assert_eq!(h.execute_operation(submit("x", "ach1", "C1", 1, "[]")), Ok(()));
    assert_eq!(h.execute_operation(submit("x", "ach1", "C2", 1, "{}")), Err(LedgerError::Duplicate));
    assert_eq!(h.state.total_achievements_count(), 6);
    assert_eq!(h.state.player_achievements(&"x".to_string()).unwrap().len(), 5);
    assert_eq!(h.state.player_achievements(&"y".to_string()).unwrap().len(), 1);
    assert_eq!(h.state.achievement_records(&"ach1".to_string()).unwrap().len(), 5);
    assert_eq!(h.state.achievement_records(&"ach2".to_string()).unwrap().len(), 1);
    let order: Vec<&str> = h
        .state
        .achievement_records(&"ach1".to_string())
        .unwrap()
        .iter()
        .map(|r| r.chain_id.name.as_str())
        .collect();
    assert_eq!(order, vec!["C1", "C2", "C1", "C1", "C1"]);
}

#[test]
fn malformed_metadata_is_a_decode_error() {
    let mut h = hub(10);
    for bad in ["", "{", "stars: 3", "[1,]"] {
        assert_eq!(
            h.execute_operation(submit("x", "ach1", "C1", 1, bad)),
            Err(LedgerError::DecodeError { field: DecodeField::Metadata }),
            "metadata {:?}",
            bad
        );
    }
    assert_eq!(h.state.total_achievements_count(), 0);
    assert!(h.state.player_achievements(&"x".to_string()).is_none());
    assert!(h.state.achievement_records(&"ach1".to_string()).is_none());
    assert_eq!(h.execute_operation(submit("x", "ach1", "C1", 1, "null")), Ok(()));
    assert_eq!(h.state.total_achievements_count(), 1);
}

#[test]
fn registration_is_counted_once_for_each_ledger_and_region() {
    let mut h = hub(10);
    let register = |chain: &str, region: &str| HubOperation::RegisterWorldChain {
        chain_id: ChainId::new(chain.to_string()),
        world_region: region.to_string(),
    };
    assert_eq!(h.execute_operation(register("C1", "north")), Ok(()));
    assert_eq!(h.state.world_chains_count(), 1);
    h.runtime.system_time = 20;
    assert_eq!(h.execute_operation(register("C1", "north")), Err(LedgerError::Duplicate));
    assert_eq!(
        h.execute_message(HubMessage::WorldChainRegistered {
            chain_id: ChainId::new("C1".to_string()),
            world_region: "north".to_string(),
        }),
        Err(LedgerError::Duplicate)
    );
    assert_eq!(h.state.world_chains_count(), 1);
    let info = h.state.world_chain_info(&ChainId::new("C1".to_string())).unwrap();
    assert_eq!(info.world_region, "north");
    assert_eq!(info.registration_timestamp, 10);
    assert!(info.active);

    h.runtime.system_time = 30;
    assert_eq!(h.execute_operation(register("C2", "south")), Ok(()));
    assert_eq!(h.state.world_chains_count(), 2);
    h.runtime.system_time = 40;
    assert_eq!(h.execute_operation(register("C1", "east")), Ok(()));
    assert_eq!(h.state.world_chains_count(), 3);
    h.runtime.system_time = 50;
    assert_eq!(h.execute_operation(register("C1", "north")), Err(LedgerError::Duplicate));
    assert_eq!(h.execute_operation(register("C1", "east")), Err(LedgerError::Duplicate));
    assert_eq!(h.state.world_chains_count(), 3);
    let info = h.state.world_chain_info(&ChainId::new("C1".to_string())).unwrap();
    assert_eq!(info.world_region, "east");
    assert_eq!(info.registration_timestamp, 40);
    assert_eq!(
        *h.state.registrations(&ChainId::new("C1".to_string())).unwrap(),
        vec!["north".to_string(), "east".to_string()]
    );
    assert!(h.state.world_chain_info(&ChainId::new("C3".to_string())).is_none());
    assert!(h.state.registrations(&ChainId::new("C3".to_string())).is_none());
}

#[test]
fn hub_starts_empty_and_reports_a_parameter_mismatch() {
    let runtime = HubRuntime { system_time: 1, parameters: HubParameters { max_achievements: 5 } };
    let mut h = RpgHubContract::load(HubState::new(), runtime);
    assert!(!h.instantiate(6));
    assert!(h.instantiate(5));
    assert_eq!(h.state.world_chains_count(), 0);
    assert_eq!(h.state.total_achievements_count(), 0);
    assert_eq!(h.runtime, runtime);
}

#[test]
fn instantiate_sets_the_counters_to_zero_and_keeps_what_the_hub_holds() {
    let mut h = hub(10);
    assert_eq!(h.execute_operation(submit("x", "ach1", "C1", 1, "{}")), Ok(()));
    assert_eq!(h.execute_operation(submit("x", "ach2", "C1", 2, "{}")), Ok(()));
    assert_eq!(
        h.execute_operation(HubOperation::RegisterWorldChain {
            chain_id: ChainId::new("C1".to_string()),
            world_region: "north".to_string(),
        }),
        Ok(())
    );
    assert_eq!(h.state.total_achievements_count(), 2);
    assert_eq!(h.state.world_chains_count(), 1);

    assert!(!h.instantiate(7));
    assert_eq!(h.state.total_achievements_count(), 0);
    assert_eq!(h.state.world_chains_count(), 0);
    assert_eq!(h.state.player_achievements(&"x".to_string()).unwrap().len(), 2);
    assert_eq!(h.state.achievement_records(&"ach1".to_string()).unwrap().len(), 1);
    assert_eq!(h.state.achievement_records(&"ach2".to_string()).unwrap().len(), 1);
    let info = h.state.world_chain_info(&ChainId::new("C1".to_string())).unwrap();
    assert_eq!(info.world_region, "north");
    assert_eq!(info.registration_timestamp, 10);
    assert_eq!(
        *h.state.registrations(&ChainId::new("C1".to_string())).unwrap(),
        vec!["north".to_string()]
    );
    assert_eq!(
        h.execute_operation(submit("x", "ach1", "C1", 1, "{}")),
        Err(LedgerError::Duplicate)
    );
    assert_eq!(h.execute_operation(submit("y", "ach1", "C1", 1, "{}")), Ok(()));
    assert_eq!(h.state.total_achievements_count(), 1);
}

#[test]
fn a_fact_on_the_hub_is_a_duplicate_whatever_its_metadata() {
    let record = |metadata: &str| rpg_game::AchievementRecord {
        achievement_id: "ach1".to_string(),
        player_id: "x".to_string(),
        chain_id: ChainId::new("C1".to_string()),
        timestamp: 1,
        metadata: metadata.to_string(),
    };
    let snapshot = rpg_game::HubSnapshot {
        player_achievements: vec![(
            "x".to_string(),
            vec![rpg_game::PlayerAchievement {
                achievement_id: "ach1".to_string(),
                chain_id: ChainId::new("C1".to_string()),
                timestamp: 1,
                metadata: "no json".to_string(),
            }],
        )],
        world_chains: vec![],
        registrations: vec![],
        all_achievements: vec![("ach1".to_string(), vec![record("no json")])],
        total_chains: 0,
        total_achievements: 1,
    };
    let runtime = HubRuntime { system_time: 1, parameters: HubParameters { max_achievements: 1 } };
    let mut h = RpgHubContract::load(HubState::restore(snapshot).unwrap(), runtime);
    assert_eq!(
        h.execute_operation(submit("x", "ach1", "C1", 1, "no json")),
        Err(LedgerError::Duplicate)
    );
    assert_eq!(
        h.execute_operation(submit("x", "ach1", "C1", 1, "not this either")),
        Err(LedgerError::DecodeError { field: DecodeField::Metadata })
    );
    assert_eq!(h.state.total_achievements_count(), 1);
    assert_eq!(h.state.achievement_records(&"ach1".to_string()).unwrap().len(), 1);
}

#[test]
fn submission_with_metadata_read_already() {
    let record = |player: &str| rpg_game::AchievementRecord {
        achievement_id: "ach1".to_string(),
        player_id: player.to_string(),
        chain_id: ChainId::new("C1".to_string()),
        timestamp: 1,
        metadata: "anything".to_string(),
    };
    let mut state = HubState::new();
    assert_eq!(
        state.submit_checked(record("x"), false),
        Err(LedgerError::DecodeError { field: DecodeField::Metadata })
    );
    assert_eq!(state.total_achievements_count(), 0);
    assert!(state.achievement_records(&"ach1".to_string()).is_none());
    assert_eq!(state.submit_checked(record("x"), true), Ok(()));
    assert_eq!(state.submit_checked(record("x"), true), Err(LedgerError::Duplicate));
    assert_eq!(state.submit_checked(record("x"), false), Err(LedgerError::Duplicate));
    assert_eq!(state.submit_checked(record("y"), true), Ok(()));
    assert_eq!(state.total_achievements_count(), 2);
    let records = state.achievement_records(&"ach1".to_string()).unwrap();
    assert_eq!(records.len(), 2);
    assert_eq!(records[0].player_id, "x");
    assert_eq!(records[1].player_id, "y");
    assert_eq!(state.player_achievements(&"x".to_string()).unwrap().len(), 1);
    assert_eq!(state.player_achievements(&"x".to_string()).unwrap()[0].metadata, "anything");
    state.reset_counters();
    assert_eq!(state.total_achievements_count(), 0);
    assert_eq!(state.achievement_records(&"ach1".to_string()).unwrap().len(), 2);
}

#[test]
fn hub_service_answers_from_the_state() {
    let mut h = hub(10);
    let operation = RpgHubService::submit_achievement(
        "x".to_string(),
        "ach1".to_string(),
        ChainId::new("C1".to_string()),
        7,
        "{}".to_string(),
    );
    assert_eq!(operation, submit("x", "ach1", "C1", 7, "{}"));
    assert_eq!(h.execute_operation(operation), Ok(()));
    let operation = RpgHubService::register_world_chain(ChainId::new("C1".to_string()), "north".to_string());
    assert_eq!(
        operation,
        HubOperation::RegisterWorldChain {
            chain_id: ChainId::new("C1".to_string()),
            world_region: "north".to_string(),
        }
    );
    assert_eq!(h.execute_operation(operation), Ok(()));
    let service = RpgHubService::new(h.store());
    assert_eq!(service.total_achievements_count(), 1);
    assert_eq!(service.world_chains_count(), 1);
    assert_eq!(service.player_achievements(&"x".to_string()).unwrap().len(), 1);
    assert_eq!(service.achievement_records(&"ach1".to_string()).unwrap()[0].timestamp, 7);
    assert_eq!(
        service.world_chain_info(&ChainId::new("C1".to_string())).unwrap().world_region,
        "north"
    );
    assert!(service.player_achievements(&"y".to_string()).is_none());
}

#[test]
fn exhausted_counters_refuse_what_is_new() {
    let snapshot = rpg_game::HubSnapshot {
        player_achievements: vec![],
        world_chains: vec![],
        registrations: vec![],
        all_achievements: vec![],
        total_chains: u64::MAX,
        total_achievements: u64::MAX,
    };
    let runtime = HubRuntime { system_time: 1, parameters: HubParameters { max_achievements: 1 } };
    let mut h = RpgHubContract::load(HubState::restore(snapshot).unwrap(), runtime);
    assert_eq!(
        h.execute_operation(submit("x", "ach1", "C1", 1, "{}")),
        Err(LedgerError::StoreError { cause: StoreCause::CounterExhausted })
    );
    assert_eq!(h.state.total_achievements_count(), u64::MAX);
    assert!(h.state.player_achievements(&"x".to_string()).is_none());
    assert_eq!(
        h.execute_operation(submit("x", "ach1", "C1", 1, "{")),
        Err(LedgerError::DecodeError { field: DecodeField::Metadata })
    );
    assert_eq!(
        h.execute_operation(HubOperation::RegisterWorldChain {
            chain_id: ChainId::new("C1".to_string()),
            world_region: "north".to_string(),
        }),
        Err(LedgerError::StoreError { cause: StoreCause::CounterExhausted })
    );
    assert_eq!(h.state.world_chains_count(), u64::MAX);
    assert!(h.state.world_chain_info(&ChainId::new("C1".to_string())).is_none());
}

#[test]
fn every_refusal_has_its_sentence() {
    let all = [
        (LedgerError::DecodeError { field: DecodeField::Inventory }, "malformed inventory payload"),
        (LedgerError::DecodeError { field: DecodeField::Quests }, "malformed quest payload"),
        (LedgerError::DecodeError { field: DecodeField::Metadata }, "malformed achievement metadata"),
        (LedgerError::StoreError { cause: StoreCause::CounterExhausted }, "counter exhausted"),
        (LedgerError::StoreError { cause: StoreCause::Persistence }, "persistence failure"),
        (LedgerError::Duplicate, "fact already recorded"),
        (LedgerError::ChannelUnavailable, "message channel unavailable"),
    ];
    for (error, sentence) in all {
        assert_eq!(error.describe(), sentence);
    }
}
