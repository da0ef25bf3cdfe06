use rpg_game::payload::{decode_inventory, decode_quests};

#[test]
fn inventory_of_two_objects_is_decoded() {
    let text = r#"[{"slot":"weapon","item_id":"sword1","params":{}},{"slot":"armor","item_id":"shield1","params":{"tier":2}}]"#;
    let items = decode_inventory(text).unwrap();
    assert_eq!(items.len(), 2);
    assert_eq!(items[0].slot, "weapon");
    assert_eq!(items[0].item_id, "sword1");
    assert_eq!(items[1].slot, "armor");
    assert_eq!(items[1].params.get("tier").and_then(|t| t.as_u64()), Some(2));
}

#[test]
fn inventory_in_array_form_is_decoded() {
    let items = decode_inventory(r#"[["weapon","sword1",null]]"#).unwrap();
    assert_eq!(items.len(), 1);
    assert_eq!(items[0].item_id, "sword1");
    assert!(items[0].params.is_null());
    assert!(decode_inventory(r#"[["weapon","sword1"]]"#).is_none());
    assert!(decode_inventory(r#"[["weapon","sword1",null,null]]"#).is_none());
}

#[test]
fn malformed_inventory_is_refused() {
    assert!(decode_inventory("not json").is_none());
    assert!(decode_inventory("").is_none());
    assert!(decode_inventory(r#"{"slot":"weapon"}"#).is_none());
    assert!(decode_inventory(r#"[{"slot":"weapon","item_id":"sword1"}]"#).is_none());
    assert!(decode_inventory(r#"[{"slot":1,"item_id":"sword1","params":{}}]"#).is_none());
    assert!(decode_inventory(r#"[{"slot":"weapon","item_id":"sword1","params":{}},7]"#).is_none());
}

#[test]
fn empty_inventory_is_decoded() {
    assert_eq!(decode_inventory("[]").unwrap().len(), 0);
    assert_eq!(decode_quests(" [ ] ").unwrap().len(), 0);
}

#[test]
fn quests_are_decoded() {
    let text = r#"[{"id":"quest1","title":"First Quest","text":"Complete the first quest","completed":false,"progress":0,"extra":true}]"#;
    let quests = decode_quests(text).unwrap();
    assert_eq!(quests.len(), 1);
    assert_eq!(quests[0].id, "quest1");
    assert_eq!(quests[0].title, "First Quest");
    assert_eq!(quests[0].text, "Complete the first quest");
    assert!(!quests[0].completed);
    assert_eq!(quests[0].progress, 0);
}

#[test]
fn quest_progress_must_be_an_unsigned_integer() {
    let ok = r#"[{"id":"q","title":"t","text":"x","completed":true,"progress":18446744073709551615}]"#;
    assert_eq!(decode_quests(ok).unwrap()[0].progress, u64::MAX);
    for bad in ["-1", "1.5", "18446744073709551616", "\"3\"", "null"] {
        let text = format!(
            r#"[{{"id":"q","title":"t","text":"x","completed":true,"progress":{}}}]"#,
            bad
        );
        assert!(decode_quests(&text).is_none(), "progress {}", bad);
    }
}

#[test]
fn quest_completed_must_be_a_boolean() {
    let text = r#"[{"id":"q","title":"t","text":"x","completed":1,"progress":2}]"#;
    assert!(decode_quests(text).is_none());
    let seq = r#"[["q","t","x",true,5]]"#;
    let quests = decode_quests(seq).unwrap();
    assert!(quests[0].completed);
    assert_eq!(quests[0].progress, 5);
}

#[test]
fn repeated_key_counts_by_its_last_occurrence() {
    let items = decode_inventory(r#"[{"slot":"a","slot":"b","item_id":"i","params":1,"params":2}]"#)
        .unwrap();
    assert_eq!(items[0].slot, "b");
    assert_eq!(items[0].params.as_u64(), Some(2));
}

#[test]
fn params_are_carried_as_they_are() {
    let text = r#"[{"params":{"nested":[1,-2,3.5,"x",null,true,{"deep":[]}]},"item_id":"i","slot":"s"}]"#;
    let items = decode_inventory(text).unwrap();
    assert_eq!(
        items[0].params.to_string(),
        r#"{"nested":[1,-2,3.5,"x",null,true,{"deep":[]}]}"#
    );
    assert_eq!(items[0].slot, "s");
}

#[test]
fn text_around_the_payload_is_refused() {
    assert!(decode_inventory("[] []").is_none());
    assert!(decode_inventory("[],").is_none());
    assert!(decode_quests("[] x").is_none());
    assert_eq!(decode_inventory("\n\t[ ]\n").unwrap().len(), 0);
}

#[test]
fn strings_are_unescaped() {
    let quests = decode_quests(
        r#"[{"id":"q1","title":"a \"b\"","text":"line\nbreak é","completed":false,"progress":7}]"#,
    )
    .unwrap();
    assert_eq!(quests[0].id, "q1");
    assert_eq!(quests[0].title, "a \"b\"");
    assert_eq!(quests[0].text, "line\nbreak é");
}
