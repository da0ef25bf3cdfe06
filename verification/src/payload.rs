//! Decoding of the JSON payloads that carry an inventory or a quest log.
//!
//! A payload is a JSON array. Each element stands for one record and is
//! either an object that names the record's fields (other members are
//! ignored; where a key is repeated, the last occurrence counts) or an array
//! that lists exactly the record's fields in their order.

use vstd::prelude::*;
use crate::json::{
    json_parse, json_tree, json_trees, parse_value, value_bool, value_elements, value_member,
    value_text, value_unsigned, Json, JsonNumber,
};
use crate::state::{InventoryItem, ItemModel, QuestData, QuestModel};

verus! {

/// The part of a record that is called `key` in the object form and stands
/// at `position` in the array form of `arity` fields.
pub open spec fn part_of(record: Json, key: Seq<char>, position: int, arity: nat) -> Option<Json> {
    match record {
        Json::Array(parts) => if parts.len() == arity && 0 <= position < arity {
            Some(parts[position])
        } else {
            None
        },
        Json::Object(members) => if members.contains_key(key) {
            Some(members[key])
        } else {
            None
        },
        _ => None,
    }
}

/// The text of a part that is present and a JSON string.
pub open spec fn text_part(part: Option<Json>) -> Option<Seq<char>> {
    match part {
        Some(Json::Text(text)) => Some(text),
        _ => None,
    }
}

/// The number of a part that is present and a non-negative integer of 64 bits.
pub open spec fn unsigned_part(part: Option<Json>) -> Option<u64> {
    match part {
        Some(Json::Number(JsonNumber::Unsigned(n))) => Some(n),
        _ => None,
    }
}

/// The truth value of a part that is present and a JSON boolean.
pub open spec fn bool_part(part: Option<Json>) -> Option<bool> {
    match part {
        Some(Json::Bool(b)) => Some(b),
        _ => None,
    }
}

/// The inventory item that a JSON record stands for, if it stands for one:
/// `slot` and `item_id` are strings, `params` is any JSON value.
pub open spec fn item_of(record: Json) -> Option<ItemModel> {
    let slot = text_part(part_of(record, "slot"@, 0, 3));
    let item_id = text_part(part_of(record, "item_id"@, 1, 3));
    let params = part_of(record, "params"@, 2, 3);
    if slot is Some && item_id is Some && params is Some {
        Some(ItemModel { slot: slot->0, item_id: item_id->0, params: params->0 })
    } else {
        None
    }
}

/// The quest that a JSON record stands for, if it stands for one: `id`,
/// `title` and `text` are strings, `completed` is a boolean, `progress` a
/// non-negative integer of 64 bits.
pub open spec fn quest_of(record: Json) -> Option<QuestModel> {
    let id = text_part(part_of(record, "id"@, 0, 5));
    let title = text_part(part_of(record, "title"@, 1, 5));
    let text = text_part(part_of(record, "text"@, 2, 5));
    let completed = bool_part(part_of(record, "completed"@, 3, 5));
    let progress = unsigned_part(part_of(record, "progress"@, 4, 5));
    if id is Some && title is Some && text is Some && completed is Some && progress is Some {
        Some(
            QuestModel {
                id: id->0,
                title: title->0,
                text: text->0,
                completed: completed->0,
                progress: progress->0,
            },
        )
    } else {
        None
    }
}

/// The inventory that a JSON tree stands for: an array whose every element
/// stands for an item.
pub open spec fn inventory_of(tree: Json) -> Option<Seq<ItemModel>> {
    match tree {
        Json::Array(records) => if forall|i: int|
            0 <= i < records.len() ==> (#[trigger] item_of(records[i])) is Some {
            Some(Seq::new(records.len(), |i: int| item_of(records[i])->0))
        } else {
            None
        },
        _ => None,
    }
}

/// The quest log that a JSON tree stands for: an array whose every element
/// stands for a quest.
pub open spec fn quests_of(tree: Json) -> Option<Seq<QuestModel>> {
    match tree {
        Json::Array(records) => if forall|i: int|
            0 <= i < records.len() ==> (#[trigger] quest_of(records[i])) is Some {
            Some(Seq::new(records.len(), |i: int| quest_of(records[i])->0))
        } else {
            None
        },
        _ => None,
    }
}

/// The inventory that a text carries, or `None` where the text is no JSON
/// or no inventory.
pub open spec fn decoded_inventory(text: Seq<char>) -> Option<Seq<ItemModel>> {
    match json_parse(text) {
        Some(tree) => inventory_of(tree),
        None => None,
    }
}

/// The quest log that a text carries, or `None` where the text is no JSON
/// or no quest log.
pub open spec fn decoded_quests(text: Seq<char>) -> Option<Seq<QuestModel>> {
    match json_parse(text) {
        Some(tree) => quests_of(tree),
        None => None,
    }
}

/// Picks one part of a record, in either of its two forms.
fn part<'a>(record: &'a serde_json::Value, key: &str, position: usize, arity: usize) -> (res:
    Option<&'a serde_json::Value>)
    requires
        position < arity,
    ensures
        match res {
            Some(value) => part_of(json_tree(*record), key@, position as int, arity as nat)
                == Some(json_tree(*value)),
            None => part_of(json_tree(*record), key@, position as int, arity as nat) is None,
        },
{
    match value_elements(record) {
        Some(parts) => {
            if parts.len() == arity {
                Some(&parts[position])
            } else {
                None
            }
        },
        None => value_member(record, key),
    }
}

/// Reads one part of a record as a string.
fn text_field(record: &serde_json::Value, key: &str, position: usize, arity: usize) -> (res:
    Option<String>)
    requires
        position < arity,
    ensures
        match res {
            Some(text) => text_part(part_of(json_tree(*record), key@, position as int, arity as nat))
                == Some(text@),
            None => text_part(part_of(json_tree(*record), key@, position as int, arity as nat))
                is None,
        },
{
    match part(record, key, position, arity) {
        Some(value) => match value_text(value) {
            Some(text) => Some(text.to_owned()),
            None => None,
        },
        None => None,
    }
}

/// Reads one JSON record as an inventory item.
pub fn item_from_value(record: &serde_json::Value) -> (res: Option<InventoryItem>)
    ensures
        match res {
            Some(item) => item_of(json_tree(*record)) == Some(item.deep_view()),
            None => item_of(json_tree(*record)) is None,
        },
{
    let slot = match text_field(record, "slot", 0, 3) {
        Some(text) => text,
        None => { return None; },
    };
    let item_id = match text_field(record, "item_id", 1, 3) {
        Some(text) => text,
        None => { return None; },
    };
    let params = match part(record, "params", 2, 3) {
        Some(value) => value.clone(),
        None => { return None; },
    };
    Some(InventoryItem { slot, item_id, params })
}

/// Reads one JSON record as a quest.
pub fn quest_from_value(record: &serde_json::Value) -> (res: Option<QuestData>)
    ensures
        match res {
            Some(quest) => quest_of(json_tree(*record)) == Some(quest.deep_view()),
            None => quest_of(json_tree(*record)) is None,
        },
{
    let id = match text_field(record, "id", 0, 5) {
        Some(text) => text,
        None => { return None; },
    };
    let title = match text_field(record, "title", 1, 5) {
        Some(text) => text,
        None => { return None; },
    };
    let text = match text_field(record, "text", 2, 5) {
        Some(text) => text,
        None => { return None; },
    };
    let completed = match part(record, "completed", 3, 5) {
        Some(value) => match value_bool(value) {
            Some(b) => b,
            None => { return None; },
        },
        None => { return None; },
    };
    let progress = match part(record, "progress", 4, 5) {
        Some(value) => match value_unsigned(value) {
            Some(n) => n,
            None => { return None; },
        },
        None => { return None; },
    };
    Some(QuestData { id, title, text, completed, progress })
}

/// Reads a JSON value as an inventory.
pub fn inventory_from_value(tree: &serde_json::Value) -> (res: Option<Vec<InventoryItem>>)
    ensures
        match res {
            Some(items) => inventory_of(json_tree(*tree)) == Some(items.deep_view()),
            None => inventory_of(json_tree(*tree)) is None,
        },
{
    let records = match value_elements(tree) {
        Some(records) => records,
        None => { return None; },
    };
    let ghost trees = json_trees(records@);
    let mut items: Vec<InventoryItem> = Vec::new();
    let mut i: usize = 0;
    while i < records.len()
        invariant
            i <= records@.len(),
            trees == json_trees(records@),
            json_tree(*tree) == Json::Array(trees),
            items@.len() == i,
            forall|j: int| 0 <= j < i ==> item_of(trees[j]) == Some(#[trigger] items@[j].deep_view()),
        decreases records@.len() - i,
    {
        match item_from_value(&records[i]) {
            Some(item) => {
                items.push(item);
            },
            None => {
                assert(item_of(trees[i as int]) is None);
                return None;
            },
        }
        i += 1;
    }
    proof {
        assert forall|j: int| 0 <= j < trees.len() implies (#[trigger] item_of(trees[j])) is Some by {
            assert(item_of(trees[j]) == Some(items@[j].deep_view()));
        }
    }
    Some(items)
}

/// Reads a JSON value as a quest log.
pub fn quests_from_value(tree: &serde_json::Value) -> (res: Option<Vec<QuestData>>)
    ensures
        match res {
            Some(quests) => quests_of(json_tree(*tree)) == Some(quests.deep_view()),
            None => quests_of(json_tree(*tree)) is None,
        },
{
    let records = match value_elements(tree) {
        Some(records) => records,
        None => { return None; },
    };
    let ghost trees = json_trees(records@);
    let mut quests: Vec<QuestData> = Vec::new();
    let mut i: usize = 0;
    while i < records.len()
        invariant
            i <= records@.len(),
            trees == json_trees(records@),
            json_tree(*tree) == Json::Array(trees),
            quests@.len() == i,
            forall|j: int|
                0 <= j < i ==> quest_of(trees[j]) == Some(#[trigger] quests@[j].deep_view()),
        decreases records@.len() - i,
    {
        match quest_from_value(&records[i]) {
            Some(quest) => {
                quests.push(quest);
            },
            None => {
                assert(quest_of(trees[i as int]) is None);
                return None;
            },
        }
        i += 1;
    }
    proof {
        assert forall|j: int| 0 <= j < trees.len() implies (#[trigger] quest_of(trees[j])) is Some by {
            assert(quest_of(trees[j]) == Some(quests@[j].deep_view()));
        }
    }
    Some(quests)
}

/// Decodes the text of an inventory payload. `None` exactly where the text
/// is no JSON or its JSON is no inventory.
pub fn decode_inventory(text: &str) -> (res: Option<Vec<InventoryItem>>)
    ensures
        match res {
            Some(items) => decoded_inventory(text@) == Some(items.deep_view()),
            None => decoded_inventory(text@) is None,
        },
{
    match parse_value(text) {
        Ok(tree) => inventory_from_value(&tree),
        Err(_) => None,
    }
}

/// Decodes the text of a quest payload. `None` exactly where the text is no
/// JSON or its JSON is no quest log.
pub fn decode_quests(text: &str) -> (res: Option<Vec<QuestData>>)
    ensures
        match res {
            Some(quests) => decoded_quests(text@) == Some(quests.deep_view()),
            None => decoded_quests(text@) is None,
        },
{
    match parse_value(text) {
        Ok(tree) => quests_from_value(&tree),
        Err(_) => None,
    }
}

/// Whether a text is JSON.
pub fn is_json(text: &str) -> (ok: bool)
    ensures
        ok == json_parse(text@) is Some,
{
    match parse_value(text) {
        Ok(_) => true,
        Err(_) => false,
    }
}

} // verus!
