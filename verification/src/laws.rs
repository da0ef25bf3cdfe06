//! Laws of the game ledger, proved of its mathematical model: what
//! redelivery of a message can and cannot do.

use vstd::prelude::*;
use crate::abi::{MessageModel, PlayerState, RpgGameOperation};
use crate::contract::{operation_effect, operation_sends};
use crate::lists::{lemma_occurs_once, lemma_with_member, list_at, occurs_once};
use crate::model::{fact_fits, facts_fit, founded_guild, same_battle, GameModel};
use crate::state::BattleModel;

verus! {

/// One join: the player who joins and the guild that is joined.
pub struct Join {
    pub player_id: Seq<char>,
    pub guild_id: Seq<char>,
}

/// The ledger after a sequence of joins arrived, first to last.
pub open spec fn after_joins(ledger: GameModel, joins: Seq<Join>) -> GameModel
    decreases joins.len(),
{
    if joins.len() == 0 {
        ledger
    } else {
        after_joins(ledger, joins.drop_last()).accept_join(
            joins.last().player_id,
            joins.last().guild_id,
        )
    }
}

/// A join leaves a valid ledger valid.
pub proof fn law_join_keeps_valid(ledger: GameModel, player_id: Seq<char>, guild_id: Seq<char>)
    requires
        ledger.valid(),
    ensures
        ledger.accept_join(player_id, guild_id).valid(),
{
    if ledger.guilds.contains_key(guild_id) {
        lemma_with_member(ledger.guilds[guild_id].members, player_id);
    }
}

/// A recorded battle leaves a valid ledger valid.
pub proof fn law_battle_keeps_valid(ledger: GameModel, record: BattleModel)
    requires
        ledger.valid(),
    ensures
        ledger.record_battle(record).valid(),
{
    let after = ledger.record_battle(record);
    if !ledger.battle_seen(record) {
        let facts = list_at(ledger.battle_facts, record.battle_id);
        let history = list_at(ledger.player_battles, record.player_id);
        assert(history.push(record.battle_id)[history.len() as int] == record.battle_id);
        assert forall|b: Seq<char>| #[trigger] after.battle_facts.contains_key(b) implies facts_fit(
            after.player_battles,
            b,
            after.battle_facts[b],
        ) by {
            let list = after.battle_facts[b];
            if b != record.battle_id {
                assert(ledger.battle_facts.contains_key(b));
            }
            assert forall|i: int| 0 <= i < list.len() implies fact_fits(
                after.player_battles,
                b,
                #[trigger] list[i],
            ) by {
                if !(b == record.battle_id && i == facts.len()) {
                    assert(ledger.battle_facts.contains_key(b));
                    let fact = ledger.battle_facts[b][i];
                    assert(fact_fits(ledger.player_battles, b, fact));
                    if fact.player_id == record.player_id {
                        let at = choose|at: int| 0 <= at < history.len() && history[at] == b;
                        assert(history.push(record.battle_id)[at] == b);
                    }
                }
            }
            if b == record.battle_id {
                assert forall|i: int, j: int| 0 <= i < j < list.len() implies !same_battle(
                    #[trigger] list[i],
                    #[trigger] list[j],
                ) by {
                    if j == facts.len() {
                        assert(list[i] == facts[i]);
                    } else {
                        assert(list[i] == facts[i] && list[j] == facts[j]);
                    }
                }
            }
        }
    }
}

/// Idempotent overwrite: a migration message that is delivered twice
/// leaves the ledger as one delivery leaves it, whether or not its
/// payloads can be decoded.
pub proof fn law_transfer_idempotent(
    ledger: GameModel,
    player_id: Seq<char>,
    player_state: PlayerState,
    inventory: Seq<char>,
    quests: Seq<char>,
)
    ensures
        ledger.accept_transfer(player_id, player_state, inventory, quests).accept_transfer(
            player_id,
            player_state,
            inventory,
            quests,
        ) == ledger.accept_transfer(player_id, player_state, inventory, quests),
{
    let once = ledger.accept_transfer(player_id, player_state, inventory, quests);
    let twice = once.accept_transfer(player_id, player_state, inventory, quests);
    assert(twice.players =~= once.players);
    assert(twice.inventories =~= once.inventories);
    assert(twice.quests =~= once.quests);
}

/// A migration whose payloads can both be decoded leaves on the ledger,
/// for the player, exactly the snapshot that it carried, and leaves every
/// other player as it was.
pub proof fn law_transfer_installs_snapshot(
    ledger: GameModel,
    player_id: Seq<char>,
    player_state: PlayerState,
    inventory: Seq<char>,
    quests: Seq<char>,
)
    requires
        crate::model::transfer_result(inventory, quests) is Ok,
    ensures
        ({
            let after = ledger.accept_transfer(player_id, player_state, inventory, quests);
            &&& after.players == ledger.players.insert(player_id, player_state.stored())
            &&& after.inventories == ledger.inventories.insert(
                player_id,
                crate::payload::decoded_inventory(inventory)->0,
            )
            &&& after.quests == ledger.quests.insert(
                player_id,
                crate::payload::decoded_quests(quests)->0,
            )
            &&& after == (GameModel {
                players: after.players,
                inventories: after.inventories,
                quests: after.quests,
                ..ledger
            })
        }),
{
}

/// Last write wins: of two migrations of one player that arrive one after
/// the other and can both be decoded, the later one alone decides what the
/// ledger holds for the player.
pub proof fn law_transfer_last_wins(
    ledger: GameModel,
    player_id: Seq<char>,
    first_state: PlayerState,
    first_inventory: Seq<char>,
    first_quests: Seq<char>,
    player_state: PlayerState,
    inventory: Seq<char>,
    quests: Seq<char>,
)
    requires
        crate::model::transfer_result(inventory, quests) is Ok,
    ensures
        ledger.accept_transfer(player_id, first_state, first_inventory, first_quests).accept_transfer(
            player_id,
            player_state,
            inventory,
            quests,
        ) == ledger.accept_transfer(player_id, player_state, inventory, quests),
{
    let first = ledger.accept_transfer(player_id, first_state, first_inventory, first_quests);
    let both = first.accept_transfer(player_id, player_state, inventory, quests);
    let only = ledger.accept_transfer(player_id, player_state, inventory, quests);
    assert(both.players =~= only.players);
    assert(both.inventories =~= only.inventories);
    assert(both.quests =~= only.quests);
}

/// Append without duplication: once a battle is recorded, a redelivery of
/// the same fact, at whatever time, is seen as a duplicate and changes
/// nothing: no second record, and no second entry in the player's history.
pub proof fn law_battle_redelivery(ledger: GameModel, record: BattleModel, again: BattleModel)
    requires
        same_battle(record, again),
    ensures
        ledger.record_battle(record).battle_seen(again),
        ledger.record_battle(record).record_battle(again) == ledger.record_battle(record),
{
    if ledger.battle_seen(record) {
        let facts = list_at(ledger.battle_facts, record.battle_id);
        let i = choose|i: int| 0 <= i < facts.len() && same_battle(#[trigger] facts[i], record);
        assert(same_battle(facts[i], again));
    } else {
        let facts = list_at(ledger.battle_facts, record.battle_id).push(record);
        assert(same_battle(facts[facts.len() - 1], again));
    }
}

/// A fact that was recorded stays recorded, whatever is recorded after it.
pub proof fn law_battle_stays_seen(ledger: GameModel, record: BattleModel, next: BattleModel)
    requires
        ledger.battle_seen(record),
    ensures
        ledger.record_battle(next).battle_seen(record),
{
    let facts = list_at(ledger.battle_facts, record.battle_id);
    let i = choose|i: int| 0 <= i < facts.len() && same_battle(#[trigger] facts[i], record);
    if !ledger.battle_seen(next) && next.battle_id == record.battle_id {
        assert(same_battle(facts.push(next)[i], record));
    }
}

/// The ledger after a sequence of battle reports, first to last.
pub open spec fn after_battles(ledger: GameModel, reports: Seq<BattleModel>) -> GameModel
    decreases reports.len(),
{
    if reports.len() == 0 {
        ledger
    } else {
        after_battles(ledger, reports.drop_last()).record_battle(reports.last())
    }
}

/// No fact is recorded twice: once a battle is recorded, and whatever
/// other reports arrive after it, a redelivery of the same fact is a
/// duplicate and changes nothing.
pub proof fn law_battle_never_twice(
    ledger: GameModel,
    record: BattleModel,
    between: Seq<BattleModel>,
    again: BattleModel,
)
    requires
        same_battle(record, again),
    ensures
        after_battles(ledger.record_battle(record), between).battle_seen(again),
        after_battles(ledger.record_battle(record), between).record_battle(again) == after_battles(
            ledger.record_battle(record),
            between,
        ),
    decreases between.len(),
{
    if between.len() == 0 {
        law_battle_redelivery(ledger, record, again);
    } else {
        law_battle_never_twice(ledger, record, between.drop_last(), again);
        law_battle_stays_seen(
            after_battles(ledger.record_battle(record), between.drop_last()),
            again,
            between.last(),
        );
    }
}

/// Create-or-join: the first join to a guild that the ledger does not hold
/// founds it with exactly that one member, level 1 and no resources, and
/// makes it the player's guild.
pub proof fn law_first_join_founds(ledger: GameModel, player_id: Seq<char>, guild_id: Seq<char>)
    requires
        !ledger.guilds.contains_key(guild_id),
    ensures
        ledger.accept_join(player_id, guild_id).guilds.contains_key(guild_id),
        ledger.accept_join(player_id, guild_id).guilds[guild_id] == founded_guild(
            guild_id,
            player_id,
        ),
        ledger.accept_join(player_id, guild_id).guilds[guild_id].members == seq![player_id],
        ledger.accept_join(player_id, guild_id).guilds[guild_id].level == 1,
        ledger.accept_join(player_id, guild_id).guilds[guild_id].resources == 0,
        ledger.accept_join(player_id, guild_id).player_guilds[player_id] == guild_id,
{
}

/// Once a member, always a member: a join removes nobody from any guild.
pub proof fn lemma_join_keeps_members(
    ledger: GameModel,
    player_id: Seq<char>,
    guild_id: Seq<char>,
    member: Seq<char>,
    member_of: Seq<char>,
)
    requires
        ledger.valid(),
        ledger.guilds.contains_key(member_of),
        ledger.guilds[member_of].members.contains(member),
    ensures
        ledger.accept_join(player_id, guild_id).guilds.contains_key(member_of),
        ledger.accept_join(player_id, guild_id).guilds[member_of].members.contains(member),
{
    if member_of == guild_id {
        lemma_with_member(ledger.guilds[guild_id].members, player_id);
    }
}

/// A join makes the player a member of the guild.
pub proof fn lemma_join_makes_member(ledger: GameModel, player_id: Seq<char>, guild_id: Seq<char>)
    requires
        ledger.valid(),
    ensures
        ledger.accept_join(player_id, guild_id).guilds.contains_key(guild_id),
        ledger.accept_join(player_id, guild_id).guilds[guild_id].members.contains(player_id),
{
    if ledger.guilds.contains_key(guild_id) {
        lemma_with_member(ledger.guilds[guild_id].members, player_id);
    } else {
        assert(seq![player_id][0] == player_id);
    }
}

/// Any sequence of joins leaves a valid ledger valid.
pub proof fn law_joins_keep_valid(ledger: GameModel, joins: Seq<Join>)
    requires
        ledger.valid(),
    ensures
        after_joins(ledger, joins).valid(),
    decreases joins.len(),
{
    if joins.len() > 0 {
        law_joins_keep_valid(ledger, joins.drop_last());
        law_join_keeps_valid(
            after_joins(ledger, joins.drop_last()),
            joins.last().player_id,
            joins.last().guild_id,
        );
    }
}

/// Guild membership is a set: after any sequence of joins in which the
/// player joins the guild at least once, however often and among whatever
/// other joins, the guild lists the player exactly once.
pub proof fn law_membership_once(
    ledger: GameModel,
    joins: Seq<Join>,
    player_id: Seq<char>,
    guild_id: Seq<char>,
)
    requires
        ledger.valid(),
        joins.contains(Join { player_id, guild_id }),
    ensures
        after_joins(ledger, joins).guilds.contains_key(guild_id),
        occurs_once(after_joins(ledger, joins).guilds[guild_id].members, player_id),
    decreases joins.len(),
{
    let earlier = after_joins(ledger, joins.drop_last());
    let last = joins.last();
    law_joins_keep_valid(ledger, joins.drop_last());
    law_joins_keep_valid(ledger, joins);
    if last == (Join { player_id, guild_id }) {
        lemma_join_makes_member(earlier, player_id, guild_id);
    } else {
        let i = choose|i: int| 0 <= i < joins.len() && joins[i] == Join { player_id, guild_id };
        assert(joins.drop_last()[i] == Join { player_id, guild_id });
        law_membership_once(ledger, joins.drop_last(), player_id, guild_id);
        lemma_join_keeps_members(earlier, last.player_id, last.guild_id, player_id, guild_id);
    }
    lemma_occurs_once(after_joins(ledger, joins).guilds[guild_id].members, player_id);
}

/// A join that arrives twice leaves the ledger as one arrival leaves it.
pub proof fn law_join_idempotent(ledger: GameModel, player_id: Seq<char>, guild_id: Seq<char>)
    ensures
        ledger.accept_join(player_id, guild_id).accept_join(player_id, guild_id)
            == ledger.accept_join(player_id, guild_id),
{
    let once = ledger.accept_join(player_id, guild_id);
    let twice = once.accept_join(player_id, guild_id);
    let members = once.guilds[guild_id].members;
    assert(members[members.len() - 1] == player_id || ledger.guilds[guild_id].members.contains(
        player_id,
    ));
    assert(twice.guilds =~= once.guilds);
    assert(twice.player_guilds =~= once.player_guilds);
}

/// Replay: whatever message a ledger has taken in, a redelivery of it, at
/// whatever later time, changes nothing. This is what at-least-once
/// delivery asks of every handler.
pub proof fn law_message_replay(ledger: GameModel, now: u64, later: u64, message: MessageModel)
    ensures
        ledger.delivery(now, message).delivery(later, message) == ledger.delivery(now, message),
        ledger.valid() ==> ledger.delivery(now, message).valid(),
{
    match message {
        MessageModel::PlayerTransfer { player_id, player_state, inventory, quests, .. } => {
            law_transfer_idempotent(ledger, player_id, player_state, inventory, quests);
        },
        MessageModel::GuildJoinRequest { player_id, guild_id } => {
            law_join_idempotent(ledger, player_id, guild_id);
            if ledger.valid() {
                law_join_keeps_valid(ledger, player_id, guild_id);
            }
        },
        MessageModel::BattleResult {
            battle_id,
            player_id,
            opponent,
            result,
            damage_dealt,
            damage_taken,
            experience_gained,
        } => {
            let first = BattleModel {
                battle_id,
                player_id,
                opponent,
                result,
                damage_dealt,
                damage_taken,
                experience_gained,
                timestamp: now,
            };
            let again = BattleModel { timestamp: later, ..first };
            law_battle_redelivery(ledger, first, again);
            if ledger.valid() {
                law_battle_keeps_valid(ledger, first);
            }
        },
    }
}

/// A migration from end to end: where the channel accepts the message,
/// the source ledger keeps the player as it had it and notes the
/// migration; and the ledger that takes the message in holds, for the
/// player, the attributes that were sent, whatever it held before.
pub proof fn law_migration_end_to_end(
    source: GameModel,
    destination: GameModel,
    chain: Seq<char>,
    now: u64,
    later: u64,
    operation: RpgGameOperation,
)
    requires
        operation is TransferPlayer,
    ensures
        ({
            let player_id = operation->TransferPlayer_player_id@;
            let left = operation_effect(source, chain, now, true, operation);
            let sent = operation_sends(operation);
            &&& left.players == source.players
            &&& left.inventories == source.inventories
            &&& left.quests == source.quests
            &&& left.transfer_requests.contains_key(player_id)
            &&& left.transfer_requests[player_id].source_chain == chain
            &&& left.transfer_requests[player_id].timestamp == now
            &&& sent is Some
            &&& sent->0.destination == left.transfer_requests[player_id].destination_chain
            &&& destination.delivery(later, sent->0.message).players.contains_key(player_id)
            &&& destination.delivery(later, sent->0.message).players[player_id]
                == operation->TransferPlayer_player_state.stored()
            &&& operation_effect(source, chain, now, false, operation) == source
        }),
{
}

/// Whether a ledger holds, under every key of an earlier ledger, an entry
/// still: no player, inventory, quest log, battle, guild, request or note
/// of a migration has gone.
pub open spec fn keeps_all(earlier: GameModel, later: GameModel) -> bool {
    &&& earlier.players.dom().subset_of(later.players.dom())
    &&& earlier.inventories.dom().subset_of(later.inventories.dom())
    &&& earlier.quests.dom().subset_of(later.quests.dom())
    &&& earlier.battles.dom().subset_of(later.battles.dom())
    &&& earlier.battle_facts.dom().subset_of(later.battle_facts.dom())
    &&& earlier.guilds.dom().subset_of(later.guilds.dom())
    &&& earlier.player_guilds.dom().subset_of(later.player_guilds.dom())
    &&& earlier.player_battles.dom().subset_of(later.player_battles.dom())
    &&& earlier.guild_join_requests.dom().subset_of(later.guild_join_requests.dom())
    &&& earlier.transfer_requests.dom().subset_of(later.transfer_requests.dom())
}

/// Nothing is ever deleted: no message removes an entry from the ledger
/// that takes it in.
pub proof fn law_delivery_keeps_all(ledger: GameModel, now: u64, message: MessageModel)
    ensures
        keeps_all(ledger, ledger.delivery(now, message)),
{
}

/// Nothing is ever deleted: no operation removes an entry from the
/// ledger. A player whose migration was started stays on the ledger, and
/// the note of a migration, once written, stays too.
pub proof fn law_operation_keeps_all(
    ledger: GameModel,
    chain: Seq<char>,
    now: u64,
    accepts: bool,
    operation: RpgGameOperation,
)
    ensures
        keeps_all(ledger, operation_effect(ledger, chain, now, accepts, operation)),
{
}

} // verus!
