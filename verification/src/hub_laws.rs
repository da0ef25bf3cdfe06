//! Laws of the hub, proved of its mathematical model: redelivery inflates
//! neither a list nor a counter.

use vstd::prelude::*;
use crate::error::LedgerError;
use crate::hub_abi::HubOperation;
use crate::hub_contract::{hub_operation_effect, hub_operation_result};
use crate::lists::{lemma_push_fresh, list_at, occurs_once};
use crate::hub_state::{
    entries_fit, entry_fits, record_fits, records_fit, HubModel, SubmissionModel,
    WorldChainModel,
};

verus! {

/// A submission leaves a valid hub valid.
pub proof fn law_submit_keeps_valid(hub: HubModel, fact: SubmissionModel)
    requires
        hub.valid(),
    ensures
        hub.submit(fact).valid(),
{
    law_submit_given_keeps_valid(hub, fact, crate::json::json_parse(fact.metadata) is Some);
}

/// A submission leaves a valid hub valid, whether or not its metadata are
/// JSON.
pub proof fn law_submit_given_keeps_valid(
    hub: HubModel,
    fact: SubmissionModel,
    metadata_is_json: bool,
)
    requires
        hub.valid(),
    ensures
        hub.submit_given(fact, metadata_is_json).valid(),
{
    if hub.submit_result_given(fact, metadata_is_json) is Ok {
        let after = hub.submit_given(fact, metadata_is_json);
        let records = list_at(hub.all_achievements, fact.achievement_id);
        let entries = list_at(hub.player_achievements, fact.player_id);
        let entry = fact.for_player();
        assert(!records.contains(fact));
        assert(entry.of_player(fact.player_id) == fact);
        if entries.contains(entry) {
            let i = choose|i: int| 0 <= i < entries.len() && entries[i] == entry;
            assert(hub.player_achievements.contains_key(fact.player_id));
            assert(entry_fits(hub.all_achievements, fact.player_id, entries[i]));
            assert(hub.seen(fact));
        }
        if hub.all_achievements.contains_key(fact.achievement_id) {
            assert(records.no_duplicates());
        }
        if hub.player_achievements.contains_key(fact.player_id) {
            assert(entries.no_duplicates());
        }
        lemma_push_fresh(records, fact);
        lemma_push_fresh(entries, entry);
        assert forall|a: Seq<char>| #[trigger] after.all_achievements.contains_key(a) implies records_fit(
            after.player_achievements,
            a,
            after.all_achievements[a],
        ) by {
            let list = after.all_achievements[a];
            if a != fact.achievement_id {
                assert(hub.all_achievements.contains_key(a));
            }
            assert forall|i: int| 0 <= i < list.len() implies record_fits(
                after.player_achievements,
                a,
                #[trigger] list[i],
            ) by {
                let f = list[i];
                if a == fact.achievement_id && i == records.len() {
                    assert(f == fact);
                } else {
                    assert(hub.all_achievements.contains_key(a));
                    assert(f == hub.all_achievements[a][i]);
                    assert(record_fits(hub.player_achievements, a, f));
                }
            }
        }
        assert forall|p: Seq<char>| #[trigger] after.player_achievements.contains_key(p) implies entries_fit(
            after.all_achievements,
            p,
            after.player_achievements[p],
        ) by {
            let list = after.player_achievements[p];
            if p != fact.player_id {
                assert(hub.player_achievements.contains_key(p));
            }
            assert forall|i: int| 0 <= i < list.len() implies entry_fits(
                after.all_achievements,
                p,
                #[trigger] list[i],
            ) by {
                let e = list[i];
                if p == fact.player_id && i == entries.len() {
                    assert(e == entry);
                } else {
                    assert(hub.player_achievements.contains_key(p));
                    assert(e == hub.player_achievements[p][i]);
                    assert(entry_fits(hub.all_achievements, p, e));
                }
            }
        }
    }
}

/// A registration leaves a valid hub valid.
pub proof fn law_register_keeps_valid(hub: HubModel, chain: Seq<char>, region: Seq<char>, now: u64)
    requires
        hub.valid(),
    ensures
        hub.register(chain, region, now).valid(),
{
    let after = hub.register(chain, region, now);
    if hub.register_result(chain, region) is Ok {
        let regions = list_at(hub.registrations, chain);
        if hub.registrations.contains_key(chain) {
            assert(regions.no_duplicates());
        }
        lemma_push_fresh(regions, region);
        assert forall|c: Seq<char>| #[trigger] after.registrations.contains_key(c) implies after.registrations[c].no_duplicates() by {
            if c != chain {
                assert(hub.registrations.contains_key(c));
            }
        }
        assert forall|c: Seq<char>| #[trigger] after.world_chains.contains_key(c) implies after.registrations.contains_key(c)
            && after.registrations[c].len() > 0 && after.registrations[c].last()
            == after.world_chains[c].world_region by {
            if c != chain {
                assert(hub.world_chains.contains_key(c));
            }
        }
    }
}

/// Redelivery of a submission: once a fact was submitted, submitting it
/// again changes nothing, neither a list nor the counter; and where the
/// first submission was taken in, the second is refused as a duplicate.
pub proof fn law_submission_redelivery(hub: HubModel, fact: SubmissionModel)
    ensures
        hub.submit(fact).submit(fact) == hub.submit(fact),
        hub.submit_result(fact) is Ok ==> hub.submit(fact).submit_result(fact) == Err::<
            (),
            LedgerError,
        >(LedgerError::Duplicate),
        hub.submit_result(fact) is Ok ==> hub.submit(fact).total_achievements
            == hub.total_achievements + 1,
{
    if hub.submit_result(fact) is Ok {
        let records = list_at(hub.all_achievements, fact.achievement_id);
        assert(records.push(fact)[records.len() as int] == fact);
        assert(hub.submit(fact).seen(fact));
    }
}

/// Where a fact was taken in, it stands exactly once among the submissions
/// of its achievement and exactly once in the list of its player, also
/// after any number of redeliveries.
pub proof fn law_submission_once(hub: HubModel, fact: SubmissionModel, redeliveries: nat)
    requires
        hub.valid(),
        hub.submit_result(fact) is Ok,
    ensures
        submitted_times(hub, fact, redeliveries + 1) == hub.submit(fact),
        occurs_once(hub.submit(fact).all_achievements[fact.achievement_id], fact),
        occurs_once(hub.submit(fact).player_achievements[fact.player_id], fact.for_player()),
    decreases redeliveries,
{
    law_submit_keeps_valid(hub, fact);
    law_submission_redelivery(hub, fact);
    let after = hub.submit(fact);
    let records = after.all_achievements[fact.achievement_id];
    let entries = after.player_achievements[fact.player_id];
    assert(records[records.len() - 1] == fact);
    assert(entries[entries.len() - 1] == fact.for_player());
    if redeliveries > 0 {
        law_submission_once(hub, fact, (redeliveries - 1) as nat);
    } else {
        assert(submitted_times(hub, fact, 0) == hub);
    }
}

/// The hub after one fact was submitted `times` times in a row.
pub open spec fn submitted_times(hub: HubModel, fact: SubmissionModel, times: nat) -> HubModel
    decreases times,
{
    if times == 0 {
        hub
    } else {
        submitted_times(hub, fact, (times - 1) as nat).submit(fact)
    }
}

/// Redelivery of a registration: once a ledger has registered for a
/// region, registering it for that region again, at whatever time, changes
/// nothing; and where the first registration was taken in, the second is
/// refused as a duplicate.
pub proof fn law_registration_redelivery(
    hub: HubModel,
    chain: Seq<char>,
    region: Seq<char>,
    now: u64,
    later: u64,
)
    ensures
        hub.register(chain, region, now).register(chain, region, later) == hub.register(
            chain,
            region,
            now,
        ),
        hub.register_result(chain, region) is Ok ==> hub.register(chain, region, now).register_result(
            chain,
            region,
        ) == Err::<(), LedgerError>(LedgerError::Duplicate),
        hub.register_result(chain, region) is Ok ==> hub.register(chain, region, now).total_chains
            == hub.total_chains + 1,
{
    if hub.register_result(chain, region) is Ok {
        let regions = list_at(hub.registrations, chain);
        assert(regions.push(region)[regions.len() as int] == region);
        assert(hub.register(chain, region, now).registered_for(chain, region));
    }
}

/// Replay: whatever operation or message the hub has handled, a
/// redelivery of it, at whatever later time, changes nothing, and is
/// refused where the first was taken in.
pub proof fn law_hub_replay(hub: HubModel, now: u64, later: u64, operation: HubOperation)
    ensures
        hub_operation_effect(hub_operation_effect(hub, now, operation), later, operation)
            == hub_operation_effect(hub, now, operation),
        hub.valid() ==> hub_operation_effect(hub, now, operation).valid(),
        hub_operation_result(hub, operation) is Ok ==> hub_operation_result(
            hub_operation_effect(hub, now, operation),
            operation,
        ) == Err::<(), LedgerError>(LedgerError::Duplicate),
{
    match operation {
        HubOperation::SubmitAchievement {
            player_id,
            achievement_id,
            chain_id,
            timestamp,
            metadata,
        } => {
            let fact = SubmissionModel {
                achievement_id: achievement_id@,
                player_id: player_id@,
                chain_id: chain_id.deep_view(),
                timestamp,
                metadata: metadata@,
            };
            law_submission_redelivery(hub, fact);
            if hub.valid() {
                law_submit_keeps_valid(hub, fact);
            }
        },
        HubOperation::RegisterWorldChain { chain_id, world_region } => {
            law_registration_redelivery(hub, chain_id.deep_view(), world_region@, now, later);
            if hub.valid() {
                law_register_keeps_valid(hub, chain_id.deep_view(), world_region@, now);
            }
        },
    }
}

/// One request to the hub: an operation, or the message of the same
/// content, and the time at which it is handled.
pub struct Request {
    pub now: u64,
    pub operation: HubOperation,
}

/// The hub after a sequence of requests, first to last.
pub open spec fn after_requests(hub: HubModel, requests: Seq<Request>) -> HubModel
    decreases requests.len(),
{
    if requests.len() == 0 {
        hub
    } else {
        hub_operation_effect(
            after_requests(hub, requests.drop_last()),
            requests.last().now,
            requests.last().operation,
        )
    }
}

/// A submission keeps both counters at what they count.
pub proof fn law_submit_keeps_counted(hub: HubModel, fact: SubmissionModel)
    requires
        hub.counted(),
    ensures
        hub.submit(fact).counted(),
{
    let after = hub.submit(fact);
    assert(after.registered() =~= hub.registered());
    if hub.submit_result(fact) is Ok {
        let records = list_at(hub.all_achievements, fact.achievement_id);
        assert(records.push(fact)[records.len() as int] == fact);
        assert forall|f: SubmissionModel| after.seen(f) == (hub.seen(f) || f == fact) by {
            let list = list_at(hub.all_achievements, f.achievement_id);
            if f.achievement_id == fact.achievement_id {
                if hub.seen(f) {
                    let i = choose|i: int| 0 <= i < list.len() && list[i] == f;
                    assert(list.push(fact)[i] == f);
                }
                if after.seen(f) && f != fact {
                    let grown = list.push(fact);
                    let i = choose|i: int| 0 <= i < grown.len() && grown[i] == f;
                    assert(list[i] == f);
                }
            }
        }
        assert(after.facts() =~= hub.facts().insert(fact));
    } else {
        assert(after.facts() =~= hub.facts());
    }
}

/// A registration keeps both counters at what they count.
pub proof fn law_register_keeps_counted(hub: HubModel, chain: Seq<char>, region: Seq<char>, now: u64)
    requires
        hub.counted(),
    ensures
        hub.register(chain, region, now).counted(),
{
    let after = hub.register(chain, region, now);
    assert(after.facts() =~= hub.facts());
    if hub.register_result(chain, region) is Ok {
        let regions = list_at(hub.registrations, chain);
        assert(regions.push(region)[regions.len() as int] == region);
        assert forall|pair: (Seq<char>, Seq<char>)| after.registered_for(pair.0, pair.1) == (
        hub.registered_for(pair.0, pair.1) || pair == (chain, region)) by {
            let list = list_at(hub.registrations, pair.0);
            if pair.0 == chain {
                if hub.registered_for(pair.0, pair.1) {
                    let i = choose|i: int| 0 <= i < list.len() && list[i] == pair.1;
                    assert(list.push(region)[i] == pair.1);
                }
                if after.registered_for(pair.0, pair.1) && pair.1 != region {
                    let grown = list.push(region);
                    let i = choose|i: int| 0 <= i < grown.len() && grown[i] == pair.1;
                    assert(list[i] == pair.1);
                }
            }
        }
        assert(after.registered() =~= hub.registered().insert((chain, region)));
    } else {
        assert(after.registered() =~= hub.registered());
    }
}

/// No inflation: on a hub that started empty, after any sequence of
/// submissions and registrations, redeliveries among them or not, the
/// counter of submissions is the number of distinct facts on the hub, and
/// the counter of ledgers is the number of distinct registrations.
pub proof fn law_counters_count(requests: Seq<Request>)
    ensures
        after_requests(HubModel::empty(), requests).valid(),
        after_requests(HubModel::empty(), requests).counted(),
    decreases requests.len(),
{
    if requests.len() == 0 {
        let hub = HubModel::empty();
        assert(hub.facts() =~= Set::<SubmissionModel>::empty());
        assert(hub.registered() =~= Set::<(Seq<char>, Seq<char>)>::empty());
    } else {
        law_counters_count(requests.drop_last());
        let earlier = after_requests(HubModel::empty(), requests.drop_last());
        let last = requests.last();
        law_hub_replay(earlier, last.now, last.now, last.operation);
        match last.operation {
            HubOperation::SubmitAchievement {
                player_id,
                achievement_id,
                chain_id,
                timestamp,
                metadata,
            } => {
                law_submit_keeps_counted(
                    earlier,
                    SubmissionModel {
                        achievement_id: achievement_id@,
                        player_id: player_id@,
                        chain_id: chain_id.deep_view(),
                        timestamp,
                        metadata: metadata@,
                    },
                );
            },
            HubOperation::RegisterWorldChain { chain_id, world_region } => {
                law_register_keeps_counted(earlier, chain_id.deep_view(), world_region@, last.now);
            },
        }
    }
}

/// Nothing is ever deleted: no request removes a player's list, the
/// submissions of an achievement, or a ledger from the register, and no
/// list and no counter gets smaller.
pub proof fn law_hub_keeps_all(hub: HubModel, now: u64, operation: HubOperation)
    ensures
        ({
            let after = hub_operation_effect(hub, now, operation);
            &&& hub.player_achievements.dom().subset_of(after.player_achievements.dom())
            &&& hub.all_achievements.dom().subset_of(after.all_achievements.dom())
            &&& hub.world_chains.dom().subset_of(after.world_chains.dom())
            &&& hub.registrations.dom().subset_of(after.registrations.dom())
            &&& forall|p: Seq<char>| #[trigger]
                hub.player_achievements.contains_key(p) ==> hub.player_achievements[p].is_prefix_of(
                    after.player_achievements[p],
                )
            &&& forall|a: Seq<char>| #[trigger]
                hub.all_achievements.contains_key(a) ==> hub.all_achievements[a].is_prefix_of(
                    after.all_achievements[a],
                )
            &&& hub.total_achievements <= after.total_achievements
            &&& hub.total_chains <= after.total_chains
        }),
{
}

/// A fact that is on the hub is refused as a duplicate and changes
/// nothing, whatever its metadata are.
pub proof fn law_known_fact_is_duplicate(hub: HubModel, fact: SubmissionModel, metadata_is_json: bool)
    requires
        hub.seen(fact),
    ensures
        hub.submit_result_given(fact, metadata_is_json) == Err::<(), LedgerError>(
            LedgerError::Duplicate,
        ),
        hub.submit_given(fact, metadata_is_json) == hub,
        hub.submit_result(fact) == Err::<(), LedgerError>(LedgerError::Duplicate),
        hub.submit(fact) == hub,
{
}

/// The first registration of a ledger that is not in the register is
/// taken in, unless the counter is exhausted: the ledger then stands in
/// the register as active, with the region and the time.
pub proof fn law_first_registration(hub: HubModel, chain: Seq<char>, region: Seq<char>, now: u64)
    requires
        hub.valid(),
        !hub.world_chains.contains_key(chain),
        hub.total_chains < u64::MAX,
    ensures
        hub.register_result(chain, region) == Ok::<(), LedgerError>(()),
        hub.register(chain, region, now).world_chains.contains_key(chain),
        hub.register(chain, region, now).world_chains[chain] == (WorldChainModel {
            world_region: region,
            registration_timestamp: now,
            active: true,
        }),
        hub.register(chain, region, now).registrations[chain] == seq![region],
        hub.register(chain, region, now).total_chains == hub.total_chains + 1,
{
    assert(!hub.registrations.contains_key(chain));
    assert(list_at(hub.registrations, chain).push(region) =~= seq![region]);
}

} // verus!
