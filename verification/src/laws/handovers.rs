//! Laws on what one step hands to the next: what is told of an attempt, what is kept
//! for the next one, and what a store is asked for.

use crate::awards::{awards_boss, first_clear_award, StatAward};
use crate::boss_error::{BossErrorView, BossServiceErrorView, DigBossRuntimeError};
use crate::boss_service::{
    composed_failure, untaxed_profit, BankruptcyAdjustment, DigBossRuntimeResult,
    DigBossRuntimeService, DigBossVanityTaxPort, NoDigBossVanityTax, NoticeView,
};
use crate::boss_store::{CacheView, PlayerKey};
use crate::boss_store::DigBossRuntimeSnapshot;
use crate::boss_tunnel::{echo_of, StoredEchoView};
use crate::cave_in::lengthened;
use crate::combat::{EffectsView, PreparationView};
use crate::duel_row::DuelView;
use crate::encounter::{
    after_cheer, check_cheer, cheerer_tunnel_name, column_after, is_meeting_plan, tell_retreat,
    DigBossCheerCommitOutcome, DigBossRetreatOutcome, RetreatPlan,
};
use crate::fight::{require_pinnacle_duel, warded};
use crate::inventory::{InventoryItemRecord, RecordView};
use crate::json::{column_object, json_of_text, JsonView};
use crate::loot::{
    after_gift, after_queueing, after_use, artifact_ids, item_place, next_id, relic_place,
    tunnel_with_loot, with_artifact, LootStateView,
};
use crate::pinnacle::{
    check_pinnacle, tell_pinnacle, DigPinnacleResolved, PinnacleRoll, PinnacleSettlement,
    PinnacleSettlementInput, RollView,
};
use crate::preparation::{plan_activation, PreparationStep};
use crate::report::dig_progressive_tip;
use crate::settlement::{DigOutcome, StateView};
use crate::snapshot::{ArtifactView, ItemView, SnapshotView, TunnelView};
use crate::spoils::same_but_spoils;
use crate::streak::next_streak;
use crate::text::{int_text, text_view};
use crate::turn::{ready_reduces, ready_snapshot, seeks_artifact, take_pet_help, with_pet, RuledDig};
use crate::upkeep::{fallen_dig, refunded};
use crate::wager::{plan_abandon, without_carry, AbandonPlan};
use vstd::prelude::*;

verus! {

/// An echo of a kill is told with its boss, its killer, how long it lasts and where.
pub proof fn law_echo_is_told(stored: StoredEchoView)
    ensures
        ({
            let echo = echo_of(stored);
            &&& echo.boss_id == stored.boss_id && echo.killer_id == stored.killer_id
            &&& echo.weakened_until == stored.weakened_until
            &&& i32::MIN <= stored.depth <= i32::MAX ==> echo.boundary == stored.depth
            &&& stored.depth > i32::MAX ==> echo.boundary == i32::MAX
        }),
{
}

/// A player who is forgotten has no latest record; what others have, and what was
/// known of the player by revision, stays.
pub proof fn law_cache_forgets_one_player(
    cache: CacheView,
    key: PlayerKey,
    other: PlayerKey,
    revision: u64,
)
    requires
        other != key,
    ensures
        ({
            let after = cache.forgetting(key);
            &&& !after.latest.dom().contains(key)
            &&& after.latest.dom().contains(other) <==> cache.latest.dom().contains(other)
            &&& cache.latest.dom().contains(other) ==> after.latest[other] == cache.latest[other]
            &&& after.revisions == cache.revisions && after.next_revision == cache.next_revision
        }),
{
}

/// A retreat is told with the blocks and the wager that it cost.
pub proof fn law_retreat_is_told(
    boundary: i64,
    plan: &RetreatPlan,
    told: Result<DigBossRetreatOutcome, DigBossRuntimeError>,
)
    requires
        call_ensures(tell_retreat, (boundary, plan), told),
        plan.forfeit > i64::MIN,
    ensures
        told is Ok <==> i32::MIN <= boundary <= i32::MAX && i32::MIN <= plan.proposed@.depth
            <= i32::MAX,
        told matches Ok(told) ==> told.boundary == boundary && told.block_loss == plan.block_loss
            && told.new_depth == plan.proposed@.depth && told.carried_wager_forfeit == plan.forfeit
            && told.actual_balance_delta == -plan.forfeit,
{
}

/// Nobody cheers for themselves; a cheer is stored, tried again or refused.
pub proof fn law_cheer_is_answered(
    cheerer_id: i64,
    target_id: i64,
    checked: Result<(), DigBossRuntimeError>,
    outcome: DigBossCheerCommitOutcome,
    answer: Result<bool, DigBossRuntimeError>,
    name: String,
)
    requires
        call_ensures(check_cheer, (cheerer_id, target_id), checked),
        call_ensures(after_cheer, (outcome,), answer),
        call_ensures(cheerer_tunnel_name, (cheerer_id,), name),
    ensures
        checked is Ok <==> cheerer_id != target_id,
        checked matches Err(error) ==> error@ is SelfCheer,
        outcome is Applied ==> (answer matches Ok(stored) && stored),
        outcome is Conflict ==> (answer matches Ok(stored) && !stored),
        outcome is MissingCheerer ==> (answer matches Err(error) && error@
            == BossErrorView::Policy(BossServiceErrorView::MissingTunnel)),
        outcome is MissingTarget ==> (answer matches Err(error) && error@ is CheerTargetMissing),
        name@ == "Miner "@ + int_text(cheerer_id as int),
{
}

proof fn lemma_meeting_words()
    ensures
        "first_meet_seen"@.len() == 15,
        "boss_id"@.len() == 7,
        "status"@.len() == 6,
{
    reveal_strlit("first_meet_seen");
    reveal_strlit("boss_id");
    reveal_strlit("status");
}

/// A boss is met for the first time until its entry says that it was met; then the
/// column names the boss as met, and nothing else in it changes.
pub proof fn law_meeting_is_kept_once(
    column: Option<Seq<char>>,
    boundary: Seq<char>,
    boss_id: Seq<char>,
    plan: Option<Seq<char>>,
    other: Seq<char>,
)
    requires
        is_meeting_plan(column, boundary, boss_id, plan),
        other != boundary,
    ensures
        match column_object(column).get(boundary) {
            Some(JsonView::Object(map)) => plan is None <==> JsonView::Object(map).bool_at(
                "first_meet_seen"@,
            ) == Some(true) && JsonView::Object(map).text_at("boss_id"@) == Some(boss_id),
            _ => plan is Some,
        },
        plan is None ==> column_after(column, plan) == column,
        plan matches Some(text) ==> column_after(column, plan) == Some(text),
{
    lemma_meeting_words();
}

/// Salts that ward off a blow are spent in the fight that goes on, and nothing else
/// in it changes.
pub proof fn law_warded_fight_goes_on(duel: DuelView)
    ensures
        ({
            let after = warded(duel);
            &&& duel == (DuelView { effects: duel.effects, ..after })
            &&& duel.effects == (EffectsView {
                boss_preparation: duel.effects.boss_preparation,
                ..after.effects
            })
            &&& match duel.effects.boss_preparation {
                Some(prep) => if prep.item_type == "warding_salts"@ {
                    after.effects.boss_preparation == Some(PreparationView { used: true, ..prep })
                } else {
                    after.effects.boss_preparation == Some(prep)
                },
                None => after.effects.boss_preparation is None,
            }
        }),
{
}

/// An attempt on a pinnacle counts while its phase and boss stand.
pub proof fn law_attempt_counts_while_its_boss_stands(
    record: &DigBossRuntimeSnapshot,
    input: &PinnacleSettlementInput,
    checked: Result<(), DigBossRuntimeError>,
)
    requires
        call_ensures(check_pinnacle, (record, input), checked),
        1 <= record@.pinnacle_phase <= 3,
    ensures
        checked is Ok <==> record@.pinnacle_phase == input@.phase && record@.pinnacle_boss_id
            == Some(input@.boss_id),
        checked matches Err(error) ==> error@ == BossErrorView::InvalidPinnacle(
            "pinnacle phase or boss changed before settlement"@,
        ),
{
}

/// The end of an attempt is told as it was fought and settled. A boss that fell
/// for good is told by its name, and any other end by its phase.
pub proof fn law_pinnacle_is_told(
    input: &PinnacleSettlementInput,
    settled: &PinnacleSettlement,
    roll: &PinnacleRoll,
    boss_name: &str,
    phase_title: &str,
    told: Result<DigPinnacleResolved, DigBossRuntimeError>,
)
    requires
        call_ensures(tell_pinnacle, (input, settled, roll, boss_name, phase_title), told),
    ensures
        told is Ok <==> i32::MIN <= settled.proposed@.depth <= i32::MAX,
        told matches Ok(told) ==> {
            &&& told.new_depth == settled.proposed@.depth && told.won == input@.won
            &&& told.boss_id@ == input@.boss_id && told.phase == input@.phase
            &&& input@.won && input@.phase == 3 ==> told.boss_name@ == boss_name@
            &&& !input@.won || input@.phase != 3 ==> told.boss_name@ == phase_title@
            &&& told.risk_tier == input@.risk_tier && told.wager == input@.wager
            &&& told.figures == settled.figures && told.boss_hp_max == input@.boss_hp_max
            &&& input@.won ==> told.boss_hp_remaining == 0
            &&& !input@.won && input@.ending_boss_hp >= 0 ==> told.boss_hp_remaining
                == input@.ending_boss_hp
            &&& !input@.won && input@.ending_boss_hp < 0 ==> told.boss_hp_remaining == 0
            &&& told.rescue_line_used == settled.rescue_line_used
            &&& told.warding_salts_blocked == input@.warding_salts_blocked
            &&& match roll@ {
                RollView::Transition { event_id, .. } => text_view(told.phase_event_id) == Some(
                    event_id,
                ),
                _ => told.phase_event_id is None,
            }
        },
{
}

/// Spoils change what is told of spoils, and nothing else.
pub proof fn law_spoils_are_apart<T>(a: DigBossRuntimeResult<T>, b: DigBossRuntimeResult<T>)
    requires
        same_but_spoils(a, b),
    ensures
        a.outcome == b.outcome && a.action_id == b.action_id && a.notices == b.notices,
        a.abandoned_action_id == b.abandoned_action_id,
        a.abandoned_wager_forfeit == b.abandoned_wager_forfeit,
        a.abandoned_gear_wear == b.abandoned_gear_wear,
{
}

/// What is told of a settled fight: its key, its boss, who won, and the coins.
pub proof fn law_settled_fight_is_noticed(
    outcome: u8,
    action_id: Option<i64>,
    warnings: Vec<String>,
    key: PlayerKey,
    boss_id: &str,
    won: bool,
    jc_delta: i64,
    result: DigBossRuntimeResult<u8>,
)
    requires
        call_ensures(
            DigBossRuntimeResult::<u8>::resolved,
            (outcome, action_id, warnings, key, boss_id, won, jc_delta),
            result,
        ),
    ensures
        result.outcome == outcome && result.action_id == action_id,
        result.warnings == warnings && result.notices@.len() == 1,
        result.notices@[0]@ == (NoticeView::Resolved { key, boss_id: boss_id@, won, jc_delta }),
        result.abandoned_action_id is None && result.gear_drop is None,
        result.broken_gear@.len() == 0 && result.prestige_relic_drop is None,
{
    let views = crate::boss_service::notice_views(result.notices@);
    assert(views.len() == result.notices@.len());
    assert(views[0] == result.notices@[0]@);
}

/// A result keeps all but its outcome when it is told in other words.
pub proof fn law_result_is_told_otherwise(
    before: DigBossRuntimeResult<u8>,
    outcome: u16,
    after: (DigBossRuntimeResult<u16>, u8),
)
    requires
        call_ensures(DigBossRuntimeResult::<u8>::with_outcome::<u16>, (before, outcome), after),
    ensures
        after.1 == before.outcome && after.0.outcome == outcome,
        after.0.action_id == before.action_id && after.0.notices == before.notices,
        after.0.abandoned_action_id == before.abandoned_action_id,
        after.0.abandoned_wager_forfeit == before.abandoned_wager_forfeit,
        after.0.abandoned_gear_wear == before.abandoned_gear_wear,
        after.0.gear_drop == before.gear_drop && after.0.broken_gear == before.broken_gear,
        after.0.prestige_relic_drop == before.prestige_relic_drop,
        after.0.warnings == before.warnings,
{
}

/// A profit that nothing taxes is left whole.
pub proof fn law_untaxed_profit_is_whole(
    service: &DigBossRuntimeService<NoDigBossVanityTax>,
    key: PlayerKey,
    winnings: i64,
    penalized: i64,
    penalty_applied: i64,
    left: BankruptcyAdjustment,
)
    requires
        call_ensures(untaxed_profit, (service, key, winnings, penalized, penalty_applied), left),
    ensures
        left.penalized == penalized && left.penalty_applied == penalty_applied,
        left.vanity_tax == 0,
{
}

/// A profit is taxed at what the service's tax asks of the winnings, and no more
/// than is left of them.
pub proof fn law_profit_is_taxed_once<V: DigBossVanityTaxPort>(
    service: &DigBossRuntimeService<V>,
    key: PlayerKey,
    winnings: i64,
    penalized: i64,
    penalty_applied: i64,
    left: BankruptcyAdjustment,
)
    requires
        call_ensures(
            DigBossRuntimeService::<V>::apply_penalty,
            (service, key, winnings, penalized, penalty_applied),
            left,
        ),
        0 <= penalized,
    ensures
        left.penalty_applied == penalty_applied,
        left.penalized + left.vanity_tax == penalized && left.penalized >= 0,
        left.vanity_tax >= 0,
        exists|tax: i64| #[trigger]
            call_ensures(
                V::calculate_tax,
                (&service.taxes(), key.player_id, key.guild_id, winnings),
                tax,
            ) && (0 <= tax <= penalized ==> left.vanity_tax == tax) && (tax < 0
                ==> left.vanity_tax == 0) && (tax > penalized ==> left.vanity_tax == penalized),
{
    let tax = choose|tax: i64| #[trigger]
        call_ensures(
            V::calculate_tax,
            (&service.taxes(), key.player_id, key.guild_id, winnings),
            tax,
        ) && left == crate::boss_service::adjusted(penalized, penalty_applied, tax);
    assert(call_ensures(
        V::calculate_tax,
        (&service.taxes(), key.player_id, key.guild_id, winnings),
        tax,
    ));
}

/// A failed record is told before a failed preparation.
pub proof fn law_failed_record_is_told_first(
    record: Option<String>,
    preparation: Option<String>,
    failure: Option<DigBossRuntimeError>,
)
    requires
        call_ensures(composed_failure, (record, preparation), failure),
    ensures
        failure is Some <==> record is Some || preparation is Some,
        record matches Some(words) ==> (failure matches Some(error) && error@
            == BossErrorView::Infrastructure(words@)),
        record is None ==> (preparation matches Some(words) ==> (failure matches Some(error)
            && error@ == BossErrorView::Infrastructure(words@))),
{
}

/// A duel is a pinnacle's where it stands at the pinnacle's depth under a known name.
pub proof fn law_duel_is_a_pinnacles(
    row: &crate::duel_row::DigBossPausedDuelRow,
    depth: i32,
    known: bool,
    answer: Result<(), DigBossRuntimeError>,
)
    requires
        call_ensures(require_pinnacle_duel, (row, depth, known), answer),
    ensures
        answer is Ok <==> row@.boundary == depth && known,
        answer matches Err(error) ==> error@ is InvalidPinnacle,
{
}

/// A carried wager and its risk are taken from the entry of their boss; the rest of
/// the column stays.
pub proof fn law_carried_wager_is_cleared(
    tree: JsonView,
    entry: JsonView,
    boundary: i32,
    key: Seq<char>,
)
    requires
        tree is Object,
        tree.get(int_text(boundary as int)) == Some(entry),
        entry is Object,
    ensures
        ({
            let after = without_carry(tree, boundary);
            &&& key != int_text(boundary as int) ==> after.get(key) == tree.get(key)
            &&& match after.get(int_text(boundary as int)) {
                Some(kept) => kept.get("carried_wager"@) is None && kept.get("carried_risk_tier"@)
                    is None && (key != "carried_wager"@ && key != "carried_risk_tier"@
                    ==> kept.get(key) == entry.get(key)),
                None => false,
            }
        }),
{
}

/// A given-up fight costs its wager, as far as the wallet goes, and takes what was
/// carried with it; the rest of the record stays.
pub proof fn law_abandoned_fight_costs_its_wager(
    record: &DigBossRuntimeSnapshot,
    wager: i64,
    boundary: i32,
    boss_id: &str,
    plan: Result<AbandonPlan, DigBossRuntimeError>,
)
    requires
        call_ensures(plan_abandon, (record, wager, boundary, boss_id), plan),
        0 <= wager,
        0 <= record@.balance,
    ensures
        plan matches Ok(plan) ==> {
            &&& wager <= record@.balance ==> plan.wager_forfeit == wager
            &&& wager > record@.balance ==> plan.wager_forfeit == record@.balance
            &&& plan.proposed@.balance + plan.wager_forfeit == record@.balance
            &&& record@ == (crate::boss_store::BossRecordView {
                balance: record@.balance,
                boss_progress_json: record@.boss_progress_json,
                ..plan.proposed@
            })
            &&& record@.boss_progress_json is None ==> plan.proposed@.boss_progress_json is None
        },
        plan is Err <==> (record@.boss_progress_json matches Some(text) && json_of_text(text)
            is None),
{
}

/// A ledger that cannot be read stops an award; a boss already in it gets none.
pub proof fn law_award_is_given_once(
    stat_points: i64,
    prestige: i64,
    column: Option<&str>,
    boundary: i32,
    award: Result<Option<StatAward>, String>,
)
    requires
        call_ensures(first_clear_award, (stat_points, prestige, column, boundary), award),
    ensures
        award is Err <==> (column matches Some(text) && !crate::text::blank(text@) && json_of_text(
            text@,
        ) is None),
        award matches Ok(given) ==> (given is Some <==> !awards_boss(
            crate::text::str_view(column),
            prestige,
            boundary as i64,
        )),
{
}

/// A cave-in may lengthen an injury, as far as the count goes.
pub proof fn law_injury_is_lengthened(digs: i64, bonus: i64, longer: Option<i64>)
    requires
        call_ensures(lengthened, (digs, bonus), longer),
    ensures
        i64::MIN <= digs + bonus <= i64::MAX <==> longer is Some,
        longer matches Some(sum) ==> sum == digs + bonus,
{
}

/// A tunnel is made ready: its injury wears off by a dig and its light comes back,
/// and nothing but the tunnel changes.
pub proof fn law_dig_is_made_ready(snapshot: SnapshotView, now: i64)
    ensures
        ({
            let ready = ready_snapshot(snapshot, now);
            &&& snapshot == (SnapshotView { tunnel: snapshot.tunnel, ..ready })
            &&& snapshot.tunnel is None ==> ready.tunnel is None && !ready_reduces(snapshot)
            &&& snapshot.tunnel matches Some(tunnel) ==> (ready.tunnel matches Some(after)
                && after.last_lum_update_at == Some(now) && tunnel == (TunnelView {
                injury_state: tunnel.injury_state,
                luminosity: tunnel.luminosity,
                last_lum_update_at: tunnel.last_lum_update_at,
                ..after
            }) && after.injury_state == crate::condition::ticked_injury(tunnel.injury_state)
                && (ready_reduces(snapshot) <==> crate::condition::tick_reduces(
                tunnel.injury_state,
            )))
        }),
{
}

/// A digger who falls is where the fall ends, without an advance; all else stays.
pub proof fn law_fall_ends_the_dig(state: StateView, outcome: DigOutcome, depth_after: i64)
    ensures
        ({
            let after = fallen_dig((state, outcome), depth_after);
            &&& after.0.depth == depth_after && after.1.depth_after == depth_after
            &&& after.1.advance == 0
            &&& state == (StateView { depth: state.depth, ..after.0 })
            &&& outcome == (DigOutcome {
                depth_after: outcome.depth_after,
                advance: outcome.advance,
                ..after.1
            })
        }),
{
}

/// A refund goes to the wallet; all else stays.
pub proof fn law_refund_goes_to_the_wallet(state: StateView, refund: i64)
    requires
        i64::MIN <= state.balance + refund <= i64::MAX,
    ensures
        refunded(state, refund).balance == state.balance + refund,
        state == (StateView { balance: state.balance, ..refunded(state, refund) }),
{
}

/// A pet helps a dig that neither caved in nor met a boss, with its chosen ruling.
pub proof fn law_pet_ruling_is_taken(
    dig: (StateView, DigOutcome),
    helped: Seq<(StateView, DigOutcome)>,
)
    ensures
        dig.1.cave_in || dig.1.boss_encounter is Some ==> with_pet(dig, helped) == dig,
        helped.len() == 0 ==> with_pet(dig, helped) == dig,
        helped.len() == 1 && !dig.1.cave_in && dig.1.boss_encounter is None ==> with_pet(
            dig,
            helped,
        ) == helped[0],
        helped.len() == 2 && !dig.1.cave_in && dig.1.boss_encounter is None ==> with_pet(
            dig,
            helped,
        ) == (if helped[0].1.boss_encounter is Some {
            helped[0]
        } else {
            helped[1]
        }),
{
    reveal_with_fuel(crate::settlement::pet_choice, 4);
    let outcomes = crate::turn::outcomes_of(helped);
    assert(outcomes.len() == helped.len());
}

/// What a pet brought a dig forward is told; artifacts are sought where nothing hides
/// them.
pub proof fn law_pet_blocks_are_told(
    dig: RuledDig,
    helped: Vec<RuledDig>,
    taken: (RuledDig, i64),
    outcome: &DigOutcome,
    hidden: bool,
    seeks: bool,
)
    requires
        call_ensures(take_pet_help, (dig, helped), taken),
        call_ensures(seeks_artifact, (outcome, hidden), seeks),
        0 <= dig.outcome.advance <= 1_000_000,
        0 <= taken.0.outcome.advance <= 1_000_000,
    ensures
        taken.1 == taken.0.outcome.advance - dig.outcome.advance,
        seeks <==> !outcome.cave_in && !hidden,
{
}

/// The streak of a tunnel goes on the day after the last, is kept on the same day,
/// and starts anew otherwise.
pub proof fn law_streak_goes_by_days(
    streak_days: i64,
    last: &str,
    today: &str,
    gap: Option<i64>,
    days: i64,
    first: i64,
)
    requires
        call_ensures(next_streak, (streak_days, Some(last), today, gap), days),
        call_ensures(next_streak, (streak_days, None::<&str>, today, gap), first),
        1 <= streak_days <= 1_000_000,
    ensures
        first == 1,
        last@ == today@ ==> days == streak_days,
        last@ != today@ && gap == Some(1i64) ==> days == streak_days + 1,
        last@ != today@ && gap != Some(1i64) ==> days == 1,
{
}

/// A queued item is marked in its own row, where none of its kind is queued.
pub proof fn law_item_is_queued(before: SnapshotView, item_id: i64, place: int)
    requires
        item_place(before.inventory, item_id) == Some(place),
        0 <= place < before.inventory.len(),
    ensures
        match after_queueing(before, item_id) {
            Some(after) => {
                &&& after.inventory.len() == before.inventory.len()
                &&& after.inventory[place].queued
                &&& after.inventory[place].id == before.inventory[place].id
                &&& after.inventory[place].item_type == before.inventory[place].item_type
                &&& forall|i: int|
                    0 <= i < before.inventory.len() ==> i != place ==> #[trigger] after.inventory[i]
                        == before.inventory[i]
                &&& before == (SnapshotView { inventory: before.inventory, ..after })
                &&& forall|i: int|
                    0 <= i < before.inventory.len() ==> !((#[trigger] before.inventory[i]).queued
                        && before.inventory[i].item_type == before.inventory[place].item_type)
            },
            None => exists|i: int|
                0 <= i < before.inventory.len() && (#[trigger] before.inventory[i]).queued
                    && before.inventory[i].item_type == before.inventory[place].item_type,
        },
{
}

/// Used items are gone from the satchel, and the tunnel shows what they did.
pub proof fn law_used_items_are_gone(
    before: SnapshotView,
    tunnel: TunnelView,
    loot: LootStateView,
    ids: Seq<i64>,
    item: ItemView,
)
    requires
        before.tunnel == Some(tunnel),
    ensures
        ({
            let after = after_use(before, loot, ids);
            &&& after.inventory.contains(item) <==> before.inventory.contains(item)
                && !ids.contains(item.id)
            &&& after.tunnel == Some(tunnel_with_loot(tunnel, loot))
            &&& before == (SnapshotView {
                tunnel: before.tunnel,
                inventory: before.inventory,
                ..after
            })
        }),
{
    crate::loot::law_burnt_rows_are_gone(before.inventory, ids, item);
}

/// A found artifact is a row of its own, not worn yet.
pub proof fn law_artifact_is_found(before: SnapshotView, artifact_id: Seq<char>, is_relic: bool)
    ensures
        ({
            let after = with_artifact(before, artifact_id, is_relic);
            &&& after.artifacts.drop_last() == before.artifacts
            &&& after.artifacts.last().artifact_id == artifact_id
            &&& after.artifacts.last().is_relic == is_relic && !after.artifacts.last().equipped
            &&& after.artifacts.last().id == next_id(artifact_ids(before.artifacts))
            &&& before == (SnapshotView { artifacts: before.artifacts, ..after })
        }),
{
    let after = with_artifact(before, artifact_id, is_relic);
    assert(after.artifacts.drop_last() =~= before.artifacts);
}

/// A relic is taken off before it is given away; other rows stay as they are.
pub proof fn law_given_relic_is_taken_off(before: SnapshotView, id: i64, place: int)
    requires
        relic_place(before.artifacts, id) == Some(place),
        0 <= place < before.artifacts.len(),
    ensures
        after_gift(before, id) matches Some(after) && !after.artifacts[place].equipped
            && before.artifacts[place] == (ArtifactView {
            equipped: before.artifacts[place].equipped,
            ..after.artifacts[place]
        }) && after.artifacts.len() == before.artifacts.len() && (forall|i: int|
            0 <= i < before.artifacts.len() && i != place ==> #[trigger] after.artifacts[i]
                == before.artifacts[i]) && before == (SnapshotView {
            artifacts: before.artifacts,
            ..after
        }),
{
}

/// The first queued preparation is made ready where none stands ready for the boss.
pub proof fn law_queued_preparation_is_made_ready(
    column: Option<&str>,
    boundary: i32,
    queued: &Vec<InventoryItemRecord>,
    step: PreparationStep,
)
    requires
        call_ensures(plan_activation, (column, boundary, queued), step),
    ensures
        queued@.len() == 0 ==> step is Nothing,
        match step {
            PreparationStep::Activate { item_id, item_type, .. } => {
                &&& item_type@ == "tempered_whetstone"@ || item_type@ == "warding_salts"@
                    || item_type@ == "rescue_line"@
                &&& exists|i: int|
                    0 <= i < queued@.len() && (#[trigger] queued@[i])@.id == item_id
                        && queued@[i]@.item_type == item_type@
            },
            PreparationStep::Nothing => true,
        },
{
    let records = crate::inventory::record_views(queued@);
    lemma_first_preparation(records);
    if let PreparationStep::Activate { item_id, item_type, .. } = step {
        let place = choose|i: int|
            0 <= i < records.len() && #[trigger] records[i]
                == crate::preparation::first_preparation(records)->0;
        assert(queued@[place]@ == records[place]);
    }
}

proof fn lemma_first_preparation(records: Seq<RecordView>)
    ensures
        crate::preparation::first_preparation(records) matches Some(record) ==> (exists|i: int|
            0 <= i < records.len() && #[trigger] records[i] == record)
            && crate::preparation::preparation_item(record.item_type),
    decreases records.len(),
{
    if records.len() > 0 {
        lemma_first_preparation(records.drop_last());
        if let Some(record) = crate::preparation::first_preparation(records.drop_last()) {
            let place = choose|i: int|
                0 <= i < records.len() - 1 && #[trigger] records.drop_last()[i] == record;
            assert(records[place] == record);
        }
        assert(records[records.len() - 1] == records.last());
    }
}

/// There are three tips for each stretch of the way down, by depth.
pub proof fn law_tips_go_by_depth(depth: i64, seed: i64, tip: String)
    requires
        call_ensures(dig_progressive_tip, (depth, seed), tip),
        0 <= seed,
    ensures
        depth <= 10 && seed % 3 == 0 ==> tip@
            == "Use /dig to advance your tunnel. Your first dig each day is free!"@,
        depth <= 10 && seed % 3 == 1 ==> tip@
            == "Buy items from the shop with /dig shop. Dynamite blasts through rock fast."@,
        depth <= 10 && seed % 3 == 2 ==> tip@
            == "Each layer gets harder but more rewarding. Keep digging!"@,
        10 < depth <= 25 && seed % 3 == 0 ==> tip@
            == "Ask a friend to /dig help you — it slows down decay too."@,
        10 < depth <= 25 && seed % 3 == 1 ==> tip@
            == "Watch out for sabotage! Buy insurance to protect your tunnel."@,
        10 < depth <= 25 && seed % 3 == 2 ==> tip@
            == "Set a trap to punish anyone who tries to sabotage you."@,
        25 < depth <= 50 && seed % 3 == 0 ==> tip@
            == "Bosses guard each layer boundary. Choose your strategy wisely."@,
        25 < depth <= 50 && seed % 3 == 1 ==> tip@
            == "Prestige resets your depth but grants permanent bonuses."@,
        25 < depth <= 50 && seed % 3 == 2 ==> tip@
            == "Upgrade your pickaxe for better digging performance."@,
        depth > 50 && seed % 3 == 0 ==> tip@
            == "Relics give permanent bonuses — equip them from your inventory."@,
        depth > 50 && seed % 3 == 1 ==> tip@
            == "Deeper layers have rarer artifacts. Keep exploring!"@,
        depth > 50 && seed % 3 == 2 ==> tip@
            == "Stack sabotage defenses: insurance + reinforcement + relics."@,
{
}

} // verus!
