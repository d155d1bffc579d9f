//! Laws on attempts at bosses, wagers on them, and what they leave.

use crate::attempt::{
    after_answer, after_round, after_warding, answered_round, attempt_boss_damage, attempt_number,
    attempt_player_damage, attempt_player_hp, attempt_step, base_numbers, choose_option,
    fresh_boss_hp, pending_event, plan_pinnacle_lock, salts_ward, scout_lantern, started_effects,
    whetted_damage, without_event, AttemptStep, BaseNumbers, PhaseEvent, RoundStep,
};
use crate::awards::{is_award, StatAward};
use crate::boss_error::{BossErrorView, BossServiceErrorView, DigBossRuntimeError};
use crate::boss_store::{BossRecordView, DigBossRuntimeSnapshot};
use crate::combat::{attempt_effect, EffectsView, PetAssistView, PreparationView, TrophyEffects};
use crate::curse::{curse_of, with_curse, CurseView};
use crate::duel::{RiskTier, RoundView};
use crate::duel_row::DuelView;
use crate::encounter::CarriedWager;
use crate::fight::{
    after_event, after_lantern, after_store, fought, fought_out, paused, pinnacle_question, resumed,
    AnswerEffect, AttemptView,
};
use crate::json::JsonView;
use crate::spoils::{
    enriched, with_broken, with_gear, with_relic, BrokenGearAnswer, FightEnd, GearGrant,
    RelicAnswer, SpoilsView,
};
use crate::wager::{
    abandon_detail, check_wager, forfeits_wager, resolve_pinnacle_wager, resolve_start_wager,
    stake_needs_wallet, AcceptedWager, PinnacleStake,
};
use vstd::prelude::*;

verus! {

/// The numbers of each risk: the bolder, the less health and the more damage of the
/// player, and the more health of the boss.
pub proof fn law_risk_sets_the_numbers(
    cautious: BaseNumbers,
    bold: BaseNumbers,
    reckless: BaseNumbers,
)
    requires
        call_ensures(base_numbers, (RiskTier::Cautious,), cautious),
        call_ensures(base_numbers, (RiskTier::Bold,), bold),
        call_ensures(base_numbers, (RiskTier::Reckless,), reckless),
    ensures
        (cautious.player_hp, bold.player_hp, reckless.player_hp) == (5i32, 3i32, 2i32),
        (cautious.boss_hp, bold.boss_hp, reckless.boss_hp) == (4i32, 5i32, 6i32),
        (cautious.player_damage, bold.player_damage, reckless.player_damage) == (1i32, 2i32, 3i32),
        (cautious.boss_damage, bold.boss_damage, reckless.boss_damage) == (1i32, 1i32, 1i32),
        (cautious.critical_bonus, bold.critical_bonus, reckless.critical_bonus) == (0i32, 1i32, 1i32),
{
}

/// An event of a phase moves health and damage by its figures. Health and the
/// damage of the boss stay at one at least, the damage of the player at nothing.
pub proof fn law_event_moves_the_numbers(
    scaled: i32,
    darkness: i32,
    spared: bool,
    event: PhaseEvent,
    boss_hp: i32,
    boss_damage: i32,
    player_damage: i32,
    player_hp: i32,
    whetted: i32,
)
    requires
        -1_000_000 <= scaled <= 1_000_000,
        -1_000_000 <= darkness <= 1_000_000,
        -1_000_000 <= event.boss_hp_delta <= 1_000_000,
        -1_000_000 <= event.boss_damage_delta <= 1_000_000,
        -1_000_000 <= event.player_damage_delta <= 1_000_000,
        -1_000_000 <= event.player_hp_delta <= 1_000_000,
        call_ensures(fresh_boss_hp, (scaled, Some(event)), boss_hp),
        call_ensures(attempt_boss_damage, (scaled, darkness, spared, Some(event)), boss_damage),
        call_ensures(attempt_player_damage, (scaled, Some(event)), player_damage),
        call_ensures(attempt_player_hp, (scaled, Some(event)), player_hp),
        call_ensures(whetted_damage, (scaled, darkness), whetted),
    ensures
        scaled + event.boss_hp_delta >= 1 ==> boss_hp == scaled + event.boss_hp_delta,
        scaled + event.boss_hp_delta < 1 ==> boss_hp == 1,
        spared && scaled + event.boss_damage_delta >= 1 ==> boss_damage == scaled
            + event.boss_damage_delta,
        !spared && scaled + darkness + event.boss_damage_delta >= 1 ==> boss_damage == scaled
            + darkness + event.boss_damage_delta,
        boss_damage >= 1,
        scaled >= 1 && scaled + event.player_damage_delta >= 0 ==> player_damage == scaled
            + event.player_damage_delta,
        scaled < 1 && 1 + event.player_damage_delta >= 0 ==> player_damage == 1
            + event.player_damage_delta,
        player_damage >= 0,
        scaled + event.player_hp_delta >= 1 ==> player_hp == scaled + event.player_hp_delta,
        scaled + event.player_hp_delta < 1 ==> player_hp == 1,
        whetted == scaled + darkness,
{
}

/// Without an event a phase has the numbers that it was scaled to.
pub proof fn law_no_event_moves_nothing(scaled: i32, boss_hp: i32, damage: i32, player_hp: i32)
    requires
        1 <= scaled,
        call_ensures(fresh_boss_hp, (scaled, None::<PhaseEvent>), boss_hp),
        call_ensures(attempt_player_damage, (scaled, None::<PhaseEvent>), damage),
        call_ensures(attempt_player_hp, (scaled, None::<PhaseEvent>), player_hp),
    ensures
        boss_hp == scaled && damage == scaled && player_hp == scaled,
{
}

/// A fight starts with the idol, the pet and the item it was given, and keeps the
/// health it starts with where an effect needs it.
pub proof fn law_fight_starts_with_its_effects(
    effects: EffectsView,
    player_hp: i32,
    idol: Option<Seq<char>>,
    assist: Option<PetAssistView>,
    prep: Option<PreparationView>,
)
    ensures
        ({
            let begun = started_effects(effects, player_hp, idol, assist, prep);
            &&& begun.shifting_idol_bonus == idol && begun.pet_assist == assist
            &&& begun.boss_preparation == prep
            &&& effects.trophies.lifesteal || effects.relics.deaths_door
                ==> begun.trophies.start_hp == Some(player_hp)
            &&& !attempt_effect(effects) ==> begun.trophies == effects.trophies
            &&& begun.relics == effects.relics && begun.gear == effects.gear
            &&& begun.conditions == effects.conditions && begun.blocked == effects.blocked
            &&& effects.trophies == (TrophyEffects {
                start_hp: effects.trophies.start_hp,
                ..begun.trophies
            })
        }),
{
}

/// The event that waits at the pinnacle is the one that was written there, and
/// taking it leaves the rest of the entry.
pub proof fn law_event_waits_at_the_pinnacle(
    progress: JsonView,
    entry: JsonView,
    depth: i32,
    event_id: Seq<char>,
    field: Seq<char>,
)
    requires
        progress is Object,
        entry is Object,
        field != "pending_phase_event_id"@,
    ensures
        ({
            let key = crate::text::int_text(depth as int);
            let waiting = progress.with(
                key,
                entry.with("pending_phase_event_id"@, JsonView::Text(event_id)),
            );
            &&& pending_event(waiting, depth) == Some(event_id)
            &&& pending_event(without_event(waiting, depth), depth) is None
            &&& without_event(waiting, depth).get(key)->0.get(field) == entry.get(field)
        }),
{
}

/// An attempt pauses in the round of its mechanic while both sides stand, counts
/// its rounds, and is lost where the rounds run out.
pub proof fn law_rounds_run_their_course(
    round: u8,
    trigger: u8,
    player_hp: i32,
    boss_hp: i32,
    step: AttemptStep,
    last_round: u8,
    terminal: Option<bool>,
    next: RoundStep,
    resumed: RoundStep,
)
    requires
        call_ensures(attempt_step, (round, trigger, player_hp, boss_hp), step),
        call_ensures(after_round, (round, last_round, terminal), next),
        call_ensures(after_answer, (round, last_round, player_hp, boss_hp), resumed),
        round < u8::MAX,
    ensures
        step == AttemptStep::Pause <==> round == trigger && player_hp > 0 && boss_hp > 0,
        step == AttemptStep::Pause || step == AttemptStep::Fight,
        terminal matches Some(won) ==> next == (RoundStep::Ended { won }),
        terminal is None && round < last_round ==> next == (RoundStep::Next {
            round: (round + 1) as u8,
        }),
        terminal is None && round >= last_round ==> next == (RoundStep::Ended { won: false }),
        boss_hp <= 0 ==> resumed == (RoundStep::Ended { won: true }),
        boss_hp > 0 && player_hp <= 0 ==> resumed == (RoundStep::Ended { won: false }),
        boss_hp > 0 && player_hp > 0 && round < last_round ==> resumed == (RoundStep::Next {
            round: (round + 1) as u8,
        }),
        boss_hp > 0 && player_hp > 0 && round >= last_round ==> resumed == (RoundStep::Ended {
            won: false,
        }),
{
}

/// An answer that was not offered counts as the safe one; an attempt is the next
/// after those before it.
pub proof fn law_answers_and_attempts(
    requested: usize,
    options: usize,
    safe: usize,
    chosen: usize,
    before: i64,
    number: Result<i32, DigBossRuntimeError>,
)
    requires
        call_ensures(choose_option, (requested, options, safe), chosen),
        call_ensures(attempt_number, (before,), number),
    ensures
        requested < options ==> chosen == requested,
        requested >= options ==> chosen == safe,
        number matches Ok(number) ==> number == before + 1,
        number matches Err(error) ==> before + 1 > i32::MAX || before + 1 < i32::MIN,
{
}

/// Warding salts keep a mechanic off while they are unused, and are used by it; no
/// other item does.
pub proof fn law_salts_ward(item_type: Seq<char>, used: bool)
    ensures
        salts_ward(Some(PreparationView { item_type, used })) <==> item_type == "warding_salts"@
            && !used,
        !salts_ward(None),
        after_warding(Some(PreparationView { item_type: "warding_salts"@, used: false })) == Some(
            PreparationView { item_type: "warding_salts"@, used: true },
        ),
        item_type != "warding_salts"@ || used ==> after_warding(
            Some(PreparationView { item_type, used }),
        ) == Some(PreparationView { item_type, used }),
{
}

/// The round in which a mechanic was answered tells the health of both sides, no
/// less than nothing, and no blow.
pub proof fn law_answered_round_is_told(
    round: u8,
    player_hp: i32,
    boss_hp: i32,
    assist: Option<PetAssistView>,
)
    ensures
        ({
            let told = answered_round(round, player_hp, boss_hp, assist);
            &&& told.round == round && told.pet_assist == assist && told.pet_assist_damage == 0
            &&& player_hp >= 0 ==> told.player_hp == player_hp
            &&& player_hp < 0 ==> told.player_hp == 0
            &&& boss_hp >= 0 ==> told.boss_hp == boss_hp
            &&& boss_hp < 0 ==> told.boss_hp == 0
            &&& !told.player_hit && told.boss_hit is None
        }),
{
}

/// Scouting needs a Great Lantern, which is not used up, or takes the first of the
/// small ones.
pub proof fn law_scouting_needs_a_lantern(
    lanterns: &Vec<i64>,
    great: bool,
    lantern: Result<Option<i64>, DigBossRuntimeError>,
)
    requires
        call_ensures(scout_lantern, (lanterns, great), lantern),
    ensures
        great ==> lantern == Ok::<Option<i64>, DigBossRuntimeError>(None),
        !great && lanterns@.len() > 0 ==> lantern == Ok::<Option<i64>, DigBossRuntimeError>(
            Some(lanterns@[0]),
        ),
        !great && lanterns@.len() == 0 ==> lantern is Err,
{
}

/// A pinnacle boss is chosen once: a known one stays, and otherwise the chosen one
/// starts at its first phase with everything else as it was.
pub proof fn law_pinnacle_is_locked_once(
    record: &DigBossRuntimeSnapshot,
    known: bool,
    selected: &str,
    plan: Option<DigBossRuntimeSnapshot>,
)
    requires
        call_ensures(plan_pinnacle_lock, (record, known, selected), plan),
    ensures
        plan is None <==> record@.pinnacle_boss_id is Some && known,
        plan matches Some(proposed) ==> {
            &&& proposed@.pinnacle_boss_id == Some(selected@) && proposed@.pinnacle_phase == 1
            &&& record@ == (BossRecordView {
                pinnacle_boss_id: record@.pinnacle_boss_id,
                pinnacle_phase: record@.pinnacle_phase,
                ..proposed@
            })
        },
{
}

/// A paused attempt holds everything that it was stopped with.
pub proof fn law_pause_keeps_the_attempt(
    attempt: AttemptView,
    depth: i32,
    round: u8,
    rounds: Seq<RoundView>,
)
    ensures
        ({
            let duel = paused(attempt, depth, round, rounds);
            &&& duel.boss_id == attempt.boss_id && duel.boundary == depth
            &&& duel.mechanic_id == attempt.prompt.mechanic_id
            &&& duel.risk_tier == attempt.risk_tier && duel.wager == attempt.wager
            &&& duel.player_hp == attempt.numbers.player_hp
            &&& duel.boss_hp == attempt.numbers.boss_hp
            &&& duel.player_damage == attempt.numbers.player_damage
            &&& duel.boss_damage == attempt.numbers.boss_damage
            &&& duel.critical_bonus == attempt.numbers.critical_bonus
            &&& duel.effects == attempt.effects && duel.round_num == round
            &&& duel.round_log == rounds && duel.pending_prompt == attempt.prompt
            &&& duel.attempts_this_fight == attempt.attempts
            &&& duel.initial_win_chance == attempt.win_chance
            &&& duel.payout_multiplier == attempt.payout_multiplier
            &&& duel.boss_hp_max == attempt.boss_hp_max
            &&& duel.starting_boss_hp == attempt.starting_boss_hp
            &&& duel.gear_snapshot == attempt.gear_snapshot
            &&& !duel.forced_no_wager_phase && !duel.echo_applied && duel.echo_killer_id is None
        }),
{
}

/// What a fight hands to its settlement is how it was fought.
pub proof fn law_settlement_gets_the_fight(
    attempt: AttemptView,
    duel: DuelView,
    phase: u8,
    won: bool,
    close_win: bool,
    blocked: bool,
    rounds: Seq<RoundView>,
)
    ensures
        ({
            let input = fought(attempt, won, close_win, rounds);
            &&& input.boss_id == attempt.boss_id && input.phase == attempt.phase
            &&& input.risk_tier == attempt.risk_tier && input.wager == attempt.wager
            &&& input.won == won && input.close_win == close_win
            &&& input.ending_boss_hp == attempt.numbers.boss_hp
            &&& input.boss_hp_max == attempt.boss_hp_max
            &&& input.starting_boss_hp == attempt.starting_boss_hp
            &&& input.attempts == attempt.attempts && input.round_log == rounds
            &&& input.boss_preparation == attempt.effects.boss_preparation
            &&& !input.warding_salts_blocked
        }),
        ({
            let input = fought_out(duel, phase, won, close_win, blocked);
            &&& input.boss_id == duel.boss_id && input.phase == phase
            &&& input.risk_tier == duel.risk_tier && input.wager == duel.wager
            &&& input.won == won && input.close_win == close_win
            &&& input.ending_boss_hp == duel.boss_hp && input.boss_hp_max == duel.boss_hp_max
            &&& input.starting_boss_hp == duel.starting_boss_hp
            &&& input.attempts == duel.attempts_this_fight && input.round_log == duel.round_log
            &&& input.boss_preparation == duel.effects.boss_preparation
            &&& input.warding_salts_blocked == blocked
        }),
{
}

/// An answer sets the health of both sides and the effects; the rest of the duel
/// stays, and one round is told for it.
pub proof fn law_answer_is_felt(duel: DuelView, answer: AnswerEffect)
    ensures
        ({
            let after = resumed(duel, Some(answer));
            &&& after.player_hp == answer.player_hp && after.boss_hp == answer.boss_hp
            &&& after.effects == answer.effects@
            &&& after.round_log.len() == duel.round_log.len() + 1
            &&& after.round_log.last().round == duel.round_num
            &&& duel == (DuelView {
                player_hp: duel.player_hp,
                boss_hp: duel.boss_hp,
                effects: duel.effects,
                round_log: duel.round_log,
                ..after
            })
        }),
{
}

/// The question of the pinnacle is named after its mechanic.
pub proof fn law_pinnacle_asks_its_mechanic(
    mechanic: Seq<char>,
    options: Seq<crate::duel_row::OptionView>,
    safe: usize,
)
    ensures
        pinnacle_question(mechanic, options, safe).mechanic_id == mechanic,
        pinnacle_question(mechanic, options, safe).options == options,
        pinnacle_question(mechanic, options, safe).safe_option_index == safe,
        pinnacle_question(mechanic, options, safe).prompt_title.len() == mechanic.len(),
        forall|i: int|
            0 <= i < mechanic.len() ==> (#[trigger] pinnacle_question(
                mechanic,
                options,
                safe,
            ).prompt_title[i]) == (if mechanic[i] == '_' {
                ' '
            } else {
                mechanic[i]
            }),
{
}

/// What a store answers: applied is done, a conflict is tried again or, for an
/// event, fails, and without a tunnel nothing goes.
pub proof fn law_store_answers(
    applied: Result<bool, DigBossRuntimeError>,
    conflict: Result<bool, DigBossRuntimeError>,
    event: Result<(), DigBossRuntimeError>,
    event_conflict: Result<(), DigBossRuntimeError>,
    taken: bool,
    lantern: Result<(), DigBossRuntimeError>,
)
    requires
        call_ensures(after_store, (crate::boss_tunnel::CommitOutcome::Applied,), applied),
        call_ensures(after_store, (crate::boss_tunnel::CommitOutcome::Conflict,), conflict),
        call_ensures(after_event, (crate::boss_tunnel::CommitOutcome::Applied,), event),
        call_ensures(after_event, (crate::boss_tunnel::CommitOutcome::Conflict,), event_conflict),
        call_ensures(after_lantern, (taken,), lantern),
    ensures
        applied == Ok::<bool, DigBossRuntimeError>(true),
        conflict == Ok::<bool, DigBossRuntimeError>(false),
        event is Ok && event_conflict is Err,
        lantern is Ok <==> taken,
{
}

/// A wager is taken where it is not negative, the boss takes wagers and the wallet
/// covers it. The curse halves it, rounded up, and is used by that.
pub proof fn law_wager_is_taken(
    wager: i64,
    allowed: bool,
    cursed: bool,
    balance: i64,
    answer: Result<AcceptedWager, DigBossRuntimeError>,
)
    requires
        call_ensures(resolve_start_wager, (wager, allowed, cursed, balance), answer),
    ensures
        wager < 0 ==> answer is Err,
        wager > 0 && !allowed ==> answer is Err,
        wager >= 0 && (allowed || wager == 0) && !(cursed && wager > 0) ==> (answer is Ok <==> wager
            <= balance),
        wager > 0 && allowed && cursed ==> (answer is Ok <==> wager / 2 + wager % 2 <= balance),
        answer matches Ok(taken) ==> {
            &&& taken.consumes_curse <==> cursed && wager > 0
            &&& taken.consumes_curse ==> 2 * taken.effective == wager || 2 * taken.effective == wager
                + 1
            &&& !taken.consumes_curse ==> taken.effective == wager
        },
        answer matches Err(error) ==> wager >= 0 && (allowed || wager == 0) ==> (error@ matches
            BossErrorView::Policy(
            BossServiceErrorView::InsufficientBalance { wager: short, balance: held },
        ) && held == balance && short > balance),
{
}

/// At the pinnacle a carried stake goes before what is asked for, a free fight
/// always goes, and a new wager is at most its maximum and covered.
pub proof fn law_pinnacle_stake_is_taken(
    carried: Option<CarriedWager>,
    risk: RiskTier,
    wager: i64,
    maximum: i64,
    cursed: bool,
    balance: i64,
    answer: Result<PinnacleStake, DigBossRuntimeError>,
)
    requires
        call_ensures(
            resolve_pinnacle_wager,
            (true, carried, risk, wager, maximum, cursed, balance),
            answer,
        ),
        0 <= maximum,
    ensures
        carried matches Some(stake) ==> (answer matches Ok(taken) && taken.wager == stake.wager
            && taken.risk_tier == stake.risk_tier && taken.carried && !taken.consumes_curse),
        carried is None && wager == 0 ==> (answer matches Ok(taken) && taken.wager == 0
            && !taken.consumes_curse && taken.risk_tier == risk && !taken.carried),
        carried is None && (wager < 0 || wager > maximum) ==> answer is Err,
        carried is None && 0 < wager <= maximum && !cursed ==> (answer is Ok <==> wager <= balance),
        carried is None && 0 < wager <= maximum && cursed ==> (answer is Ok <==> wager / 2 + wager
            % 2 <= balance),
        carried is None && 0 < wager <= maximum ==> (answer matches Ok(taken) ==> taken.risk_tier
            == risk && !taken.carried && taken.consumes_curse == cursed && (!cursed ==> taken.wager
            == wager) && (cursed ==> 2 * taken.wager == wager || 2 * taken.wager == wager + 1)),
{
}

/// A negative wager is turned away, and only a positive one is there to forfeit.
pub proof fn law_wagers_are_checked(
    wager: i64,
    checked: Result<(), DigBossRuntimeError>,
    forfeits: bool,
    at_pinnacle: bool,
    carried: bool,
    maximum: i64,
    needs: bool,
)
    requires
        call_ensures(check_wager, (wager,), checked),
        call_ensures(forfeits_wager, (wager,), forfeits),
        call_ensures(stake_needs_wallet, (at_pinnacle, carried, wager, maximum), needs),
    ensures
        checked is Ok <==> wager >= 0,
        forfeits <==> wager > 0,
        needs ==> at_pinnacle && !carried && wager > 0 && wager <= maximum,
        at_pinnacle && !carried && wager > 0 && wager <= maximum ==> needs,
{
}

proof fn lemma_abandon_words()
    ensures
        "boundary"@.len() == 8,
        "abandoned_duel"@.len() == 14,
        "wager_forfeit"@.len() == 13,
        "boss_id"@.len() == 7,
{
    reveal_strlit("boundary");
    reveal_strlit("abandoned_duel");
    reveal_strlit("wager_forfeit");
    reveal_strlit("boss_id");
}

/// The audit of an abandoned fight tells where, against whom and what it cost.
pub proof fn law_abandoned_fight_is_audited(boundary: i32, lost: i64, boss_id: Seq<char>)
    ensures
        abandon_detail(boundary, lost, boss_id).int_at("boundary"@) == Some(boundary as i64),
        abandon_detail(boundary, lost, boss_id).bool_at("abandoned_duel"@) == Some(true),
        abandon_detail(boundary, lost, boss_id).int_at("wager_forfeit"@) == Some(lost),
        abandon_detail(boundary, lost, boss_id).text_at("boss_id"@) == Some(boss_id),
{
    lemma_abandon_words();
}

proof fn lemma_curse_words()
    ensures
        "halve_next_wager"@.len() == 16,
        "no_scout_next_dig"@.len() == 17,
        "drain_next_reward"@.len() == 17,
        "_boss_id"@.len() == 8,
        "no_scout_next_dig"@[0] != "drain_next_reward"@[0],
{
    reveal_strlit("halve_next_wager");
    reveal_strlit("no_scout_next_dig");
    reveal_strlit("drain_next_reward");
    reveal_strlit("_boss_id");
}

/// A curse is kept flag by flag under its own name, with the boss that cast it; a
/// flag that is off is not kept.
pub proof fn law_curse_is_kept_by_name(tree: JsonView, curse: CurseView)
    requires
        tree is Object,
    ensures
        ({
            let kept = with_curse(tree, curse);
            &&& curse.halve_next_wager ==> kept.bool_at("halve_next_wager"@) == Some(true)
            &&& !curse.halve_next_wager ==> kept.get("halve_next_wager"@) is None
            &&& curse.no_scout_next_dig ==> kept.bool_at("no_scout_next_dig"@) == Some(true)
            &&& !curse.no_scout_next_dig ==> kept.get("no_scout_next_dig"@) is None
            &&& curse.drain_next_reward ==> kept.bool_at("drain_next_reward"@) == Some(true)
            &&& !curse.drain_next_reward ==> kept.get("drain_next_reward"@) is None
            &&& kept.text_at("_boss_id"@) == curse.boss_id
        }),
        curse_of(tree).halve_next_wager <==> tree.bool_at("halve_next_wager"@) == Some(true),
        curse_of(tree).no_scout_next_dig <==> tree.bool_at("no_scout_next_dig"@) == Some(true),
        curse_of(tree).drain_next_reward <==> tree.bool_at("drain_next_reward"@) == Some(true),
        curse_of(tree).boss_id == tree.text_at("_boss_id"@),
{
    lemma_curse_words();
}

/// A victory that is committed and ends the boss leaves its gear and its relic;
/// whatever a grant fails with is told as a warning.
pub proof fn law_victory_leaves_spoils(
    spoils: SpoilsView,
    end: FightEnd,
    gear: GearGrant,
    gear_id: i64,
    relic: RelicAnswer,
    broken: BrokenGearAnswer,
)
    requires
        end.committed && end.won && !end.phase_changed,
        gear.answer == Ok::<i64, String>(gear_id),
    ensures
        ({
            let left = enriched(spoils, end, broken, Some(gear), relic);
            &&& left.gear_drop matches Some(drop) && drop.gear_id == gear_id && drop.slot
                == gear.slot && drop.tier == gear.tier && drop.name == gear.name@
            &&& relic matches RelicAnswer::Granted { relic: found, answer: Ok(Some(row)) } ==> {
                &&& left.relic_drop matches Some(drop)
                &&& drop.database_id == row && drop.artifact_id == found@.id
                &&& drop.name == found@.name && drop.rarity == found@.rarity
            }
            &&& relic is Missed ==> left.relic_drop == spoils.relic_drop
        }),
{
}

/// Gear that broke is named, and each failure adds one warning and nothing else.
pub proof fn law_failures_are_warned(
    spoils: SpoilsView,
    broken: BrokenGearAnswer,
    gear: GearGrant,
    relic: RelicAnswer,
)
    ensures
        broken matches BrokenGearAnswer::Named(rows) ==> with_broken(spoils, broken).broken_gear
            == spoils.broken_gear + crate::spoils::broken_views(rows@) && with_broken(
            spoils,
            broken,
        ).warnings == spoils.warnings,
        broken is Failed ==> with_broken(spoils, broken).warnings.len() == spoils.warnings.len() + 1
            && with_broken(spoils, broken).broken_gear == spoils.broken_gear,
        gear.answer is Err ==> with_gear(spoils, gear).warnings.len() == spoils.warnings.len() + 1
            && with_gear(spoils, gear).gear_drop == spoils.gear_drop,
        gear.answer is Ok ==> with_gear(spoils, gear).warnings == spoils.warnings,
        relic is LostRecord || relic is RecordFailed || relic is OwnershipFailed ==> with_relic(
            spoils,
            relic,
        ).warnings.len() == spoils.warnings.len() + 1 && with_relic(spoils, relic).relic_drop
            == spoils.relic_drop,
        relic is Missed ==> with_relic(spoils, relic) == spoils,
{
}

/// The first clear of a boss in a prestige gives one point, on top of five at
/// least, and is kept so that it is not given again.
pub proof fn law_first_clear_gives_a_point(
    stat_points: i64,
    prestige: i64,
    column: Option<Seq<char>>,
    boundary: i32,
    award: StatAward,
)
    requires
        is_award(stat_points, prestige, column, boundary, award),
        stat_points < i64::MAX,
        !crate::text::blank(award.ledger@),
    ensures
        stat_points >= 5 ==> award.stat_points == stat_points + 1,
        stat_points < 5 ==> award.stat_points == 6,
        crate::awards::awards_boss(Some(award.ledger@), prestige, boundary as i64),
        !crate::awards::awards_boss(column, prestige, boundary as i64),
{
    let awards = choose|awards: Seq<i64>|
        {
            &&& crate::sorted::is_ascending(awards)
            &&& forall|x: i64| #[trigger]
                awards.contains(x) <==> x == boundary || (crate::awards::awards_boss(
                    column,
                    prestige,
                    x,
                ) && i32::MIN <= x <= i32::MAX)
            &&& crate::json::json_of_text(award.ledger@) == Some(
                #[trigger] crate::awards::written_ledger(prestige, awards),
            )
            &&& award.ledger@ == crate::json::text_of_json(
                crate::awards::written_ledger(prestige, awards),
            )
        };
    let other: i64 = if prestige == 0 {
        1
    } else {
        0
    };
    crate::awards::law_ledger_reads_back(prestige, other, awards);
    assert(awards.contains(boundary as i64));
}

} // verus!
