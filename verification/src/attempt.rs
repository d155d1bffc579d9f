//! One attempt at a pinnacle phase: what it starts from and how its rounds go.

use crate::arith::{larger32, max_of32, nearest, nearest32, sat_add, sat_add32};
use crate::boss_error::{BossErrorView, BossServiceError, BossServiceErrorView, DigBossRuntimeError};
use crate::boss_store::{BossRecordView, DigBossRuntimeSnapshot};
use crate::boss_tunnel::{fits, narrow_i32, out_of_range};
use crate::combat::{
    attempt_effect, has_attempt_effect, BossPreparationState, CombatEffects, EffectsView, PetAssist,
    PetAssistView, PreparationView, TrophyEffects,
};
use crate::duel::{
    assist_view, carried_prep_view, quiet_log, RiskTier, RoundEffectLog, RoundRecord, RoundView,
};
use crate::json::{
    column_object, lemma_edits_nest, read_object, reads_back, render_json, text_of_json, JsonView,
};
use crate::preparation::boundary_entry;
use crate::text::{int_text, integer_text, own_text, same_text, str_view, text_view};
use vstd::prelude::*;

verus! {

/// What an event between two phases changes in whole numbers.
#[derive(Clone, Copy, Debug, PartialEq, Eq, Structural)]
pub struct PhaseEvent {
    pub boss_hp_delta: i32,
    pub boss_damage_delta: i32,
    pub player_hp_delta: i32,
    pub player_damage_delta: i32,
}

/// An event that changes nothing.
pub open spec fn no_event() -> PhaseEvent {
    PhaseEvent {
        boss_hp_delta: 0,
        boss_damage_delta: 0,
        player_hp_delta: 0,
        player_damage_delta: 0,
    }
}

/// The event of an attempt, or one that changes nothing.
pub open spec fn event_of(event: Option<PhaseEvent>) -> PhaseEvent {
    match event {
        Some(event) => event,
        None => no_event(),
    }
}

fn read_event(event: Option<PhaseEvent>) -> (read: PhaseEvent)
    ensures
        read == event_of(event),
{
    match event {
        Some(event) => event,
        None => PhaseEvent {
            boss_hp_delta: 0,
            boss_damage_delta: 0,
            player_hp_delta: 0,
            player_damage_delta: 0,
        },
    }
}

/// The health of a fresh boss, before mana has its say.
pub fn fresh_boss_hp(scaled: i32, event: Option<PhaseEvent>) -> (hp: i32)
    ensures
        hp == larger32(nearest32(scaled + event_of(event).boss_hp_delta), 1),
{
    max_of32(sat_add32(scaled, read_event(event).boss_hp_delta), 1)
}

/// The damage of the boss. Darkness adds to it unless mana spares the player.
pub fn attempt_boss_damage(
    scaled: i32,
    darkness: i32,
    spared: bool,
    event: Option<PhaseEvent>,
) -> (damage: i32)
    ensures
        damage == larger32(
            nearest32(
                nearest32(
                    scaled + (if spared {
                        0
                    } else {
                        darkness
                    }),
                ) + event_of(event).boss_damage_delta,
            ),
            1,
        ),
{
    let added: i32 = if spared {
        0
    } else {
        darkness
    };
    max_of32(sat_add32(sat_add32(scaled, added), read_event(event).boss_damage_delta), 1)
}

/// The damage of the player, from what mana and relics made of it.
pub fn attempt_player_damage(multiplied: i32, event: Option<PhaseEvent>) -> (damage: i32)
    ensures
        damage == larger32(
            nearest32(larger32(multiplied, 1) + event_of(event).player_damage_delta),
            0,
        ),
{
    max_of32(sat_add32(max_of32(multiplied, 1), read_event(event).player_damage_delta), 0)
}

/// The damage of the player with what a prepared item adds.
pub fn whetted_damage(damage: i32, added: i32) -> (whetted: i32)
    ensures
        whetted == nearest32(damage + added),
{
    sat_add32(damage, added)
}

/// The health of the player.
pub fn attempt_player_hp(hp: i32, event: Option<PhaseEvent>) -> (started: i32)
    ensures
        started == larger32(nearest32(hp + event_of(event).player_hp_delta), 1),
{
    max_of32(sat_add32(hp, read_event(event).player_hp_delta), 1)
}

/// The effects that an attempt starts with.
pub open spec fn started_effects(
    effects: EffectsView,
    player_hp: i32,
    idol: Option<Seq<char>>,
    assist: Option<PetAssistView>,
    prep: Option<PreparationView>,
) -> EffectsView {
    let carried = EffectsView {
        shifting_idol_bonus: idol,
        pet_assist: assist,
        boss_preparation: prep,
        ..effects
    };
    if attempt_effect(carried) {
        EffectsView {
            trophies: TrophyEffects { start_hp: Some(player_hp), ..carried.trophies },
            ..carried
        }
    } else {
        carried
    }
}

/// Sets up the effects that an attempt starts with. Where relics, trophies or
/// gear are at work, the health that the player started with is kept.
pub fn start_effects(
    effects: &mut CombatEffects,
    player_hp: i32,
    shifting_idol_bonus: Option<String>,
    pet_assist: Option<PetAssist>,
    boss_preparation: Option<BossPreparationState>,
)
    ensures
        final(effects)@ == started_effects(
            old(effects)@,
            player_hp,
            text_view(shifting_idol_bonus),
            assist_view(pet_assist),
            carried_prep_view(boss_preparation),
        ),
{
    effects.shifting_idol_bonus = shifting_idol_bonus;
    effects.pet_assist = pet_assist;
    effects.boss_preparation = boss_preparation;
    if has_attempt_effect(effects) {
        effects.trophies.start_hp = Some(player_hp);
    }
}

/// The event that waits at a boundary.
pub open spec fn pending_event(progress: JsonView, depth: i32) -> Option<Seq<char>> {
    match boundary_entry(progress, depth) {
        Some(entry) => entry.text_at("pending_phase_event_id"@),
        None => None,
    }
}

/// Reads the event that waits at a boundary of a progress column.
pub fn pending_event_id(column: Option<&str>, depth: i32) -> (event: Option<String>)
    ensures
        text_view(event) == pending_event(column_object(str_view(column)), depth),
{
    let progress = read_object(column);
    let key = integer_text(depth as i64);
    match progress.get(key.as_str()) {
        Some(entry) => own_text(entry.text_at("pending_phase_event_id")),
        None => None,
    }
}

/// Progress in which no event waits at a boundary.
pub open spec fn without_event(progress: JsonView, depth: i32) -> JsonView {
    match boundary_entry(progress, depth) {
        Some(entry) => progress.with(
            int_text(depth as int),
            entry.without("pending_phase_event_id"@),
        ),
        None => progress,
    }
}

/// Writes a progress column in which no event waits at a boundary.
pub fn consume_event(column: Option<&str>, depth: i32) -> (written: String)
    ensures
        written@ == text_of_json(without_event(column_object(str_view(column)), depth)),
        reads_back(written@, without_event(column_object(str_view(column)), depth)),
{
    let mut progress = read_object(column);
    proof {
        lemma_edits_nest(127);
        lemma_edits_nest(126);
    }
    let key = integer_text(depth as i64);
    let entry = match progress.get(key.as_str()) {
        Some(entry) => {
            if entry.is_object() {
                let mut entry = entry.clone();
                entry.unset("pending_phase_event_id");
                Some(entry)
            } else {
                None
            }
        },
        None => None,
    };
    match entry {
        Some(entry) => {
            progress.set(key.as_str(), entry);
        },
        None => {},
    }
    render_json(progress)
}

/// An event is used up once: after that none waits at its boundary, and other
/// boundaries keep theirs.
pub proof fn law_event_is_used_once(progress: JsonView, depth: i32, other: i32)
    requires
        progress is Object,
        depth != other,
    ensures
        pending_event(without_event(progress, depth), depth) is None,
        pending_event(without_event(progress, depth), other) == pending_event(progress, other),
{
    crate::text::law_integer_reads_back(depth as int);
    crate::text::law_integer_reads_back(other as int);
}

/// Counts an attempt.
pub fn attempt_number(boss_attempts: i64) -> (number: Result<i32, DigBossRuntimeError>)
    ensures
        match number {
            Ok(number) => number == nearest(boss_attempts + 1),
            Err(error) => !fits(nearest(boss_attempts + 1)) && error@
                == BossErrorView::Infrastructure(out_of_range("boss attempts"@)),
        },
{
    match narrow_i32(sat_add(boss_attempts, 1), "boss attempts") {
        Ok(number) => Ok(number),
        Err(message) => Err(DigBossRuntimeError::Infrastructure(message)),
    }
}

/// What happens at the start of a round.
#[derive(Clone, Copy, Debug, PartialEq, Eq, Structural)]
pub enum AttemptStep {
    /// The fight waits for an answer.
    Pause,
    Fight,
}

/// Decides what happens at the start of a round: the fight pauses in the round
/// of its mechanic, if both sides still stand.
pub fn attempt_step(round: u8, trigger_round: u8, player_hp: i32, boss_hp: i32) -> (step:
    AttemptStep)
    ensures
        step == (if round == trigger_round && player_hp > 0 && boss_hp > 0 {
            AttemptStep::Pause
        } else {
            AttemptStep::Fight
        }),
{
    if round == trigger_round && player_hp > 0 && boss_hp > 0 {
        AttemptStep::Pause
    } else {
        AttemptStep::Fight
    }
}

/// How a fight goes on.
#[derive(Clone, Copy, Debug, PartialEq, Eq, Structural)]
pub enum RoundStep {
    Next { round: u8 },
    Ended { won: bool },
}

/// How a fight goes on after a round: until a side falls or the rounds are used
/// up, which is a defeat.
pub open spec fn round_step(round: u8, last_round: u8, terminal: Option<bool>) -> RoundStep {
    match terminal {
        Some(won) => RoundStep::Ended { won },
        None => if round < last_round {
            RoundStep::Next { round: (round + 1) as u8 }
        } else {
            RoundStep::Ended { won: false }
        },
    }
}

/// Decides how a fight goes on after a round.
pub fn after_round(round: u8, last_round: u8, terminal: Option<bool>) -> (step: RoundStep)
    ensures
        step == round_step(round, last_round, terminal),
{
    match terminal {
        Some(won) => RoundStep::Ended { won },
        None => {
            if round < last_round {
                RoundStep::Next { round: round + 1 }
            } else {
                RoundStep::Ended { won: false }
            }
        },
    }
}

/// How a fight goes on once the answer it waited for took effect.
pub open spec fn resumed_step(round: u8, last_round: u8, player_hp: i32, boss_hp: i32)
    -> RoundStep {
    let next: u8 = if round == u8::MAX {
        u8::MAX
    } else {
        (round + 1) as u8
    };
    if boss_hp <= 0 {
        RoundStep::Ended { won: true }
    } else if player_hp <= 0 {
        RoundStep::Ended { won: false }
    } else if next <= last_round {
        RoundStep::Next { round: next }
    } else {
        RoundStep::Ended { won: false }
    }
}

/// Decides how a fight goes on once the answer it waited for took effect.
pub fn after_answer(round: u8, last_round: u8, player_hp: i32, boss_hp: i32) -> (step: RoundStep)
    ensures
        step == resumed_step(round, last_round, player_hp, boss_hp),
{
    let next: u8 = if round == u8::MAX {
        u8::MAX
    } else {
        round + 1
    };
    if boss_hp <= 0 {
        RoundStep::Ended { won: true }
    } else if player_hp <= 0 {
        RoundStep::Ended { won: false }
    } else if next <= last_round {
        RoundStep::Next { round: next }
    } else {
        RoundStep::Ended { won: false }
    }
}

/// A fight has an end: every round that follows another is a later one and not
/// past the last, and a boss that falls is beaten even by a falling player.
pub proof fn law_fight_ends(
    round: u8,
    last_round: u8,
    terminal: Option<bool>,
    player_hp: i32,
    boss_hp: i32,
)
    ensures
        round_step(round, last_round, terminal) matches RoundStep::Next { round: next } ==> round
            < next <= last_round,
        round >= last_round ==> round_step(round, last_round, terminal) is Ended,
        boss_hp <= 0 ==> resumed_step(round, last_round, player_hp, boss_hp) == (
        RoundStep::Ended { won: true }),
        boss_hp > 0 && player_hp <= 0 ==> resumed_step(round, last_round, player_hp, boss_hp) == (
        RoundStep::Ended { won: false }),
{
}

/// Chooses the answer to a prompt: the one asked for, or the safe one where it
/// is none that the mechanic has.
pub fn choose_option(requested: usize, options: usize, safe: usize) -> (chosen: usize)
    ensures
        chosen == (if requested < options {
            requested
        } else {
            safe
        }),
{
    if requested < options {
        requested
    } else {
        safe
    }
}

/// Whether warding salts keep a mechanic off.
pub open spec fn salts_ward(prep: Option<PreparationView>) -> bool {
    prep matches Some(prep) && prep.item_type == "warding_salts"@ && !prep.used
}

/// A prepared item after a mechanic struck: warding salts are used up.
pub open spec fn after_warding(prep: Option<PreparationView>) -> Option<PreparationView> {
    if salts_ward(prep) {
        Some(PreparationView { used: true, ..prep->0 })
    } else {
        prep
    }
}

/// Lets warding salts keep a mechanic off, if there are any.
pub fn ward_off(prep: &mut Option<BossPreparationState>) -> (warded: bool)
    ensures
        warded == salts_ward(carried_prep_view(*old(prep))),
        carried_prep_view(*final(prep)) == after_warding(carried_prep_view(*old(prep))),
{
    match prep.take() {
        Some(item) => {
            let mut item = item;
            let wards = same_text(item.item_type.as_str(), "warding_salts") && !item.used;
            if wards {
                item.used = true;
            }
            *prep = Some(item);
            wards
        },
        None => false,
    }
}

/// Warding salts keep off one mechanic only.
pub proof fn law_salts_ward_once(prep: Option<PreparationView>)
    ensures
        !salts_ward(after_warding(prep)),
{
}

/// How the round is told in which a prompt was answered.
pub open spec fn answered_round(
    round: u8,
    player_hp: i32,
    boss_hp: i32,
    assist: Option<PetAssistView>,
) -> RoundView {
    RoundView {
        round,
        player_hp: larger32(player_hp, 0),
        boss_hp: larger32(boss_hp, 0),
        player_hit: false,
        boss_hit: None,
        pet_assist: assist,
        pet_assist_damage: 0,
        effect_log: quiet_log(),
    }
}

/// Tells the round in which a prompt was answered.
pub fn tell_answered_round(
    round: u8,
    player_hp: i32,
    boss_hp: i32,
    pet_assist: &Option<PetAssist>,
) -> (record: RoundRecord)
    ensures
        record@ == answered_round(round, player_hp, boss_hp, assist_view(*pet_assist)),
{
    RoundRecord {
        round,
        player_hp: max_of32(player_hp, 0),
        boss_hp: max_of32(boss_hp, 0),
        player_hit: false,
        boss_hit: None,
        pet_assist: match pet_assist {
            Some(assist) => Some(assist.clone()),
            None => None,
        },
        pet_assist_damage: 0,
        effect_log: RoundEffectLog::default(),
    }
}

/// Whole numbers that an attempt starts from, by the risk that is taken.
#[derive(Clone, Copy, Debug, PartialEq, Eq, Structural)]
pub struct BaseNumbers {
    pub player_hp: i32,
    pub boss_hp: i32,
    pub player_damage: i32,
    pub boss_damage: i32,
    pub critical_bonus: i32,
}

/// Looks up the whole numbers that an attempt starts from.
pub fn base_numbers(risk_tier: RiskTier) -> (numbers: BaseNumbers)
    ensures
        numbers == (match risk_tier {
            RiskTier::Cautious => BaseNumbers {
                player_hp: 5,
                boss_hp: 4,
                player_damage: 1,
                boss_damage: 1,
                critical_bonus: 0,
            },
            RiskTier::Bold => BaseNumbers {
                player_hp: 3,
                boss_hp: 5,
                player_damage: 2,
                boss_damage: 1,
                critical_bonus: 1,
            },
            RiskTier::Reckless => BaseNumbers {
                player_hp: 2,
                boss_hp: 6,
                player_damage: 3,
                boss_damage: 1,
                critical_bonus: 1,
            },
        }),
{
    match risk_tier {
        RiskTier::Cautious => BaseNumbers {
            player_hp: 5,
            boss_hp: 4,
            player_damage: 1,
            boss_damage: 1,
            critical_bonus: 0,
        },
        RiskTier::Bold => BaseNumbers {
            player_hp: 3,
            boss_hp: 5,
            player_damage: 2,
            boss_damage: 1,
            critical_bonus: 1,
        },
        RiskTier::Reckless => BaseNumbers {
            player_hp: 2,
            boss_hp: 6,
            player_damage: 3,
            boss_damage: 1,
            critical_bonus: 1,
        },
    }
}

/// Decides which lantern a scout uses up: none under a great lantern, else the
/// first one. Without any there is no scouting.
pub fn scout_lantern(lantern_ids: &Vec<i64>, has_great_lantern: bool) -> (lantern: Result<
    Option<i64>,
    DigBossRuntimeError,
>)
    ensures
        match lantern {
            Ok(None) => has_great_lantern,
            Ok(Some(row)) => !has_great_lantern && lantern_ids.len() > 0 && row == lantern_ids@[0],
            Err(error) => !has_great_lantern && lantern_ids.len() == 0 && error@
                == BossErrorView::Policy(BossServiceErrorView::LanternRequired),
        },
{
    if has_great_lantern {
        Ok(None)
    } else if lantern_ids.len() == 0 {
        Err(DigBossRuntimeError::Policy(BossServiceError::LanternRequired))
    } else {
        Ok(Some(lantern_ids[0]))
    }
}

/// The record of a pinnacle at which a boss was chosen.
pub open spec fn locked_record(record: BossRecordView, boss_id: Seq<char>) -> BossRecordView {
    BossRecordView { pinnacle_boss_id: Some(boss_id), pinnacle_phase: 1, ..record }
}

/// Plans which boss holds the pinnacle. One that is chosen and known stays;
/// otherwise the selected one is written. `known` says whether the boss of the
/// record is a known one.
pub fn plan_pinnacle_lock(record: &DigBossRuntimeSnapshot, known: bool, selected: &str) -> (plan:
    Option<DigBossRuntimeSnapshot>)
    ensures
        match plan {
            None => record@.pinnacle_boss_id is Some && known,
            Some(proposed) => !(record@.pinnacle_boss_id is Some && known) && proposed@
                == locked_record(record@, selected@),
        },
{
    if record.pinnacle_boss_id.is_some() && known {
        return None;
    }
    let mut proposed = record.clone();
    proposed.pinnacle_boss_id = Some(selected.to_owned());
    proposed.pinnacle_phase = 1;
    Some(proposed)
}

} // verus!
