//! The pinnacle: three phases of one boss, fought one after the other.

use crate::arith::{
    clamp_to, larger, larger32, max_of, max_of32, min_of, nearest, nearest32, sat_add, sat_add32,
    sat_mul, sat_narrow, sat_sub, smaller, within,
};
use crate::boss_error::{BossErrorView, DigBossRuntimeError};
use crate::boss_store::{BossRecordView, DigBossRuntimeSnapshot};
use crate::boss_tunnel::{fits, narrow_i32, out_of_range};
use crate::combat::{BossPreparationState, PreparationView};
use crate::duel::{carried_prep_view, risk_name, word_of_risk, RiskTier, RoundRecord, RoundView};
use crate::duel_row::{round_views, rounds_tree, write_rounds};
use crate::json::{
    column_object, lemma_edits_nest, object, read_object, reads_back, render_json, text_of_json,
    Json, JsonView,
};
use crate::progress::{narrow, narrowed};
use crate::text::{borrow_text, int_text, integer_text, join3, same_text, text_is, text_view};
use vstd::prelude::*;

verus! {

/// What every victory at the pinnacle earns.
pub const PINNACLE_BASE_JC_REWARD: i64 = 500;

/// What a victory at the pinnacle earns on top for each prestige.
pub const PINNACLE_JC_PER_PRESTIGE: i64 = 100;

/// Seconds in which a wounded boss gets a point of health back.
pub const PINNACLE_REGENERATION_SECONDS: i64 = 86_400;

/// The field that the health of a phase is kept under.
pub open spec fn phase_key(depth: i32, phase: u8) -> Seq<char> {
    int_text(depth as int) + ":"@ + int_text(phase as int)
}

/// Names the field that the health of a phase is kept under.
pub fn pinnacle_phase_key(depth: i32, phase: u8) -> (key: String)
    ensures
        key@ == phase_key(depth, phase),
{
    join3(
        integer_text(depth as i64).as_str(),
        ":",
        integer_text(phase as i64).as_str(),
    )
}

/// The phase that a record is in.
pub open spec fn phase_of(record: BossRecordView) -> u8 {
    within(record.pinnacle_phase, 1, 3) as u8
}

/// Reads the phase that a record is in.
pub fn pinnacle_phase(record: &DigBossRuntimeSnapshot) -> (phase: u8)
    ensures
        phase == phase_of(record@),
        1 <= phase <= 3,
{
    clamp_to(record.pinnacle_phase, 1, 3) as u8
}

/// Days since a boss was last fought.
pub open spec fn days_rested(entry: JsonView, now: i64) -> int {
    match entry.int_at("last_engaged_at"@) {
        Some(engaged) => larger(nearest(now - engaged), 0) as int / 86_400,
        None => 0,
    }
}

/// The health that a boss has, and at most has. A boss that was fought before
/// has what was left of it and a point more for each day, up to its most.
pub open spec fn boss_health(progress: JsonView, key: Seq<char>, fresh_hp: i32, now: i64) -> (
    i32,
    i32,
) {
    let fresh = larger32(fresh_hp, 1);
    match progress.get(key) {
        None => (fresh, fresh),
        Some(entry) => match narrowed(entry.int_at("hp_remaining"@)) {
            None => (fresh, fresh),
            Some(remaining) => {
                let most = larger32(
                    match narrowed(entry.int_at("hp_max"@)) {
                        Some(most) => most,
                        None => fresh_hp,
                    },
                    1,
                );
                let rested = nearest32(remaining + nearest32(days_rested(entry, now)));
                (
                    if rested < 1 {
                        1
                    } else if rested > most {
                        most
                    } else {
                        rested
                    },
                    most,
                )
            },
        },
    }
}

/// Works out the health that a boss has, and at most has.
pub fn resolve_pinnacle_hp(progress: &Json, key: &str, fresh_hp: i32, now: i64) -> (health: (
    i32,
    i32,
))
    ensures
        health == boss_health(progress@, key@, fresh_hp, now),
{
    let fresh = max_of32(fresh_hp, 1);
    let entry = match progress.get(key) {
        Some(entry) => entry,
        None => {
            return (fresh, fresh);
        },
    };
    let remaining = match narrow(entry.int_at("hp_remaining")) {
        Some(remaining) => remaining,
        None => {
            return (fresh, fresh);
        },
    };
    let most = max_of32(
        match narrow(entry.int_at("hp_max")) {
            Some(most) => most,
            None => fresh_hp,
        },
        1,
    );
    let days: i64 = match entry.int_at("last_engaged_at") {
        Some(engaged) => max_of(sat_sub(now, engaged), 0) / PINNACLE_REGENERATION_SECONDS,
        None => 0,
    };
    let rested = sat_add32(remaining, sat_narrow(days));
    if rested < 1 {
        (1, most)
    } else if rested > most {
        (most, most)
    } else {
        (rested, most)
    }
}

/// A boss has at least one point of health and at most its most, and it has no
/// less of it the later it is met.
pub proof fn law_boss_health_is_bounded_and_recovers(
    progress: JsonView,
    key: Seq<char>,
    fresh_hp: i32,
    now: i64,
    later: i64,
)
    requires
        now <= later,
    ensures
        1 <= boss_health(progress, key, fresh_hp, now).0 <= boss_health(
            progress,
            key,
            fresh_hp,
            now,
        ).1,
        boss_health(progress, key, fresh_hp, now).0 <= boss_health(
            progress,
            key,
            fresh_hp,
            later,
        ).0,
        boss_health(progress, key, fresh_hp, now).1 == boss_health(
            progress,
            key,
            fresh_hp,
            later,
        ).1,
{
}

/// A finished attempt at the pinnacle.
#[derive(Debug)]
pub struct PinnacleSettlementInput {
    pub boss_id: String,
    pub phase: u8,
    pub risk_tier: RiskTier,
    pub wager: i64,
    pub won: bool,
    /// Whether a win would be a narrow one.
    pub close_win: bool,
    pub ending_boss_hp: i32,
    pub boss_hp_max: i32,
    pub starting_boss_hp: i32,
    pub attempts: i32,
    pub round_log: Vec<RoundRecord>,
    pub boss_preparation: Option<BossPreparationState>,
    pub warding_salts_blocked: bool,
}

/// What a [`PinnacleSettlementInput`] holds.
#[verifier::ext_equal]
pub struct PinnacleInputView {
    pub boss_id: Seq<char>,
    pub phase: u8,
    pub risk_tier: RiskTier,
    pub wager: i64,
    pub won: bool,
    pub close_win: bool,
    pub ending_boss_hp: i32,
    pub boss_hp_max: i32,
    pub starting_boss_hp: i32,
    pub attempts: i32,
    pub round_log: Seq<RoundView>,
    pub boss_preparation: Option<PreparationView>,
    pub warding_salts_blocked: bool,
}

impl View for PinnacleSettlementInput {
    type V = PinnacleInputView;

    open spec fn view(&self) -> PinnacleInputView {
        PinnacleInputView {
            boss_id: self.boss_id@,
            phase: self.phase,
            risk_tier: self.risk_tier,
            wager: self.wager,
            won: self.won,
            close_win: self.close_win,
            ending_boss_hp: self.ending_boss_hp,
            boss_hp_max: self.boss_hp_max,
            starting_boss_hp: self.starting_boss_hp,
            attempts: self.attempts,
            round_log: self.round_log@.map_values(|x: RoundRecord| x@),
            boss_preparation: match self.boss_preparation { Some(x) => Some(x@), None => None },
            warding_salts_blocked: self.warding_salts_blocked,
        }
    }
}

/// What a victory at the pinnacle comes to, once the economy, bankruptcy and
/// vanity have had their say.
#[derive(Clone, Copy, Debug, PartialEq, Eq, Structural)]
pub struct PinnacleReward {
    /// The base reward after the economy of the day.
    pub gross_base: i64,
    /// The base reward as it is paid.
    pub scaled_base: i64,
    /// The profit of the wager after the economy of the day.
    pub event_wager: i64,
    pub penalty_applied: i64,
    pub vanity_tax: i64,
    /// What is paid in the end.
    pub penalized: i64,
}

/// What chance and the world add to the end of an attempt.
#[derive(Debug, PartialEq, Eq)]
pub enum PinnacleRoll {
    /// The next phase begins under an event.
    Transition { event_id: String, luminosity_delta: i32 },
    Victory { reward: PinnacleReward },
    Defeat { knockback: i32 },
}

/// What a [`PinnacleRoll`] holds.
pub enum RollView {
    Transition { event_id: Seq<char>, luminosity_delta: i32 },
    Victory { reward: PinnacleReward },
    Defeat { knockback: i32 },
}

impl View for PinnacleRoll {
    type V = RollView;

    open spec fn view(&self) -> RollView {
        match *self {
            PinnacleRoll::Transition { event_id, luminosity_delta } => RollView::Transition {
                event_id: event_id@,
                luminosity_delta,
            },
            PinnacleRoll::Victory { reward } => RollView::Victory { reward },
            PinnacleRoll::Defeat { knockback } => RollView::Defeat { knockback },
        }
    }
}

/// How an attempt ends.
#[derive(Clone, Copy, Debug, PartialEq, Eq, Structural)]
pub enum PinnacleEnd {
    NextPhase,
    Victory,
    Defeat,
}

/// How an attempt ends, by who won and in which phase.
pub open spec fn end_of(won: bool, phase: u8) -> PinnacleEnd {
    if won && phase < 3 {
        PinnacleEnd::NextPhase
    } else if won {
        PinnacleEnd::Victory
    } else {
        PinnacleEnd::Defeat
    }
}

/// Tells how an attempt ends.
pub fn pinnacle_end(won: bool, phase: u8) -> (end: PinnacleEnd)
    ensures
        end == end_of(won, phase),
{
    if won && phase < 3 {
        PinnacleEnd::NextPhase
    } else if won {
        PinnacleEnd::Victory
    } else {
        PinnacleEnd::Defeat
    }
}

/// Whether a roll is one for the end of an attempt.
pub open spec fn roll_fits(input: PinnacleInputView, roll: RollView) -> bool {
    match end_of(input.won, input.phase) {
        PinnacleEnd::NextPhase => roll is Transition,
        PinnacleEnd::Victory => roll is Victory,
        PinnacleEnd::Defeat => roll is Defeat,
    }
}

/// What the base reward of a victory is before the economy of the day.
pub open spec fn base_reward(prestige_level: i64) -> i64 {
    nearest(
        PINNACLE_BASE_JC_REWARD + nearest(PINNACLE_JC_PER_PRESTIGE * larger(prestige_level, 0)),
    )
}

/// Works out the base reward of a victory.
pub fn pinnacle_base_reward(prestige_level: i64) -> (reward: i64)
    ensures
        reward == base_reward(prestige_level),
{
    sat_add(
        PINNACLE_BASE_JC_REWARD,
        sat_mul(PINNACLE_JC_PER_PRESTIGE, max_of(prestige_level, 0)),
    )
}

/// Whether a rescue line softens a defeat.
pub open spec fn line_used(won: bool, prep: Option<PreparationView>) -> bool {
    !won && (prep matches Some(prep) && prep.item_type == "rescue_line"@)
}

/// Tells whether a rescue line softens a defeat.
pub fn rescue_line_used(won: bool, prep: &Option<BossPreparationState>) -> (used: bool)
    ensures
        used == line_used(won, carried_prep_view(*prep)),
{
    match prep {
        Some(prep) => !won && same_text(prep.item_type.as_str(), "rescue_line"),
        None => false,
    }
}

/// Tells whether the gear of an attempt wears as after a win: it was won, or a
/// rescue line softened the defeat.
pub fn gear_wears_lightly(won: bool, prep: &Option<BossPreparationState>) -> (lightly: bool)
    ensures
        lightly == (won || line_used(won, carried_prep_view(*prep))),
{
    won || rescue_line_used(won, prep)
}

/// How far a defeat throws the player back.
pub open spec fn thrown_back(rolled: i32, rescued: bool) -> i32 {
    let knockback = if rolled < 8 {
        8
    } else if rolled > 16 {
        16
    } else {
        rolled
    };
    if rescued {
        ((knockback + 1) / 2) as i32
    } else {
        knockback
    }
}

fn throw_back(rolled: i32, rescued: bool) -> (knockback: i32)
    ensures
        knockback == thrown_back(rolled, rescued),
{
    let knockback: i32 = if rolled < 8 {
        8
    } else if rolled > 16 {
        16
    } else {
        rolled
    };
    if rescued {
        (knockback + 1) / 2
    } else {
        knockback
    }
}

/// What a defeat takes of a wager: no more than the wallet holds.
pub open spec fn forfeit(wager: i64, balance: i64) -> i64 {
    smaller(larger(wager, 0), larger(balance, 0))
}

/// Works out what a defeat takes of a wager.
pub fn wager_forfeit(wager: i64, balance: i64) -> (debit: i64)
    ensures
        debit == forfeit(wager, balance),
{
    min_of(max_of(wager, 0), max_of(balance, 0))
}

/// The numbers of a settled attempt.
#[derive(Clone, Copy, Debug, PartialEq, Eq, Structural)]
pub struct PinnacleFigures {
    pub next_phase: u8,
    pub gross_jc: i64,
    pub scaled_base_jc: i64,
    pub wager_payout: i64,
    pub gross_payout: i64,
    pub payout: i64,
    pub bankruptcy_penalty: i64,
    pub vanity_tax: i64,
    pub jc_delta: i64,
    pub knockback: i32,
}

/// The numbers of an attempt by how it ends.
pub open spec fn figures_of(record: BossRecordView, input: PinnacleInputView, roll: RollView)
    -> PinnacleFigures {
    let none = PinnacleFigures {
        next_phase: input.phase,
        gross_jc: 0,
        scaled_base_jc: 0,
        wager_payout: 0,
        gross_payout: 0,
        payout: 0,
        bankruptcy_penalty: 0,
        vanity_tax: 0,
        jc_delta: 0,
        knockback: 0,
    };
    match roll {
        RollView::Transition { .. } => PinnacleFigures {
            next_phase: (input.phase + 1) as u8,
            ..none
        },
        RollView::Victory { reward } => PinnacleFigures {
            next_phase: 0,
            gross_jc: reward.gross_base,
            scaled_base_jc: reward.scaled_base,
            wager_payout: reward.event_wager,
            gross_payout: nearest(reward.gross_base + reward.event_wager),
            payout: reward.penalized,
            bankruptcy_penalty: reward.penalty_applied,
            vanity_tax: reward.vanity_tax,
            jc_delta: reward.penalized,
            ..none
        },
        RollView::Defeat { knockback } => PinnacleFigures {
            jc_delta: (-forfeit(input.wager, record.balance)) as i64,
            knockback: thrown_back(knockback, line_used(input.won, input.boss_preparation)),
            ..none
        },
    }
}

fn work_out_figures(
    record: &DigBossRuntimeSnapshot,
    input: &PinnacleSettlementInput,
    roll: &PinnacleRoll,
) -> (figures: PinnacleFigures)
    requires
        roll_fits(input@, roll@),
    ensures
        figures == figures_of(record@, input@, roll@),
{
    let mut figures = PinnacleFigures {
        next_phase: input.phase,
        gross_jc: 0,
        scaled_base_jc: 0,
        wager_payout: 0,
        gross_payout: 0,
        payout: 0,
        bankruptcy_penalty: 0,
        vanity_tax: 0,
        jc_delta: 0,
        knockback: 0,
    };
    match roll {
        PinnacleRoll::Transition { .. } => {
            figures.next_phase = input.phase + 1;
        },
        PinnacleRoll::Victory { reward } => {
            figures.next_phase = 0;
            figures.gross_jc = reward.gross_base;
            figures.scaled_base_jc = reward.scaled_base;
            figures.wager_payout = reward.event_wager;
            figures.gross_payout = sat_add(reward.gross_base, reward.event_wager);
            figures.payout = reward.penalized;
            figures.bankruptcy_penalty = reward.penalty_applied;
            figures.vanity_tax = reward.vanity_tax;
            figures.jc_delta = reward.penalized;
        },
        PinnacleRoll::Defeat { knockback } => {
            figures.jc_delta = -wager_forfeit(input.wager, record.balance);
            figures.knockback = throw_back(
                *knockback,
                rescue_line_used(input.won, &input.boss_preparation),
            );
        },
    }
    figures
}

/// What stands at the boundary of the pinnacle, when it is an object or nothing.
pub open spec fn pinnacle_entry(progress: JsonView, depth: i32) -> Option<JsonView> {
    match progress.get(int_text(depth as int)) {
        None => Some(object()),
        Some(entry) => if entry is Object {
            Some(entry)
        } else {
            None
        },
    }
}

fn read_pinnacle_entry(progress: &Json, depth: i32) -> (entry: Option<Json>)
    ensures
        match entry {
            Some(entry) => pinnacle_entry(progress@, depth) == Some(entry@) && entry@ is Object,
            None => pinnacle_entry(progress@, depth) is None,
        },
{
    let key = integer_text(depth as i64);
    match progress.get(key.as_str()) {
        None => Some(Json::empty_object()),
        Some(entry) => {
            if entry.is_object() {
                Some(entry.clone())
            } else {
                None
            }
        },
    }
}

/// The entry of the pinnacle once a phase is won. A wager is carried into the
/// next phase.
pub open spec fn won_phase_entry(entry: JsonView, input: PinnacleInputView, event_id: Seq<char>)
    -> JsonView {
    let entry = entry.with(
        "status"@,
        JsonView::Text(
            if input.phase == 1 {
                "phase1_defeated"@
            } else {
                "phase2_defeated"@
            },
        ),
    ).with("boss_id"@, JsonView::Text(input.boss_id)).with(
        "last_outcome"@,
        JsonView::Text("defeated"@),
    ).with("first_meet_seen"@, JsonView::Bool(true)).with(
        "pending_phase_event_id"@,
        JsonView::Text(event_id),
    );
    if input.wager > 0 {
        entry.with("carried_wager"@, JsonView::Int(input.wager)).with(
            "carried_risk_tier"@,
            JsonView::Text(word_of_risk(input.risk_tier)),
        )
    } else {
        entry.without("carried_wager"@).without("carried_risk_tier"@)
    }
}

/// The entry of the pinnacle once it is beaten.
pub open spec fn beaten_entry(input: PinnacleInputView, now: i64) -> JsonView {
    object().with("status"@, JsonView::Text("defeated"@)).with(
        "last_outcome"@,
        JsonView::Text(
            if input.close_win {
                "close_win"@
            } else {
                "defeated"@
            },
        ),
    ).with("first_meet_seen"@, JsonView::Bool(true)).with(
        "boss_id"@,
        JsonView::Text(input.boss_id),
    ).with("hp_remaining"@, JsonView::Int(0)).with(
        "hp_max"@,
        JsonView::Int(larger32(input.boss_hp_max, 1) as i64),
    ).with("last_engaged_at"@, JsonView::Int(now))
}

/// What is kept of a phase that was lost.
pub open spec fn wounded_phase(input: PinnacleInputView, now: i64) -> JsonView {
    object().with("status"@, JsonView::Text("active"@)).with(
        "boss_id"@,
        JsonView::Text(input.boss_id),
    ).with("hp_remaining"@, JsonView::Int(larger32(input.ending_boss_hp, 0) as i64)).with(
        "hp_max"@,
        JsonView::Int(larger32(input.boss_hp_max, 1) as i64),
    ).with("last_engaged_at"@, JsonView::Int(now)).with(
        "last_outcome"@,
        JsonView::Text("loss"@),
    ).with("first_meet_seen"@, JsonView::Bool(true))
}

/// The entry of the pinnacle once an attempt is lost. Nothing is carried on.
pub open spec fn lost_entry(entry: JsonView, input: PinnacleInputView) -> JsonView {
    entry.with(
        "status"@,
        JsonView::Text(
            if input.phase == 2 {
                "phase1_defeated"@
            } else if input.phase == 3 {
                "phase2_defeated"@
            } else {
                "active"@
            },
        ),
    ).with("boss_id"@, JsonView::Text(input.boss_id)).with(
        "last_outcome"@,
        JsonView::Text("loss"@),
    ).with("first_meet_seen"@, JsonView::Bool(true)).without("carried_wager"@).without(
        "carried_risk_tier"@,
    ).without("active_prep"@)
}

/// The progress after an attempt, unless the pinnacle has an entry that is no
/// object.
pub open spec fn settled_progress(
    progress: JsonView,
    input: PinnacleInputView,
    depth: i32,
    roll: RollView,
    now: i64,
) -> Option<JsonView> {
    let phase = phase_key(depth, input.phase);
    let boundary = int_text(depth as int);
    match roll {
        RollView::Transition { event_id, .. } => {
            let rest = progress.without(phase);
            match pinnacle_entry(rest, depth) {
                Some(entry) => Some(
                    rest.with(boundary, won_phase_entry(entry, input, event_id)),
                ),
                None => None,
            }
        },
        RollView::Victory { .. } => Some(
            progress.without(phase).with(boundary, beaten_entry(input, now)),
        ),
        RollView::Defeat { .. } => {
            let kept = progress.with(phase, wounded_phase(input, now));
            match pinnacle_entry(kept, depth) {
                Some(entry) => Some(kept.with(boundary, lost_entry(entry, input))),
                None => None,
            }
        },
    }
}

fn write_won_phase(entry: &mut Json, input: &PinnacleSettlementInput, event_id: &str)
    ensures
        final(entry)@ == won_phase_entry(old(entry)@, input@, event_id@),
{
    entry.set(
        "status",
        Json::from_text(
            if input.phase == 1 {
                "phase1_defeated"
            } else {
                "phase2_defeated"
            },
        ),
    );
    entry.set("boss_id", Json::from_text(input.boss_id.as_str()));
    entry.set("last_outcome", Json::from_text("defeated"));
    entry.set("first_meet_seen", Json::Bool(true));
    entry.set("pending_phase_event_id", Json::from_text(event_id));
    if input.wager > 0 {
        entry.set("carried_wager", Json::from_i64(input.wager));
        entry.set("carried_risk_tier", Json::from_text(risk_name(input.risk_tier)));
    } else {
        entry.unset("carried_wager");
        entry.unset("carried_risk_tier");
    }
}

fn write_beaten(input: &PinnacleSettlementInput, now: i64) -> (entry: Json)
    ensures
        entry@ == beaten_entry(input@, now),
{
    let mut entry = Json::empty_object();
    entry.set("status", Json::from_text("defeated"));
    entry.set(
        "last_outcome",
        Json::from_text(
            if input.close_win {
                "close_win"
            } else {
                "defeated"
            },
        ),
    );
    entry.set("first_meet_seen", Json::Bool(true));
    entry.set("boss_id", Json::from_text(input.boss_id.as_str()));
    entry.set("hp_remaining", Json::from_i64(0));
    entry.set("hp_max", Json::from_i64(max_of32(input.boss_hp_max, 1) as i64));
    entry.set("last_engaged_at", Json::from_i64(now));
    entry
}

fn write_wounded(input: &PinnacleSettlementInput, now: i64) -> (entry: Json)
    ensures
        entry@ == wounded_phase(input@, now),
{
    let mut entry = Json::empty_object();
    entry.set("status", Json::from_text("active"));
    entry.set("boss_id", Json::from_text(input.boss_id.as_str()));
    entry.set("hp_remaining", Json::from_i64(max_of32(input.ending_boss_hp, 0) as i64));
    entry.set("hp_max", Json::from_i64(max_of32(input.boss_hp_max, 1) as i64));
    entry.set("last_engaged_at", Json::from_i64(now));
    entry.set("last_outcome", Json::from_text("loss"));
    entry.set("first_meet_seen", Json::Bool(true));
    entry
}

fn write_lost(entry: &mut Json, input: &PinnacleSettlementInput)
    ensures
        final(entry)@ == lost_entry(old(entry)@, input@),
{
    entry.set(
        "status",
        Json::from_text(
            if input.phase == 2 {
                "phase1_defeated"
            } else if input.phase == 3 {
                "phase2_defeated"
            } else {
                "active"
            },
        ),
    );
    entry.set("boss_id", Json::from_text(input.boss_id.as_str()));
    entry.set("last_outcome", Json::from_text("loss"));
    entry.set("first_meet_seen", Json::Bool(true));
    entry.unset("carried_wager");
    entry.unset("carried_risk_tier");
    entry.unset("active_prep");
}

fn write_settled(
    progress: Json,
    input: &PinnacleSettlementInput,
    depth: i32,
    roll: &PinnacleRoll,
    now: i64,
) -> (settled: Option<Json>)
    ensures
        settled_progress(progress@, input@, depth, roll@, now) == (match settled {
            Some(tree) => Some(tree@),
            None => None,
        }),
        progress@.nests(127) ==> (settled matches Some(tree) ==> tree@.nests(127)),
{
    proof {
        lemma_edits_nest(127);
        lemma_edits_nest(126);
    }
    let phase = pinnacle_phase_key(depth, input.phase);
    let boundary = integer_text(depth as i64);
    let mut progress = progress;
    match roll {
        PinnacleRoll::Transition { event_id, .. } => {
            progress.unset(phase.as_str());
            match read_pinnacle_entry(&progress, depth) {
                Some(entry) => {
                    let mut entry = entry;
                    write_won_phase(&mut entry, input, event_id.as_str());
                    progress.set(boundary.as_str(), entry);
                    Some(progress)
                },
                None => None,
            }
        },
        PinnacleRoll::Victory { .. } => {
            progress.unset(phase.as_str());
            progress.set(boundary.as_str(), write_beaten(input, now));
            Some(progress)
        },
        PinnacleRoll::Defeat { .. } => {
            progress.set(phase.as_str(), write_wounded(input, now));
            match read_pinnacle_entry(&progress, depth) {
                Some(entry) => {
                    let mut entry = entry;
                    write_lost(&mut entry, input);
                    progress.set(boundary.as_str(), entry);
                    Some(progress)
                },
                None => None,
            }
        },
    }
}

/// The record after an attempt.
pub open spec fn settled_record(
    record: BossRecordView,
    input: PinnacleInputView,
    depth: i32,
    roll: RollView,
    now: i64,
    progress: JsonView,
) -> BossRecordView {
    let figures = figures_of(record, input, roll);
    let base = BossRecordView {
        boss_progress_json: Some(text_of_json(progress)),
        last_dig_at: Some(now),
        ..record
    };
    match roll {
        RollView::Transition { luminosity_delta, .. } => BossRecordView {
            pinnacle_phase: figures.next_phase as i64,
            luminosity: within(nearest(record.luminosity + luminosity_delta), 0, 100),
            last_lum_update_at: Some(now),
            boss_attempts: larger32(input.attempts, 0) as i64,
            ..base
        },
        RollView::Victory { reward } => BossRecordView {
            balance: nearest(record.balance + reward.penalized),
            depth: depth as i64,
            max_depth: larger(record.max_depth, depth as i64),
            pinnacle_phase: 0,
            pinnacle_hp_remaining: None,
            pinnacle_last_engaged_at: None,
            boss_attempts: 0,
            cheer_data_json: None,
            ..base
        },
        RollView::Defeat { .. } => BossRecordView {
            depth: larger(nearest(record.depth - figures.knockback), 0),
            balance: nearest(record.balance - forfeit(input.wager, record.balance)),
            boss_attempts: larger32(input.attempts, 0) as i64,
            cheer_data_json: None,
            ..base
        },
    }
}

fn write_record(
    record: &DigBossRuntimeSnapshot,
    input: &PinnacleSettlementInput,
    depth: i32,
    roll: &PinnacleRoll,
    now: i64,
    progress: Json,
    figures: PinnacleFigures,
) -> (settled: DigBossRuntimeSnapshot)
    requires
        figures == figures_of(record@, input@, roll@),
    ensures
        settled@ == settled_record(record@, input@, depth, roll@, now, progress@),
        progress@.nests(127) ==> (settled@.boss_progress_json matches Some(text) && reads_back(
            text,
            progress@,
        )),
{
    let mut settled = record.clone();
    settled.boss_progress_json = Some(render_json(progress));
    settled.last_dig_at = Some(now);
    match roll {
        PinnacleRoll::Transition { luminosity_delta, .. } => {
            settled.pinnacle_phase = figures.next_phase as i64;
            settled.luminosity = clamp_to(
                sat_add(record.luminosity, *luminosity_delta as i64),
                0,
                100,
            );
            settled.last_lum_update_at = Some(now);
            settled.boss_attempts = max_of32(input.attempts, 0) as i64;
        },
        PinnacleRoll::Victory { reward } => {
            settled.balance = sat_add(record.balance, reward.penalized);
            settled.depth = depth as i64;
            settled.max_depth = max_of(record.max_depth, depth as i64);
            settled.pinnacle_phase = 0;
            settled.pinnacle_hp_remaining = None;
            settled.pinnacle_last_engaged_at = None;
            settled.boss_attempts = 0;
            settled.cheer_data_json = None;
        },
        PinnacleRoll::Defeat { .. } => {
            settled.depth = max_of(sat_sub(record.depth, figures.knockback as i64), 0);
            settled.balance = sat_sub(record.balance, wager_forfeit(input.wager, record.balance));
            settled.boss_attempts = max_of32(input.attempts, 0) as i64;
            settled.cheer_data_json = None;
        },
    }
    settled
}

/// What is recorded of an attempt.
pub open spec fn attempt_detail(
    input: PinnacleInputView,
    figures: PinnacleFigures,
    reward_multiplier: JsonView,
) -> JsonView {
    object().with("pinnacle_id"@, JsonView::Text(input.boss_id)).with(
        "phase"@,
        JsonView::Int(input.phase as i64),
    ).with("won"@, JsonView::Bool(input.won)).with("rounds"@, rounds_tree(input.round_log)).with(
        "boss_hp_remaining"@,
        JsonView::Int(larger32(input.ending_boss_hp, 0) as i64),
    ).with("jc_delta"@, JsonView::Int(figures.jc_delta)).with(
        "gross_jc"@,
        JsonView::Int(figures.gross_jc),
    ).with("gross_payout"@, JsonView::Int(figures.gross_payout)).with(
        "scaled_base_jc"@,
        JsonView::Int(figures.scaled_base_jc),
    ).with("wager_payout"@, JsonView::Int(figures.wager_payout)).with(
        "reward_multiplier"@,
        reward_multiplier,
    ).with("bankruptcy_penalty"@, JsonView::Int(figures.bankruptcy_penalty)).with(
        "vanity_tax"@,
        JsonView::Int(figures.vanity_tax),
    ).with("starting_boss_hp"@, JsonView::Int(input.starting_boss_hp as i64))
}

fn write_detail(
    input: &PinnacleSettlementInput,
    figures: PinnacleFigures,
    reward_multiplier: Json,
) -> (detail: String)
    ensures
        detail@ == text_of_json(attempt_detail(input@, figures, reward_multiplier@)),
{
    let mut detail = Json::empty_object();
    detail.set("pinnacle_id", Json::from_text(input.boss_id.as_str()));
    detail.set("phase", Json::from_i64(input.phase as i64));
    detail.set("won", Json::Bool(input.won));
    detail.set("rounds", write_rounds(&input.round_log));
    detail.set("boss_hp_remaining", Json::from_i64(max_of32(input.ending_boss_hp, 0) as i64));
    detail.set("jc_delta", Json::from_i64(figures.jc_delta));
    detail.set("gross_jc", Json::from_i64(figures.gross_jc));
    detail.set("gross_payout", Json::from_i64(figures.gross_payout));
    detail.set("scaled_base_jc", Json::from_i64(figures.scaled_base_jc));
    detail.set("wager_payout", Json::from_i64(figures.wager_payout));
    detail.set("reward_multiplier", reward_multiplier);
    detail.set("bankruptcy_penalty", Json::from_i64(figures.bankruptcy_penalty));
    detail.set("vanity_tax", Json::from_i64(figures.vanity_tax));
    detail.set("starting_boss_hp", Json::from_i64(input.starting_boss_hp as i64));
    render_json(detail)
}

/// An attempt as it is to be written.
#[derive(Debug)]
pub struct PinnacleSettlement {
    pub proposed: DigBossRuntimeSnapshot,
    pub figures: PinnacleFigures,
    pub rescue_line_used: bool,
    /// What is recorded of the attempt.
    pub detail: String,
}

/// Whether a record is still the one that an attempt was made on.
pub open spec fn same_pinnacle(record: BossRecordView, input: PinnacleInputView) -> bool {
    phase_of(record) == input.phase && record.pinnacle_boss_id == Some(input.boss_id)
}

/// What keeps an attempt from being settled.
pub open spec fn settle_obstacle(
    record: BossRecordView,
    input: PinnacleInputView,
    depth: i32,
    roll: RollView,
    now: i64,
) -> Option<BossErrorView> {
    if !same_pinnacle(record, input) {
        Some(
            BossErrorView::InvalidPinnacle("pinnacle phase or boss changed before settlement"@),
        )
    } else if settled_progress(
        column_object(record.boss_progress_json),
        input,
        depth,
        roll,
        now,
    ) is None {
        Some(BossErrorView::InvalidPinnacle("pinnacle progress entry is not an object"@))
    } else if end_of(input.won, input.phase) == PinnacleEnd::Victory && !fits(
        record.prestige_level,
    ) {
        Some(BossErrorView::Infrastructure(out_of_range("prestige level"@)))
    } else {
        None
    }
}

/// Tells whether a record is still the one that an attempt was made on, so that
/// it makes sense to roll for its end.
pub fn check_pinnacle(record: &DigBossRuntimeSnapshot, input: &PinnacleSettlementInput) -> (answer:
    Result<(), DigBossRuntimeError>)
    ensures
        match answer {
            Ok(_) => same_pinnacle(record@, input@),
            Err(error) => !same_pinnacle(record@, input@) && error@
                == BossErrorView::InvalidPinnacle(
                "pinnacle phase or boss changed before settlement"@,
            ),
        },
{
    if pinnacle_phase(record) != input.phase || !text_is(
        &record.pinnacle_boss_id,
        input.boss_id.as_str(),
    ) {
        Err(
            DigBossRuntimeError::InvalidPinnacle(
                "pinnacle phase or boss changed before settlement".to_owned(),
            ),
        )
    } else {
        Ok(())
    }
}

/// Settles an attempt at the pinnacle.
pub fn settle_pinnacle(
    record: &DigBossRuntimeSnapshot,
    input: &PinnacleSettlementInput,
    depth: i32,
    roll: &PinnacleRoll,
    reward_multiplier: Json,
    now: i64,
) -> (settled: Result<PinnacleSettlement, DigBossRuntimeError>)
    requires
        roll_fits(input@, roll@),
    ensures
        match settled {
            Ok(settled) => {
                let progress = settled_progress(
                    column_object(record@.boss_progress_json),
                    input@,
                    depth,
                    roll@,
                    now,
                );
                &&& settle_obstacle(record@, input@, depth, roll@, now) is None
                &&& settled.proposed@ == settled_record(
                    record@,
                    input@,
                    depth,
                    roll@,
                    now,
                    progress->0,
                )
                &&& settled.proposed@.boss_progress_json matches Some(text)
                &&& reads_back(text, progress->0)
                &&& settled.figures == figures_of(record@, input@, roll@)
                &&& settled.rescue_line_used == line_used(input@.won, input@.boss_preparation)
                &&& settled.detail@ == text_of_json(
                    attempt_detail(
                        input@,
                        figures_of(record@, input@, roll@),
                        reward_multiplier@,
                    ),
                )
            },
            Err(error) => settle_obstacle(record@, input@, depth, roll@, now) == Some(error@),
        },
{
    match check_pinnacle(record, input) {
        Ok(_) => {},
        Err(error) => {
            return Err(error);
        },
    }
    let progress = read_object(borrow_text(&record.boss_progress_json));
    let progress = match write_settled(progress, input, depth, roll, now) {
        Some(progress) => progress,
        None => {
            return Err(
                DigBossRuntimeError::InvalidPinnacle(
                    "pinnacle progress entry is not an object".to_owned(),
                ),
            );
        },
    };
    if pinnacle_end(input.won, input.phase) == PinnacleEnd::Victory {
        match narrow_i32(record.prestige_level, "prestige level") {
            Ok(_) => {},
            Err(message) => {
                return Err(DigBossRuntimeError::Infrastructure(message));
            },
        }
    }
    let figures = work_out_figures(record, input, roll);
    Ok(
        PinnacleSettlement {
            proposed: write_record(record, input, depth, roll, now, progress, figures),
            figures,
            rescue_line_used: rescue_line_used(input.won, &input.boss_preparation),
            detail: write_detail(input, figures, reward_multiplier),
        },
    )
}

/// How an attempt at the pinnacle is told. Its chance and its multiplier are
/// told beside it.
#[derive(Debug)]
pub struct DigPinnacleResolved {
    pub won: bool,
    pub boss_id: String,
    pub boss_name: String,
    pub phase: u8,
    pub risk_tier: RiskTier,
    pub wager: i64,
    pub figures: PinnacleFigures,
    pub new_depth: i32,
    pub boss_hp_remaining: i32,
    pub boss_hp_max: i32,
    pub round_log: Vec<RoundRecord>,
    pub phase_event_id: Option<String>,
    pub rescue_line_used: bool,
    pub warding_salts_blocked: bool,
}

/// Tells a settled attempt: a beaten pinnacle by the name of its boss, anything
/// else by the title of its phase.
pub fn tell_pinnacle(
    input: &PinnacleSettlementInput,
    settled: &PinnacleSettlement,
    roll: &PinnacleRoll,
    boss_name: &str,
    phase_title: &str,
) -> (told: Result<DigPinnacleResolved, DigBossRuntimeError>)
    ensures
        match told {
            Ok(told) => {
                &&& told.new_depth == settled.proposed@.depth
                &&& told.won == input@.won
                &&& told.boss_id@ == input@.boss_id
                &&& told.boss_name@ == (if input@.won && input@.phase == 3 {
                    boss_name@
                } else {
                    phase_title@
                })
                &&& told.phase == input@.phase
                &&& told.risk_tier == input@.risk_tier
                &&& told.wager == input@.wager
                &&& told.figures == settled.figures
                &&& told.boss_hp_remaining == (if input@.won {
                    0
                } else {
                    larger32(input@.ending_boss_hp, 0)
                })
                &&& told.boss_hp_max == input@.boss_hp_max
                &&& round_views(told.round_log@) == input@.round_log
                &&& text_view(told.phase_event_id) == (match roll@ {
                    RollView::Transition { event_id, .. } => Some(event_id),
                    _ => None,
                })
                &&& told.rescue_line_used == settled.rescue_line_used
                &&& told.warding_salts_blocked == input@.warding_salts_blocked
            },
            Err(error) => !fits(settled.proposed@.depth) && error@ == BossErrorView::Infrastructure(
                out_of_range("depth"@),
            ),
        },
{
    let new_depth = match narrow_i32(settled.proposed.depth, "depth") {
        Ok(narrow) => narrow,
        Err(message) => {
            return Err(DigBossRuntimeError::Infrastructure(message));
        },
    };
    let phase_event_id = match roll {
        PinnacleRoll::Transition { event_id, .. } => Some(event_id.clone()),
        _ => None,
    };
    Ok(
        DigPinnacleResolved {
            won: input.won,
            boss_id: input.boss_id.clone(),
            boss_name: if input.won && input.phase == 3 {
                boss_name.to_owned()
            } else {
                phase_title.to_owned()
            },
            phase: input.phase,
            risk_tier: input.risk_tier,
            wager: input.wager,
            figures: settled.figures,
            new_depth,
            boss_hp_remaining: if input.won {
                0
            } else {
                max_of32(input.ending_boss_hp, 0)
            },
            boss_hp_max: input.boss_hp_max,
            round_log: input.round_log.clone(),
            phase_event_id,
            rescue_line_used: settled.rescue_line_used,
            warding_salts_blocked: input.warding_salts_blocked,
        },
    )
}

/// A defeat takes no more than the wager and no more than the wallet holds, and
/// throws the player back by at most sixteen blocks, never below the surface.
pub proof fn law_defeat_is_limited(
    record: BossRecordView,
    input: PinnacleInputView,
    depth: i32,
    rolled: i32,
    now: i64,
    progress: JsonView,
)
    requires
        record.depth >= 0,
    ensures
        ({
            let roll = RollView::Defeat { knockback: rolled };
            let after = settled_record(record, input, depth, roll, now, progress);
            let figures = figures_of(record, input, roll);
            &&& after.balance == record.balance + figures.jc_delta
            &&& -larger(input.wager, 0) <= figures.jc_delta <= 0
            &&& record.balance >= 0 ==> after.balance >= 0
            &&& 0 <= after.depth <= record.depth
            &&& record.depth - after.depth <= 16
            &&& line_used(input.won, input.boss_preparation) ==> record.depth - after.depth <= 8
        }),
{
}

/// Winning a phase moves to the next one, leaves wallet and depth as they are
/// and carries a wager on; winning the last one clears the pinnacle and pays
/// what is told.
pub proof fn law_wins_move_on(
    record: BossRecordView,
    input: PinnacleInputView,
    depth: i32,
    event_id: Seq<char>,
    luminosity_delta: i32,
    reward: PinnacleReward,
    now: i64,
    entry: JsonView,
    progress: JsonView,
)
    requires
        1 <= input.phase < 3,
        entry is Object,
        i64::MIN <= record.balance + reward.penalized <= i64::MAX,
    ensures
        ({
            let step = RollView::Transition { event_id, luminosity_delta };
            let after = settled_record(record, input, depth, step, now, progress);
            &&& after.pinnacle_phase == input.phase + 1
            &&& after.balance == record.balance
            &&& after.depth == record.depth
            &&& 0 <= after.luminosity <= 100
            &&& won_phase_entry(entry, input, event_id).int_at("carried_wager"@) == (
            if input.wager > 0 {
                Some(input.wager)
            } else {
                None
            })
            &&& won_phase_entry(entry, input, event_id).text_at("pending_phase_event_id"@) == Some(
                event_id,
            )
        }),
        ({
            let last = RollView::Victory { reward };
            let after = settled_record(record, input, depth, last, now, progress);
            &&& after.pinnacle_phase == 0
            &&& after.boss_attempts == 0
            &&& after.balance == record.balance + figures_of(record, input, last).jc_delta
            &&& after.max_depth >= after.depth
        }),
{
    lemma_entry_words();
}

/// The fields of a pinnacle entry differ.
proof fn lemma_entry_words()
    ensures
        "status"@.len() == 6,
        "boss_id"@.len() == 7,
        "last_outcome"@.len() == 12,
        "first_meet_seen"@.len() == 15,
        "pending_phase_event_id"@.len() == 22,
        "carried_wager"@.len() == 13,
        "carried_risk_tier"@.len() == 17,
{
    reveal_strlit("status");
    reveal_strlit("boss_id");
    reveal_strlit("last_outcome");
    reveal_strlit("first_meet_seen");
    reveal_strlit("pending_phase_event_id");
    reveal_strlit("carried_wager");
    reveal_strlit("carried_risk_tier");
}

/// After a defeat nothing of the attempt is carried on, and the boss keeps its
/// wounds.
pub proof fn law_defeat_carries_nothing(entry: JsonView, input: PinnacleInputView, now: i64)
    requires
        entry is Object,
    ensures
        lost_entry(entry, input).get("carried_wager"@) is None,
        lost_entry(entry, input).get("carried_risk_tier"@) is None,
        lost_entry(entry, input).get("active_prep"@) is None,
        wounded_phase(input, now).int_at("hp_remaining"@) == Some(
            larger32(input.ending_boss_hp, 0) as i64,
        ),
{
    lemma_wound_words();
}

/// The fields of a wounded phase differ.
proof fn lemma_wound_words()
    ensures
        "status"@.len() == 6,
        "boss_id"@.len() == 7,
        "hp_remaining"@.len() == 12,
        "hp_max"@.len() == 6,
        "last_engaged_at"@.len() == 15,
        "last_outcome"@.len() == 12,
        "first_meet_seen"@.len() == 15,
        "carried_wager"@.len() == 13,
        "carried_risk_tier"@.len() == 17,
        "active_prep"@.len() == 11,
        "status"@[0] != "hp_max"@[0],
        "hp_remaining"@[0] != "last_outcome"@[0],
        "last_engaged_at"@[0] != "first_meet_seen"@[0],
{
    reveal_strlit("status");
    reveal_strlit("boss_id");
    reveal_strlit("hp_remaining");
    reveal_strlit("hp_max");
    reveal_strlit("last_engaged_at");
    reveal_strlit("last_outcome");
    reveal_strlit("first_meet_seen");
    reveal_strlit("carried_wager");
    reveal_strlit("carried_risk_tier");
    reveal_strlit("active_prep");
}

} // verus!
