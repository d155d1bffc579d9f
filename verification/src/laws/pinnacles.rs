//! Laws on attempts at the pinnacle.

use crate::boss_store::BossRecordView;
use crate::json::JsonView;
use crate::pinnacle::{
    attempt_detail, boss_health, figures_of, phase_key, pinnacle_base_reward, pinnacle_end,
    pinnacle_phase_key, settled_progress, settled_record, wager_forfeit, PinnacleEnd,
    PinnacleFigures, PinnacleInputView, RollView,
};
use crate::text::int_text;
use vstd::prelude::*;

verus! {

proof fn lemma_wound_words()
    ensures
        "status"@.len() == 6,
        "boss_id"@.len() == 7,
        "hp_remaining"@.len() == 12,
        "hp_max"@.len() == 6,
        "last_engaged_at"@.len() == 15,
        "last_outcome"@.len() == 12,
        "first_meet_seen"@.len() == 15,
        "carried_wager"@.len() == 13,
        "carried_risk_tier"@.len() == 17,
        "active_prep"@.len() == 11,
        "pending_phase_event_id"@.len() == 22,
        "status"@[0] != "hp_max"@[0],
        "hp_remaining"@[0] != "last_outcome"@[0],
        "last_engaged_at"@[0] != "first_meet_seen"@[0],
{
    reveal_strlit("status");
    reveal_strlit("boss_id");
    reveal_strlit("hp_remaining");
    reveal_strlit("hp_max");
    reveal_strlit("last_engaged_at");
    reveal_strlit("last_outcome");
    reveal_strlit("first_meet_seen");
    reveal_strlit("carried_wager");
    reveal_strlit("carried_risk_tier");
    reveal_strlit("active_prep");
    reveal_strlit("pending_phase_event_id");
}

/// A boss keeps its wounds: after a settled defeat it has the health that it ended
/// the fight with, gets one point back for each day since, and never has less than
/// one or more than it had at most.
pub proof fn law_boss_keeps_its_wounds(
    progress: JsonView,
    input: PinnacleInputView,
    depth: i32,
    knockback: i32,
    now: i64,
    after: JsonView,
    fresh_hp: i32,
    later: i64,
)
    requires
        progress is Object,
        settled_progress(progress, input, depth, RollView::Defeat { knockback }, now) == Some(after),
        now <= later,
        later - now <= i64::MAX,
    ensures
        ({
            let most = if input.boss_hp_max > 1 {
                input.boss_hp_max
            } else {
                1
            };
            let kept = if input.ending_boss_hp > 0 {
                input.ending_boss_hp as int
            } else {
                0
            };
            let rested = kept + (later - now) / 86_400;
            let health = boss_health(after, phase_key(depth, input.phase), fresh_hp, later);
            &&& health.1 == most
            &&& rested < 1 ==> health.0 == 1
            &&& 1 <= rested <= most ==> health.0 == rested
            &&& rested > most ==> health.0 == most
        }),
{
    lemma_wound_words();
    reveal_strlit(":");
    let (key, boundary) = (phase_key(depth, input.phase), int_text(depth as int));
    assert(key.len() > boundary.len());
}

/// A phase that was won is fought no more: the next one starts at full health.
pub proof fn law_next_phase_starts_fresh(
    progress: JsonView,
    input: PinnacleInputView,
    depth: i32,
    roll: RollView,
    now: i64,
    after: JsonView,
    fresh_hp: i32,
    later: i64,
)
    requires
        progress is Object,
        roll is Transition || roll is Victory,
        settled_progress(progress, input, depth, roll, now) == Some(after),
        fresh_hp >= 1,
    ensures
        after.get(phase_key(depth, input.phase)) is None,
        boss_health(after, phase_key(depth, input.phase), fresh_hp, later) == (fresh_hp, fresh_hp),
{
    reveal_strlit(":");
    let (key, boundary) = (phase_key(depth, input.phase), int_text(depth as int));
    assert(key.len() > boundary.len());
}

/// What the entry of the pinnacle says after each end: a won phase is marked with
/// its number, its event and the wager that is carried on; the last win marks the
/// boss as defeated; a loss leaves the phases that were won before.
pub proof fn law_entry_tells_the_end(
    progress: JsonView,
    input: PinnacleInputView,
    depth: i32,
    roll: RollView,
    now: i64,
    after: JsonView,
)
    requires
        progress is Object,
        settled_progress(progress, input, depth, roll, now) == Some(after),
        1 <= input.phase <= 3,
        roll is Transition ==> input.phase < 3,
    ensures
        after.get(int_text(depth as int)) matches Some(entry) && {
            &&& entry.text_at("boss_id"@) == Some(input.boss_id)
            &&& entry.bool_at("first_meet_seen"@) == Some(true)
            &&& roll matches RollView::Transition { event_id, .. } ==> {
                &&& input.phase == 1 ==> entry.text_at("status"@) == Some("phase1_defeated"@)
                &&& input.phase == 2 ==> entry.text_at("status"@) == Some("phase2_defeated"@)
                &&& entry.text_at("pending_phase_event_id"@) == Some(event_id)
                &&& entry.text_at("last_outcome"@) == Some("defeated"@)
                &&& input.wager > 0 ==> entry.int_at("carried_wager"@) == Some(input.wager)
                    && entry.text_at("carried_risk_tier"@) == Some(
                    crate::duel::word_of_risk(input.risk_tier),
                )
                &&& input.wager <= 0 ==> entry.get("carried_wager"@) is None && entry.get(
                    "carried_risk_tier"@,
                ) is None
            }
            &&& roll is Victory ==> {
                &&& entry.text_at("status"@) == Some("defeated"@)
                &&& input.close_win ==> entry.text_at("last_outcome"@) == Some("close_win"@)
                &&& !input.close_win ==> entry.text_at("last_outcome"@) == Some("defeated"@)
                &&& entry.int_at("hp_remaining"@) == Some(0i64)
                &&& entry.int_at("last_engaged_at"@) == Some(now)
                &&& input.boss_hp_max >= 1 ==> entry.int_at("hp_max"@) == Some(
                    input.boss_hp_max as i64,
                )
            }
            &&& roll is Defeat ==> {
                &&& input.phase == 1 ==> entry.text_at("status"@) == Some("active"@)
                &&& input.phase == 2 ==> entry.text_at("status"@) == Some("phase1_defeated"@)
                &&& input.phase == 3 ==> entry.text_at("status"@) == Some("phase2_defeated"@)
                &&& entry.text_at("last_outcome"@) == Some("loss"@)
                &&& entry.get("carried_wager"@) is None && entry.get("carried_risk_tier"@) is None
                &&& entry.get("active_prep"@) is None
            }
        },
{
    lemma_wound_words();
    reveal_strlit(":");
    let (key, boundary) = (phase_key(depth, input.phase), int_text(depth as int));
    assert(key.len() > boundary.len());
}

/// Other entries of the progress are left alone.
pub proof fn law_other_bosses_are_left_alone(
    progress: JsonView,
    input: PinnacleInputView,
    depth: i32,
    roll: RollView,
    now: i64,
    after: JsonView,
    other: Seq<char>,
)
    requires
        progress is Object,
        settled_progress(progress, input, depth, roll, now) == Some(after),
        other != int_text(depth as int),
        other != phase_key(depth, input.phase),
    ensures
        after.get(other) == progress.get(other),
{
}

/// The record after each end. A won phase counts the attempt, moves the light as
/// its event says and goes on to the next phase; a victory pays its reward, stands
/// at the pinnacle and clears the fight; a defeat throws the digger back, takes the
/// wager as far as the wallet goes and counts the attempt. All of them count as a
/// dig of now.
pub proof fn law_record_after_the_end(
    record: BossRecordView,
    input: PinnacleInputView,
    depth: i32,
    roll: RollView,
    now: i64,
    progress: JsonView,
)
    requires
        0 <= record.balance <= 1_000_000_000_000,
        0 <= record.depth <= 1_000_000,
        0 <= record.max_depth <= 1_000_000,
        0 <= depth <= 1_000_000,
        0 <= record.luminosity <= 100,
        0 <= input.attempts <= 1_000_000,
        1 <= input.phase <= 3,
        roll is Transition ==> input.phase < 3,
        roll matches RollView::Transition { luminosity_delta, .. } ==> -1_000 <= luminosity_delta
            <= 1_000,
        roll matches RollView::Victory { reward } ==> 0 <= reward.penalized <= 1_000_000_000_000,
    ensures
        ({
            let settled = settled_record(record, input, depth, roll, now, progress);
            &&& settled.last_dig_at == Some(now)
            &&& settled.prestige_level == record.prestige_level
            &&& settled.stat_points == record.stat_points
            &&& settled.stinger_curse_json == record.stinger_curse_json
            &&& settled.pinnacle_boss_id == record.pinnacle_boss_id
            &&& roll matches RollView::Transition { luminosity_delta, .. } ==> {
                let light = record.luminosity + luminosity_delta;
                &&& settled.pinnacle_phase == input.phase + 1
                &&& 0 <= light <= 100 ==> settled.luminosity == light
                &&& light < 0 ==> settled.luminosity == 0
                &&& light > 100 ==> settled.luminosity == 100
                &&& settled.last_lum_update_at == Some(now)
                &&& settled.boss_attempts == input.attempts
                &&& settled.balance == record.balance && settled.depth == record.depth
                &&& settled.cheer_data_json == record.cheer_data_json
            }
            &&& roll matches RollView::Victory { reward } ==> {
                &&& settled.balance == record.balance + reward.penalized
                &&& settled.depth == depth && settled.pinnacle_phase == 0
                &&& record.max_depth >= depth ==> settled.max_depth == record.max_depth
                &&& record.max_depth < depth ==> settled.max_depth == depth
                &&& settled.boss_attempts == 0 && settled.cheer_data_json is None
                &&& settled.pinnacle_hp_remaining is None && settled.pinnacle_last_engaged_at
                    is None
                &&& settled.luminosity == record.luminosity
            }
            &&& roll matches RollView::Defeat { knockback } ==> {
                let line = !input.won && (input.boss_preparation is Some
                    && input.boss_preparation->0.item_type == "rescue_line"@);
                let thrown = if knockback < 8 {
                    8int
                } else if knockback > 16 {
                    16
                } else {
                    knockback as int
                };
                let back = if line {
                    (thrown + 1) / 2
                } else {
                    thrown
                };
                &&& record.depth >= back ==> settled.depth == record.depth - back
                &&& record.depth < back ==> settled.depth == 0
                &&& 0 <= input.wager <= record.balance ==> settled.balance == record.balance
                    - input.wager
                &&& input.wager > record.balance ==> settled.balance == 0
                &&& input.wager < 0 ==> settled.balance == record.balance
                &&& settled.boss_attempts == input.attempts && settled.cheer_data_json is None
                &&& settled.pinnacle_phase == record.pinnacle_phase
                &&& settled.luminosity == record.luminosity && settled.max_depth
                    == record.max_depth
            }
        }),
{
}

/// The figures of an attempt: a victory tells the parts of its reward, a defeat
/// what it took, and a won phase only that it goes on.
pub proof fn law_figures_tell_the_end(
    record: BossRecordView,
    input: PinnacleInputView,
    roll: RollView,
)
    requires
        0 <= record.balance,
        0 <= input.wager,
        1 <= input.phase <= 3,
        roll matches RollView::Victory { reward } ==> 0 <= reward.gross_base <= 1_000_000_000_000
            && 0 <= reward.event_wager <= 1_000_000_000_000,
    ensures
        ({
            let told = figures_of(record, input, roll);
            &&& roll matches RollView::Victory { reward } ==> {
                &&& told.gross_jc == reward.gross_base
                &&& told.scaled_base_jc == reward.scaled_base
                &&& told.wager_payout == reward.event_wager
                &&& told.gross_payout == reward.gross_base + reward.event_wager
                &&& told.payout == reward.penalized && told.jc_delta == reward.penalized
                &&& told.bankruptcy_penalty == reward.penalty_applied
                &&& told.vanity_tax == reward.vanity_tax
                &&& told.knockback == 0 && told.next_phase == 0
            }
            &&& roll is Transition ==> told.next_phase == input.phase + 1 && told.jc_delta == 0
                && told.payout == 0 && told.knockback == 0 && told.gross_payout == 0
            &&& roll is Defeat ==> {
                &&& told.next_phase == input.phase && told.payout == 0 && told.gross_payout == 0
                &&& input.wager <= record.balance ==> told.jc_delta == -input.wager
                &&& input.wager > record.balance ==> told.jc_delta == -record.balance
                &&& 4 <= told.knockback <= 16
            }
        }),
{
}

/// A win before the third phase goes on, one in the third ends it, and everything
/// else is a defeat.
pub proof fn law_ends_of_an_attempt(
    won: bool,
    phase: u8,
    end: PinnacleEnd,
    prestige: i64,
    reward: i64,
    wager: i64,
    balance: i64,
    debit: i64,
)
    requires
        call_ensures(pinnacle_end, (won, phase), end),
        call_ensures(pinnacle_base_reward, (prestige,), reward),
        call_ensures(wager_forfeit, (wager, balance), debit),
        prestige <= 1_000_000_000,
    ensures
        won && phase < 3 ==> end == PinnacleEnd::NextPhase,
        won && phase >= 3 ==> end == PinnacleEnd::Victory,
        !won ==> end == PinnacleEnd::Defeat,
        prestige >= 0 ==> reward == 500 + 100 * prestige,
        prestige < 0 ==> reward == 500,
        0 <= wager <= balance ==> debit == wager,
        0 <= balance < wager ==> debit == balance,
        wager < 0 || balance < 0 ==> debit == 0,
{
}

/// The key of a phase is the depth, a colon and the number of the phase.
pub proof fn law_phase_has_a_key(depth: i32, phase: u8, key: String)
    requires
        call_ensures(pinnacle_phase_key, (depth, phase), key),
    ensures
        key@ == int_text(depth as int) + ":"@ + int_text(phase as int),
{
}

proof fn lemma_detail_words()
    ensures
        "pinnacle_id"@.len() == 11,
        "phase"@.len() == 5,
        "won"@.len() == 3,
        "rounds"@.len() == 6,
        "boss_hp_remaining"@.len() == 17,
        "jc_delta"@.len() == 8,
        "gross_jc"@.len() == 8,
        "gross_payout"@.len() == 12,
        "scaled_base_jc"@.len() == 14,
        "wager_payout"@.len() == 12,
        "reward_multiplier"@.len() == 17,
        "bankruptcy_penalty"@.len() == 18,
        "vanity_tax"@.len() == 10,
        "starting_boss_hp"@.len() == 16,
        "boss_hp_remaining"@[0] != "reward_multiplier"@[0],
        "jc_delta"@[0] != "gross_jc"@[0],
        "gross_payout"@[0] != "wager_payout"@[0],
{
    reveal_strlit("pinnacle_id");
    reveal_strlit("phase");
    reveal_strlit("won");
    reveal_strlit("rounds");
    reveal_strlit("boss_hp_remaining");
    reveal_strlit("jc_delta");
    reveal_strlit("gross_jc");
    reveal_strlit("gross_payout");
    reveal_strlit("scaled_base_jc");
    reveal_strlit("wager_payout");
    reveal_strlit("reward_multiplier");
    reveal_strlit("bankruptcy_penalty");
    reveal_strlit("vanity_tax");
    reveal_strlit("starting_boss_hp");
}

/// The audit of an attempt holds each figure under its own name.
pub proof fn law_attempt_is_audited(
    input: PinnacleInputView,
    figures: PinnacleFigures,
    reward_multiplier: JsonView,
)
    ensures
        ({
            let told = attempt_detail(input, figures, reward_multiplier);
            &&& told.text_at("pinnacle_id"@) == Some(input.boss_id)
            &&& told.int_at("phase"@) == Some(input.phase as i64)
            &&& told.bool_at("won"@) == Some(input.won)
            &&& input.ending_boss_hp >= 0 ==> told.int_at("boss_hp_remaining"@) == Some(
                input.ending_boss_hp as i64,
            )
            &&& told.int_at("jc_delta"@) == Some(figures.jc_delta)
            &&& told.int_at("gross_jc"@) == Some(figures.gross_jc)
            &&& told.int_at("gross_payout"@) == Some(figures.gross_payout)
            &&& told.int_at("scaled_base_jc"@) == Some(figures.scaled_base_jc)
            &&& told.int_at("wager_payout"@) == Some(figures.wager_payout)
            &&& told.get("reward_multiplier"@) == Some(reward_multiplier)
            &&& told.int_at("bankruptcy_penalty"@) == Some(figures.bankruptcy_penalty)
            &&& told.int_at("vanity_tax"@) == Some(figures.vanity_tax)
            &&& told.int_at("starting_boss_hp"@) == Some(input.starting_boss_hp as i64)
            &&& told.get("rounds"@) == Some(crate::duel_row::rounds_tree(input.round_log))
        }),
{
    lemma_detail_words();
}

} // verus!
