//! Laws on words: how troubles are told, and how names are taken apart.

use crate::actions::{
    plan_help, plan_respec, plan_route_choice, respec_done_message, respec_price_message,
    still_commit, ActionPlan, HelpPlan, RespecPlan, RouteChoice,
};
use crate::attempt::attempt_number;
use crate::boss_error::{BossErrorView, BossServiceError, BossServiceErrorView, DigBossRuntimeError};
use crate::boss_service::{
    finish_composed, left_warnings, BossNotice, ComposedTroubles, DigBossRuntimeResult,
    DigBossVanityTaxPort, NoDigBossVanityTax,
};
use crate::boss_store::{BossRecordView, CacheView, LoadedView, PlayerKey};
use crate::boss_tunnel::{
    is_fight_plan, record_of, tunnel_obstacle, written_curse, CommitOutcome, FightCommit, FightPlan,
    FightView,
};
use crate::combat::{parts, relic_stats};
use crate::condition::prestige_perk_contains;
use crate::curse::{with_curse, CurseView};
use crate::duel::{quiet_log, risk_of_word};
use crate::duel_row::{prompt_of, row_obstacle, DuelRowView, DuelView, OptionView};
use crate::encounter::{
    is_meeting_plan, retreat_base, tell_retreat, DigBossRetreatOutcome, RetreatPlan,
};
use crate::fight::{after_event, pinnacle_question, resumed};
use crate::inventory::{
    auto_buy_told, AutoBuyOutcomeView, ConsumableDefinition, InventoryItemRecord,
};
use crate::json::{column_object, json_complaint, json_of_text, object, text_of_json, JsonView};
use crate::light::{begin_hooks, Light, LightHooks, LightStep};
use crate::loot::is_queued;
use crate::miner::{
    allocation_answer, auto_buy_answer, backstory_answer, creation_answer, profile_from_snapshot,
    respec_answer, unexpected_status, DigMinerMutationStatus, DigMinerProfile, DigMinerRespecResult,
    DigMinerRuntimeError, DigMinerSnapshot, MinerErrorView,
};
use crate::pinnacle::{
    same_pinnacle, settle_obstacle, settled_progress, tell_pinnacle, wounded_phase,
    DigPinnacleResolved, PinnacleInputView, PinnacleRoll, PinnacleSettlement,
    PinnacleSettlementInput, RollView,
};
use crate::preparation::{
    fight_preparation, first_preparation, plan_activation, prep_in_tree, prepared_column,
    prepared_tree, stands_ready, BossPreparationMutation, PreparationStep,
};
use crate::progress::{
    merged_progress, progress_column, progress_complaint, progress_tree, status_name, BossStatus,
    ProgressView,
};
use crate::settlement::{
    boss_defeated, lists_defeated, marks_defeated, DigRuntimeLowPriorityTaxPort,
    DigRuntimeVanityTaxPort, NoDigRuntimeLowPriorityTax, NoDigRuntimeVanityTax,
};
use crate::snapshot::{DigRuntimeSnapshot, ItemView, SnapshotView, TunnelView};
use crate::spoils::{
    leaves_loot, with_broken, with_gear, with_relic, BrokenGearAnswer, FightEnd, GearGrant,
    RelicAnswer, SpoilsView,
};
use crate::streak::{calendar_date, days_between, tunnel_streak};
use crate::text::{blank, i64_value, int_text, texts};
use vstd::prelude::*;

verus! {

proof fn lemma_parts(text: Seq<char>, separator: char)
    ensures
        parts(text, separator).len() >= 1,
    decreases text.len(),
{
    if text.len() > 0 {
        lemma_parts(text.drop_last(), separator);
    }
}

/// A text without the separator is one part.
pub proof fn law_text_without_separator_is_one_part(text: Seq<char>, separator: char)
    requires
        !text.contains(separator),
    ensures
        parts(text, separator) == seq![text],
    decreases text.len(),
{
    if text.len() > 0 {
        let front = text.drop_last();
        assert(!front.contains(separator)) by {
            if front.contains(separator) {
                let place = choose|i: int| 0 <= i < front.len() && front[i] == separator;
                assert(text[place] == separator);
            }
        }
        assert(text[text.len() - 1] == text.last());
        law_text_without_separator_is_one_part(front, separator);
        assert(front.push(text.last()) =~= text);
        assert(parts(text, separator) =~= seq![text]);
    } else {
        assert(text =~= Seq::empty());
    }
}

/// A separator ends one part and begins the next: the parts of two texts with one
/// between them are the parts of the first and then those of the second.
pub proof fn law_separator_parts_texts(a: Seq<char>, b: Seq<char>, separator: char)
    ensures
        parts(a.push(separator) + b, separator) == parts(a, separator) + parts(b, separator),
    decreases b.len(),
{
    let whole = a.push(separator) + b;
    lemma_parts(a, separator);
    lemma_parts(b, separator);
    if b.len() == 0 {
        assert(whole =~= a.push(separator));
        assert(whole.drop_last() =~= a);
        assert(parts(whole, separator) =~= parts(a, separator) + parts(b, separator));
    } else {
        assert(whole.drop_last() =~= a.push(separator) + b.drop_last());
        assert(whole.last() == b.last());
        law_separator_parts_texts(a, b.drop_last(), separator);
        lemma_parts(b.drop_last(), separator);
        assert(parts(whole, separator) =~= parts(a, separator) + parts(b, separator));
    }
}

/// A pinnacle relic is named by its kind, its boss and its number, and then by its
/// stats; no other artifact has stats in its name.
pub proof fn law_relic_names_its_stats(id: Seq<char>, head: Seq<Seq<char>>, stats: Seq<Seq<char>>)
    requires
        parts(id, ':') == head + stats,
        head.len() == 3,
    ensures
        head[0] == "pinnacle"@ ==> relic_stats(id) == stats,
        head[0] != "pinnacle"@ ==> relic_stats(id).len() == 0,
{
    assert((head + stats).subrange(3, (head + stats).len() as int) =~= stats);
    assert((head + stats)[0] == head[0]);
}

/// A perk is held where the column is a list of words and it is one of them.
pub proof fn law_perks_are_listed(raw: &str, perk: &str, answer: bool, items: Seq<JsonView>)
    requires
        call_ensures(prestige_perk_contains, (raw, perk), answer),
    ensures
        json_of_text(raw@) is None ==> !answer,
        json_of_text(raw@) matches Some(tree) ==> !(tree is Array) ==> !answer,
        json_of_text(raw@) == Some(JsonView::Array(items)) ==> {
            &&& (forall|i: int| 0 <= i < items.len() ==> #[trigger] items[i] is Text) ==> (answer
                <==> items.contains(JsonView::Text(perk@)))
            &&& (exists|i: int| 0 <= i < items.len() && !(#[trigger] items[i] is Text)) ==> !answer
        },
{
    if json_of_text(raw@) == Some(JsonView::Array(items)) && (forall|i: int|
        0 <= i < items.len() ==> #[trigger] items[i] is Text) {
        let words = Seq::new(items.len(), |i: int| items[i]->Text_0);
        assert(crate::condition::text_list(json_of_text(raw@)) == Some(words));
        if answer {
            let place = choose|i: int| 0 <= i < words.len() && words[i] == perk@;
            assert(items[place] == JsonView::Text(perk@));
        }
        if items.contains(JsonView::Text(perk@)) {
            let place = choose|i: int| 0 <= i < items.len() && items[i] == JsonView::Text(perk@);
            assert(words[place] == perk@);
        }
    }
}

/// An item is queued where its own row is.
pub proof fn law_row_is_queued(items: Seq<ItemView>, id: i64, place: int)
    requires
        0 <= place < items.len(),
        items[place].id == id,
        forall|i: int| 0 <= i < items.len() && i != place ==> (#[trigger] items[i]).id != id,
    ensures
        is_queued(items, id) <==> items[place].queued,
{
}

/// The streak of a tunnel goes on where the calendar has its last day one before
/// today.
pub proof fn law_tunnel_streak_goes_by_the_calendar(
    tunnel: TunnelView,
    last: Seq<char>,
    today: Seq<char>,
)
    requires
        1 <= tunnel.streak_days <= 1_000_000,
    ensures
        tunnel.streak_last_date is None ==> tunnel_streak(tunnel, today) == 1,
        tunnel.streak_last_date == Some(today) ==> tunnel_streak(tunnel, today)
            == tunnel.streak_days,
        tunnel.streak_last_date == Some(last) && last != today ==> (match (
            calendar_date(last, "%Y-%m-%d"@),
            calendar_date(today, "%Y-%m-%d"@),
        ) {
            (Some(then), Some(now)) => if days_between(then, now) == 1 {
                tunnel_streak(tunnel, today) == tunnel.streak_days + 1
            } else {
                tunnel_streak(tunnel, today) == 1
            },
            _ => tunnel_streak(tunnel, today) == 1,
        }),
{
}

/// What went wrong beside a fight is told: the record first, then the activation, then
/// the rules; what only half failed is a warning, in order.
pub proof fn law_troubles_of_a_fight_are_told(
    outcome: Result<u8, BossServiceError>,
    troubles: ComposedTroubles,
    action_id: Option<i64>,
    notices: Vec<BossNotice>,
    answer: Result<DigBossRuntimeResult<u8>, DigBossRuntimeError>,
)
    requires
        call_ensures(finish_composed::<u8>, (outcome, troubles, action_id, notices), answer),
    ensures
        answer is Ok <==> troubles.record is None && troubles.activation is None && outcome is Ok,
        answer matches Ok(result) ==> {
            &&& outcome == Ok::<u8, BossServiceError>(result.outcome)
            &&& result.action_id == action_id && result.notices == notices
            &&& result.gear_drop is None && result.prestige_relic_drop is None
            &&& texts(result.warnings@) == left_warnings(troubles)
        },
        answer matches Err(error) ==> {
            &&& troubles.record matches Some(words) ==> error@ == BossErrorView::Infrastructure(
                words@,
            )
            &&& troubles.record is None ==> (troubles.activation matches Some(words) ==> error@
                == BossErrorView::Infrastructure(words@))
            &&& troubles.record is None && troubles.activation is None ==> (outcome matches Err(
                rule,
            ) && error@ == BossErrorView::Policy(rule@))
        },
{
}

/// What half failed is told in the order economy, bankruptcy, gear, preparation.
pub proof fn law_half_failures_are_told_in_order(troubles: ComposedTroubles)
    ensures
        troubles.gear is None && troubles.preparation is None ==> left_warnings(troubles) == texts(
            troubles.economy@,
        ) + texts(troubles.bankruptcy@),
        troubles.preparation matches Some(words) ==> left_warnings(troubles).len() > 0
            && left_warnings(troubles).last() == words@,
        troubles.gear matches Some(words) ==> troubles.preparation is None ==> left_warnings(
            troubles,
        ).len() > 0 && left_warnings(troubles).last() == words@,
{
}

/// An attempt is the next one after those that were made.
pub proof fn law_attempts_are_numbered(made: i64, number: Result<i32, DigBossRuntimeError>)
    requires
        call_ensures(attempt_number, (made,), number),
    ensures
        i32::MIN <= made + 1 <= i32::MAX ==> (number matches Ok(next) && next == made + 1),
        made + 1 > i32::MAX ==> (number matches Err(error) && error@
            == BossErrorView::Infrastructure(
            "boss tunnel "@ + "boss attempts"@ + " is outside i32 range"@,
        )),
{
}

/// A phase event that changed stops the attempt that was prepared with it.
pub proof fn law_changed_event_stops_the_attempt(
    outcome: CommitOutcome,
    answer: Result<(), DigBossRuntimeError>,
)
    requires
        call_ensures(after_event, (outcome,), answer),
    ensures
        answer is Ok <==> outcome is Applied,
        outcome is Conflict ==> (answer matches Err(error) && error@
            == BossErrorView::InvalidPinnacle("phase event changed during attempt preparation"@)),
        outcome is MissingPlayer || outcome is MissingTunnel ==> (answer matches Err(error)
            && error@ == BossErrorView::Policy(BossServiceErrorView::MissingTunnel)),
{
}

/// A retreat that cannot be told names what is out of range.
pub proof fn law_retreat_out_of_range_is_named(
    boundary: i64,
    plan: &RetreatPlan,
    told: Result<DigBossRetreatOutcome, DigBossRuntimeError>,
)
    requires
        call_ensures(tell_retreat, (boundary, plan), told),
        plan.forfeit > i64::MIN,
    ensures
        !(i32::MIN <= boundary <= i32::MAX) ==> (told matches Err(error) && error@
            == BossErrorView::Infrastructure(
            "boss tunnel "@ + "boss boundary"@ + " is outside i32 range"@,
        )),
        i32::MIN <= boundary <= i32::MAX && !(i32::MIN <= plan.proposed@.depth <= i32::MAX) ==> (
        told matches Err(error) && error@ == BossErrorView::Infrastructure(
            "boss tunnel "@ + "retreat depth"@ + " is outside i32 range"@,
        )),
{
}

proof fn lemma_entry_words()
    ensures
        "status"@.len() == 6,
        "active"@.len() == 6,
        "first_meet_seen"@.len() == 15,
        "boss_id"@.len() == 7,
        "status"@[0] != "active"@[0],
{
    reveal_strlit("status");
    reveal_strlit("active");
    reveal_strlit("first_meet_seen");
    reveal_strlit("boss_id");
}

/// An entry that is fled from keeps what it says; one that is a bare word keeps the
/// word as its status.
pub proof fn law_fled_entry_keeps_its_status(
    progress: JsonView,
    boundary: Seq<char>,
    entry: JsonView,
)
    requires
        progress.get(boundary) == Some(entry),
    ensures
        entry is Object ==> retreat_base(progress, boundary) == entry,
        entry matches JsonView::Text(word) ==> retreat_base(progress, boundary).text_at("status"@)
            == Some(word),
        entry is Null || entry is Bool || entry is Int ==> retreat_base(progress, boundary).text_at(
            "status"@,
        ) == Some("active"@),
{
    lemma_entry_words();
}

/// A first meeting is written into the column: the boss, that it was met, and a status
/// where there was none; other bosses stay.
pub proof fn law_first_meeting_is_written(
    column: Option<Seq<char>>,
    boundary: Seq<char>,
    boss_id: Seq<char>,
    text: Seq<char>,
    other: Seq<char>,
)
    requires
        is_meeting_plan(column, boundary, boss_id, Some(text)),
        other != boundary,
    ensures
        exists|tree: JsonView|
            {
                &&& text == #[trigger] text_of_json(tree)
                &&& tree.get(other) == column_object(column).get(other)
                &&& match tree.get(boundary) {
                    Some(entry) => {
                        &&& entry.bool_at("first_meet_seen"@) == Some(true)
                        &&& entry.text_at("boss_id"@) == Some(boss_id)
                        &&& match column_object(column).get(boundary) {
                            None => entry.text_at("status"@) == Some("active"@),
                            Some(JsonView::Text(word)) => entry.text_at("status"@) == Some(word),
                            _ => true,
                        }
                    },
                    None => false,
                }
            },
{
    lemma_entry_words();
    let tree = crate::encounter::met_progress(column_object(column), boundary, boss_id);
    assert(text == text_of_json(tree));
}

/// The column of a preparation that is spent is the text of its tree.
pub proof fn law_spent_preparation_is_stored(
    text: Seq<char>,
    mutation: BossPreparationMutation,
    tree: JsonView,
)
    requires
        prepared_tree(Some(text), mutation) == Some(tree),
    ensures
        prepared_column(Some(text), mutation) == Some(Some(text_of_json(tree))),
        prepared_column(Some(text), BossPreparationMutation::Preserve) == Some(Some(text)),
        prepared_column(None, mutation) == Some(None::<Seq<char>>),
{
}

/// Nothing is made ready only where a preparation stands ready or none is queued.
pub proof fn law_nothing_is_made_ready_without_reason(
    column: Option<&str>,
    boundary: i32,
    queued: &Vec<InventoryItemRecord>,
    step: PreparationStep,
)
    requires
        call_ensures(plan_activation, (column, boundary, queued), step),
    ensures
        step is Nothing <==> stands_ready(
            column_object(crate::text::str_view(column)),
            boundary,
        ) || first_preparation(crate::inventory::record_views(queued@)) is None,
{
}

/// A question of a pinnacle is titled by its mechanic and keeps its options in order.
pub proof fn law_pinnacle_asks(mechanic: Seq<char>, options: Seq<OptionView>, safe: usize, i: int)
    requires
        0 <= i < mechanic.len(),
    ensures
        ({
            let asked = pinnacle_question(mechanic, options, safe);
            &&& asked.mechanic_id == mechanic && asked.options == options
            &&& asked.safe_option_index == safe
            &&& asked.prompt_description == "The pinnacle shifts the shape of the fight."@
            &&& asked.prompt_title.len() == mechanic.len()
            &&& mechanic[i] == '_' ==> asked.prompt_title[i] == ' '
            &&& mechanic[i] != '_' ==> asked.prompt_title[i] == mechanic[i]
        }),
{
}

/// A fight that goes on records one more round, at the health that it goes on with.
pub proof fn law_answered_round_is_recorded(
    duel: DuelView,
    answer: Option<crate::fight::AnswerEffect>,
)
    ensures
        ({
            let after = resumed(duel, answer);
            &&& after.round_log.len() == duel.round_log.len() + 1
            &&& after.round_log.drop_last() == duel.round_log
            &&& after.round_log.last().round == after.round_num
            &&& after.player_hp >= 0 ==> after.round_log.last().player_hp == after.player_hp
            &&& after.player_hp < 0 ==> after.round_log.last().player_hp == 0
            &&& after.boss_hp >= 0 ==> after.round_log.last().boss_hp == after.boss_hp
            &&& after.boss_hp < 0 ==> after.round_log.last().boss_hp == 0
            &&& after.round_log.last().pet_assist == after.effects.pet_assist
            &&& answer matches Some(answer) ==> after.player_hp == answer.player_hp
                && after.boss_hp == answer.boss_hp && after.effects == answer.effects@
            &&& answer is None ==> duel == (DuelView { round_log: duel.round_log, ..after })
        }),
{
    let after = resumed(duel, answer);
    assert(after.round_log.drop_last() =~= duel.round_log);
}

/// A quiet round has no critical hit and nothing else to tell.
pub proof fn law_quiet_round_is_quiet()
    ensures
        ({
            let log = quiet_log();
            &&& !log.critical && log.berserk_bonus == 0
            &&& !log.offence.venom && !log.offence.bottled_quake && !log.offence.laststand
            &&& !log.offence.double_hit && !log.offence.red_thread_reroll
            &&& !log.defence.deaths_door && !log.defence.forewarned
            &&& !log.defence.briarplate_reflect && !log.defence.springheel_counter
            &&& !log.recovery.blood_locket_heal && !log.recovery.lifesteal
            &&& !log.recovery.regrowth && !log.skipped.player && !log.skipped.boss
        }),
{
}

/// What failed of the spoils is a warning of its own.
pub proof fn law_failed_spoils_are_warned_of(
    spoils: SpoilsView,
    broken: BrokenGearAnswer,
    relic: RelicAnswer,
)
    ensures
        broken matches BrokenGearAnswer::Failed(error) ==> {
            &&& with_broken(spoils, broken).warnings == spoils.warnings.push(
                "boss broken-gear projection failed: "@ + error@,
            )
            &&& with_broken(spoils, broken).broken_gear == spoils.broken_gear
        },
        relic is LostRecord ==> with_relic(spoils, relic).warnings == spoils.warnings.push(
            "boss prestige-relic drop lost its tunnel snapshot"@,
        ),
        relic matches RelicAnswer::RecordFailed(error) ==> with_relic(spoils, relic).warnings
            == spoils.warnings.push("boss prestige-relic snapshot failed: "@ + error@),
        relic matches RelicAnswer::OwnershipFailed(error) ==> with_relic(spoils, relic).warnings
            == spoils.warnings.push("boss prestige-relic ownership failed: "@ + error@),
        relic is Missed ==> with_relic(spoils, relic) == spoils,
{
}

/// A broken column is complained of by its name.
pub proof fn law_broken_progress_is_named(text: Seq<char>)
    ensures
        progress_complaint(text) == "boss_progress JSON is invalid: "@ + json_complaint(text),
{
}

/// A fight plan carries over all of the record but its progress, cheers and awards;
/// without an audit the cheers stay.
pub proof fn law_fight_plan_keeps_the_record(
    loaded: LoadedView,
    commit: FightCommit,
    plan: FightPlan,
)
    requires
        is_fight_plan(loaded, commit, plan),
    ensures
        ({
            let base = record_of(loaded.snapshot, commit.next_tunnel@);
            &&& base == (BossRecordView {
                boss_progress_json: base.boss_progress_json,
                cheer_data_json: base.cheer_data_json,
                stat_points: base.stat_points,
                stat_boss_awards_json: base.stat_boss_awards_json,
                ..plan.proposed@
            })
            &&& commit.audit is None ==> plan.proposed@.cheer_data_json == base.cheer_data_json
            &&& commit.audit is Some ==> plan.proposed@.cheer_data_json is None
            &&& commit.preparation_mutation is Preserve ==> plan.proposed@.boss_progress_json
                == base.boss_progress_json
        }),
{
}

/// An attempt is not settled where its boss is gone; a fallen boss needs a prestige that
/// can be told.
pub proof fn law_settlement_needs_its_boss(
    record: BossRecordView,
    input: PinnacleInputView,
    depth: i32,
    roll: RollView,
    now: i64,
)
    requires
        1 <= record.pinnacle_phase <= 3,
    ensures
        record.pinnacle_phase != input.phase || record.pinnacle_boss_id != Some(input.boss_id)
            ==> settle_obstacle(record, input, depth, roll, now) == Some(
            BossErrorView::InvalidPinnacle("pinnacle phase or boss changed before settlement"@),
        ),
        settle_obstacle(record, input, depth, roll, now) is None && input.won && input.phase == 3
            ==> i32::MIN <= record.prestige_level <= i32::MAX,
{
}

/// A column without words holds no progress; any other is read as a tree.
pub proof fn law_progress_is_read_from_its_tree(text: Seq<char>, tree: JsonView)
    ensures
        progress_column(None) == Some(Map::<Seq<char>, ProgressView>::empty()),
        blank(text) ==> progress_column(Some(text)) == Some(
            Map::<Seq<char>, ProgressView>::empty(),
        ),
        !blank(text) && json_of_text(text) == Some(tree) ==> progress_column(Some(text)) == Some(
            progress_tree(tree),
        ),
        !blank(text) && json_of_text(text) is None ==> progress_column(Some(text)) is None,
{
}

proof fn lemma_wound_words()
    ensures
        "status"@.len() == 6,
        "boss_id"@.len() == 7,
        "hp_remaining"@.len() == 12,
        "hp_max"@.len() == 6,
        "last_engaged_at"@.len() == 15,
        "last_outcome"@.len() == 12,
        "first_meet_seen"@.len() == 15,
        "status"@[0] != "hp_max"@[0],
        "hp_remaining"@[0] != "last_outcome"@[0],
        "last_engaged_at"@[0] != "first_meet_seen"@[0],
{
    reveal_strlit("status");
    reveal_strlit("boss_id");
    reveal_strlit("hp_remaining");
    reveal_strlit("hp_max");
    reveal_strlit("last_engaged_at");
    reveal_strlit("last_outcome");
    reveal_strlit("first_meet_seen");
}

/// A boss that won is still there: its phase is active, under its name, met, and the
/// attempt is a loss.
pub proof fn law_winning_boss_stays(input: PinnacleInputView, now: i64)
    ensures
        ({
            let entry = wounded_phase(input, now);
            &&& entry.text_at("status"@) == Some("active"@)
            &&& entry.text_at("boss_id"@) == Some(input.boss_id)
            &&& entry.text_at("last_outcome"@) == Some("loss"@)
            &&& entry.bool_at("first_meet_seen"@) == Some(true)
            &&& entry.int_at("last_engaged_at"@) == Some(now)
            &&& input.ending_boss_hp >= 0 ==> entry.int_at("hp_remaining"@) == Some(
                input.ending_boss_hp as i64,
            )
            &&& input.ending_boss_hp < 0 ==> entry.int_at("hp_remaining"@) == Some(0i64)
            &&& input.boss_hp_max >= 1 ==> entry.int_at("hp_max"@) == Some(input.boss_hp_max as i64)
        }),
{
    lemma_wound_words();
}

/// Loot is left by a boss that fell for good, once that is stored.
pub proof fn law_loot_is_left_by_the_fallen(end: FightEnd)
    ensures
        !end.committed ==> !leaves_loot(end),
        !end.won ==> !leaves_loot(end),
        end.phase_changed ==> !leaves_loot(end),
        end.committed && end.won && !end.phase_changed ==> leaves_loot(end),
{
}

/// A fight takes the preparation that the record has under its boss.
pub proof fn law_fight_takes_its_preparation(
    record: BossRecordView,
    text: Seq<char>,
    tree: JsonView,
    boundary: i32,
)
    requires
        record.boss_progress_json == Some(text),
        json_of_text(text) == Some(tree),
    ensures
        fight_preparation(Some(record), boundary) == prep_in_tree(tree, boundary),
        fight_preparation(None, boundary) is None,
{
}

/// A boss without an entry, or an entry without a preparation, has none standing ready.
pub proof fn law_nothing_stands_ready_unwritten(tree: JsonView, entry: JsonView, boundary: i32)
    ensures
        tree.get(int_text(boundary as int)) is None ==> !stands_ready(tree, boundary),
        tree.get(int_text(boundary as int)) == Some(entry) && entry.get("active_prep"@) is None
            ==> !stands_ready(tree, boundary),
        tree.get(int_text(boundary as int)) == Some(entry) && !(entry is Object) ==> !stands_ready(
            tree,
            boundary,
        ),
{
}

/// A torch lights the way by 50, up to full light, before anything is asked.
pub proof fn law_torch_comes_first(light: Light, hooks: LightHooks, step: LightStep)
    requires
        call_ensures(begin_hooks, (light, hooks), step),
        0 <= light.level <= 100,
        !hooks.spore_cloak,
    ensures
        step matches LightStep::Ascension(lit) && lit.drained == light.drained && (!hooks.torch
            ==> lit.level == light.level) && (hooks.torch && light.level <= 50 ==> lit.level
            == light.level + 50) && (hooks.torch && light.level > 50 ==> lit.level == 100),
{
}

/// Where there are no taxes, every quote is zero.
pub proof fn law_no_tax_is_zero(
    vanity: NoDigRuntimeVanityTax,
    low: NoDigRuntimeLowPriorityTax,
    boss: NoDigBossVanityTax,
    discord_id: i64,
    guild_id: i64,
    profit: i64,
    quotes: (i64, i64, i64),
)
    requires
        call_ensures(
            <NoDigRuntimeVanityTax as DigRuntimeVanityTaxPort>::calculate_tax,
            (&vanity, discord_id, guild_id, profit),
            quotes.0,
        ),
        call_ensures(
            <NoDigRuntimeLowPriorityTax as DigRuntimeLowPriorityTaxPort>::calculate_tax,
            (&low, discord_id, guild_id, profit),
            quotes.1,
        ),
        call_ensures(
            <NoDigBossVanityTax as DigBossVanityTaxPort>::calculate_tax,
            (&boss, discord_id, guild_id, profit),
            quotes.2,
        ),
    ensures
        quotes.0 == 0 && quotes.1 == 0 && quotes.2 == 0,
{
}

/// A status that an action cannot have is named with the action.
pub proof fn law_unexpected_status_is_named(
    context: &str,
    status: DigMinerMutationStatus,
    error: DigMinerRuntimeError,
    made: Result<(), DigMinerRuntimeError>,
)
    requires
        call_ensures(unexpected_status, (context, status), error),
        call_ensures(creation_answer, (status,), made),
    ensures
        status is Locked ==> error@ == MinerErrorView::InvalidState(
            "unexpected "@ + context@ + " status "@ + "Locked"@,
        ),
        status is Conflict ==> error@ == MinerErrorView::InvalidState(
            "unexpected "@ + context@ + " status "@ + "Conflict"@,
        ),
        status is Applied ==> error@ == MinerErrorView::InvalidState(
            "unexpected "@ + context@ + " status "@ + "Applied"@,
        ),
        status is MissingPlayer ==> error@ == MinerErrorView::InvalidState(
            "unexpected "@ + context@ + " status "@ + "MissingPlayer"@,
        ),
        status is InsufficientPoints ==> error@ == MinerErrorView::InvalidState(
            "unexpected "@ + context@ + " status "@ + "InsufficientPoints"@,
        ),
        status is NoAllocatedPoints ==> error@ == MinerErrorView::InvalidState(
            "unexpected "@ + context@ + " status "@ + "NoAllocatedPoints"@,
        ),
        status is InsufficientBalance ==> error@ == MinerErrorView::InvalidState(
            "unexpected "@ + context@ + " status "@ + "InsufficientBalance"@,
        ),
        status is Conflict ==> (made matches Err(told) && told@ == MinerErrorView::InvalidState(
            "unexpected "@ + "profile creation"@ + " status "@ + "Conflict"@,
        )),
{
}

/// Each status of a boss has its word.
pub proof fn law_statuses_have_words(status: BossStatus, name: &'static str)
    requires
        call_ensures(status_name, (status,), name),
    ensures
        status is Active ==> name@ == "active"@,
        status is PhaseOneDefeated ==> name@ == "phase1_defeated"@,
        status is PhaseTwoDefeated ==> name@ == "phase2_defeated"@,
        status is Defeated ==> name@ == "defeated"@,
{
}

/// A boss is beaten where an entry under its number says so, as a bare word or as its
/// status; what is no tree of entries has none.
pub proof fn law_beaten_bosses_are_listed(
    map: Map<Seq<char>, JsonView>,
    key: Seq<char>,
    boundary: i64,
    list: Seq<i64>,
)
    requires
        lists_defeated(list, Some(JsonView::Object(map))),
        map.dom().contains(key),
        i64_value(key) == Some(boundary),
    ensures
        map[key] == JsonView::Text("defeated"@) ==> list.contains(boundary),
        map[key].text_at("status"@) == Some("defeated"@) ==> list.contains(boundary),
        (forall|other: Seq<char>| #[trigger]
            map.dom().contains(other) && i64_value(other) == Some(boundary) ==> other == key)
            && map[key] != JsonView::Text("defeated"@) && map[key].text_at("status"@) != Some(
            "defeated"@,
        ) ==> !list.contains(boundary),
        !boss_defeated(None, boundary),
{
    let progress = Some(JsonView::Object(map));
    if map[key] == JsonView::Text("defeated"@) || map[key].text_at("status"@) == Some("defeated"@) {
        match progress {
            Some(JsonView::Object(entries)) => {
                assert(entries.dom().contains(key) && i64_value(key) == Some(boundary)
                    && marks_defeated(entries[key]));
            },
            _ => {},
        }
        assert(boss_defeated(progress, boundary));
    }
    if list.contains(boundary) {
        assert(boss_defeated(progress, boundary));
        match progress {
            Some(JsonView::Object(entries)) => {
                let found = choose|found: Seq<char>| #[trigger]
                    entries.dom().contains(found) && i64_value(found) == Some(boundary)
                        && marks_defeated(entries[found]);
                assert(map.dom().contains(found));
            },
            _ => {},
        }
    }
}

/// A command of its own uses up no items and no claims, moves nobody and taxes nothing.
pub proof fn law_command_only_stores(
    snapshot: SnapshotView,
    next: SnapshotView,
    jc_delta: i64,
    action_type: Seq<char>,
    detail: Seq<char>,
    now: i64,
)
    ensures
        ({
            let stored = still_commit(snapshot, next, jc_delta, action_type, detail, now);
            &&& stored.expected == crate::version::version_of(snapshot) && stored.next == next
            &&& stored.consumed_item_ids.len() == 0 && stored.pet_work_claim is None
            &&& !stored.consume_overgrowth && stored.depth_before == stored.depth_after
            &&& stored.jc_delta == jc_delta && stored.vanity_tax == 0
            &&& stored.low_priority_tax == 0 && stored.balance_cost == 0
            &&& stored.action_type == action_type && stored.detail == detail && stored.now == now
            &&& snapshot.tunnel matches Some(tunnel) ==> stored.depth_before == tunnel.depth
        }),
{
}

/// Help is told with the depth that it reached; without a tunnel there is none.
pub proof fn law_help_is_told(
    depth: i64,
    max_depth: i64,
    target_id: i64,
    plan: HelpPlan,
    none: HelpPlan,
)
    requires
        call_ensures(plan_help, (Some((depth, max_depth)), target_id), plan),
        call_ensures(plan_help, (None::<(i64, i64)>, target_id), none),
        depth < i64::MAX,
    ensures
        none.depths is None && none.message@ == "That miner has not started a tunnel yet."@,
        plan.message@ == "You steadied <@"@ + int_text(target_id as int)
            + ">'s tunnel and helped them reach depth **"@ + int_text(depth + 1) + "**."@,
{
}

/// What a reset costs is told before and after.
pub proof fn law_reset_price_is_told(
    emote: &str,
    balance: i64,
    before: String,
    after: String,
    unregistered: RespecPlan,
)
    requires
        call_ensures(respec_price_message, (emote, balance), before),
        call_ensures(respec_done_message, (emote,), after),
        call_ensures(plan_respec, (None::<i64>, None::<(i64, i64, i64)>, emote), unregistered),
    ensures
        before@ == "Respec costs "@ + int_text(50) + " "@ + emote@ + "; your balance is "@
            + int_text(balance as int) + "."@,
        after@ == "Respec complete. Spent "@ + int_text(50) + " "@ + emote@ + "."@,
        unregistered matches RespecPlan::Answer(message) && message@
            == "You must be registered first."@,
{
}

/// A piece of gear that dropped is told with its slot, tier and name; one that could not
/// be given is a warning.
pub proof fn law_dropped_gear_is_told(spoils: SpoilsView, grant: GearGrant)
    ensures
        match grant.answer {
            Ok(gear_id) => {
                &&& with_gear(spoils, grant).warnings == spoils.warnings
                &&& with_gear(spoils, grant).gear_drop matches Some(drop)
                &&& drop.gear_id == gear_id && drop.slot == grant.slot
                &&& drop.tier == grant.tier && drop.name == grant.name@
            },
            Err(error) => {
                &&& with_gear(spoils, grant).warnings == spoils.warnings.push(
                    "boss gear drop failed: "@ + error@,
                )
                &&& with_gear(spoils, grant).gear_drop == spoils.gear_drop
            },
        },
{
}

/// A curse that leaves nothing to write leaves no column.
pub proof fn law_empty_curse_is_not_written(column: Option<Seq<char>>, curse: CurseView)
    ensures
        written_curse(column, curse) is None <==> with_curse(column_object(column), curse)
            == object(),
        written_curse(column, curse) matches Some(text) ==> text == text_of_json(
            with_curse(column_object(column), curse),
        ),
{
}

/// A plain result brings no news.
pub proof fn law_plain_result_brings_no_news(
    outcome: u8,
    action_id: Option<i64>,
    warnings: Vec<String>,
    result: DigBossRuntimeResult<u8>,
)
    requires
        call_ensures(DigBossRuntimeResult::<u8>::plain, (outcome, action_id, warnings), result),
    ensures
        result.outcome == outcome && result.action_id == action_id,
        result.warnings == warnings && result.notices@.len() == 0,
{
}

/// An end too deep to be told names the depth.
pub proof fn law_untold_depth_is_named(
    input: &PinnacleSettlementInput,
    settled: &PinnacleSettlement,
    roll: &PinnacleRoll,
    boss_name: &str,
    phase_title: &str,
    told: Result<DigPinnacleResolved, DigBossRuntimeError>,
)
    requires
        call_ensures(tell_pinnacle, (input, settled, roll, boss_name, phase_title), told),
    ensures
        told matches Err(error) ==> error@ == BossErrorView::Infrastructure(
            "boss tunnel "@ + "depth"@ + " is outside i32 range"@,
        ),
{
}

/// What a miner's action cannot come to is named with the action; a profile needs a
/// tunnel.
pub proof fn law_miner_actions_are_named(
    snapshot: &DigMinerSnapshot,
    requested: i64,
    profile: Result<DigMinerProfile, DigMinerRuntimeError>,
    story: Result<DigMinerProfile, DigMinerRuntimeError>,
    points: Result<DigMinerProfile, DigMinerRuntimeError>,
    switches: Result<DigMinerProfile, DigMinerRuntimeError>,
    few: Result<DigMinerProfile, DigMinerRuntimeError>,
)
    requires
        call_ensures(profile_from_snapshot, (snapshot,), profile),
        call_ensures(
            backstory_answer,
            (DigMinerMutationStatus::NoAllocatedPoints, snapshot),
            story,
        ),
        call_ensures(
            allocation_answer,
            (DigMinerMutationStatus::Locked, snapshot, requested),
            points,
        ),
        call_ensures(auto_buy_answer, (DigMinerMutationStatus::Locked, snapshot), switches),
        call_ensures(
            allocation_answer,
            (DigMinerMutationStatus::InsufficientPoints, snapshot, requested),
            few,
        ),
        snapshot@.tunnel is None,
    ensures
        profile matches Err(error) && error@ == MinerErrorView::InvalidState(
            "missing profile tunnel"@,
        ),
        story matches Err(error) && error@ == MinerErrorView::InvalidState(
            "unexpected "@ + "backstory"@ + " status "@ + "NoAllocatedPoints"@,
        ),
        points matches Err(error) && error@ == MinerErrorView::InvalidState(
            "unexpected "@ + "stat allocation"@ + " status "@ + "Locked"@,
        ),
        switches matches Err(error) && error@ == MinerErrorView::InvalidState(
            "unexpected "@ + "auto-buy"@ + " status "@ + "Locked"@,
        ),
        few matches Err(error) && error@ == (MinerErrorView::InsufficientPoints {
            requested,
            available: 0,
        }),
{
}

/// A reset needs the number of its action, and a tunnel to show.
pub proof fn law_reset_needs_its_action(
    snapshot: &DigMinerSnapshot,
    returned: i64,
    unnumbered: Result<DigMinerRespecResult, DigMinerRuntimeError>,
    locked: Result<DigMinerRespecResult, DigMinerRuntimeError>,
)
    requires
        call_ensures(
            respec_answer,
            (DigMinerMutationStatus::Applied, snapshot, returned, None::<i64>),
            unnumbered,
        ),
        call_ensures(
            respec_answer,
            (DigMinerMutationStatus::Locked, snapshot, returned, None::<i64>),
            locked,
        ),
    ensures
        snapshot@.tunnel is Some ==> (unnumbered matches Err(error) && error@
            == MinerErrorView::InvalidState("missing respec action id"@)),
        snapshot@.tunnel is None ==> (unnumbered matches Err(error) && error@
            == MinerErrorView::InvalidState("missing profile tunnel"@)),
        locked matches Err(error) && error@ == MinerErrorView::InvalidState(
            "unexpected "@ + "respec"@ + " status "@ + "Locked"@,
        ),
{
}

/// A row is read back where its mechanic is known, its risk has a word, and its numbers
/// fit; otherwise the first trouble is named.
pub proof fn law_broken_row_is_named(row: DuelRowView)
    ensures
        row_obstacle(row, false) == Some("paused duel has unknown mechanic "@ + row.mechanic_id),
        ({
            let narrow = i32::MIN <= row.player_hp <= i32::MAX && i32::MIN <= row.boss_hp
                <= i32::MAX && i32::MIN <= row.player_damage <= i32::MAX && i32::MIN <= row.boss_damage
                <= i32::MAX && i32::MIN <= row.critical_bonus <= i32::MAX;
            let bounded = i32::MIN <= row.boundary <= i32::MAX;
            &&& row_obstacle(row, true) is None <==> bounded && narrow && 0 <= row.round_num <= 255
                && risk_of_word(row.risk_tier) is Some
            &&& !bounded ==> row_obstacle(row, true) == Some(
                "boss tunnel "@ + "duel boundary"@ + " is outside i32 range"@,
            )
            &&& bounded && risk_of_word(row.risk_tier) is None ==> row_obstacle(row, true) == Some(
                "paused duel has invalid risk tier "@ + row.risk_tier,
            )
        }),
{
}

/// A record keeps the progress of its fight in the column that it had, under the names
/// that were there.
pub proof fn law_record_merges_its_progress(record: BossRecordView, tunnel: FightView)
    ensures
        record_of(record, tunnel).boss_progress_json == Some(
            text_of_json(
                merged_progress(column_object(record.boss_progress_json), tunnel.boss_progress),
            ),
        ),
        record_of(record, tunnel).stinger_curse_json == written_curse(
            record.stinger_curse_json,
            tunnel.stinger_curse,
        ),
{
}

/// The audit of a chosen route names it.
pub proof fn law_chosen_route_is_audited(
    snapshot: &DigRuntimeSnapshot,
    choice: RouteChoice,
    route_id: &str,
    now: i64,
    plan: ActionPlan,
)
    requires
        call_ensures(plan_route_choice, (snapshot, choice, route_id, now), plan),
    ensures
        plan matches ActionPlan::Commit(commit) ==> exists|tree: JsonView|
            commit@.detail == #[trigger] text_of_json(tree) && tree.text_at("route_id"@) == Some(
                route_id@,
            ),
        choice matches RouteChoice::Rejected(message) ==> snapshot@.tunnel is Some ==> (
        plan matches ActionPlan::Answer(told) && told@.error == Some(message@)),
{
    let tree = object().with("route_id"@, JsonView::Text(route_id@));
    assert(tree.text_at("route_id"@) == Some(route_id@));
    if let ActionPlan::Commit(commit) = plan {
        assert(commit@.detail == text_of_json(tree));
    }
}

/// A preparation without a word for its kind does not stand ready.
pub proof fn law_nameless_preparation_is_not_ready(
    tree: JsonView,
    entry: JsonView,
    prep: JsonView,
    boundary: i32,
)
    requires
        tree.get(int_text(boundary as int)) == Some(entry),
        entry.get("active_prep"@) == Some(prep),
        prep.text_at("item_type"@) is None,
    ensures
        !stands_ready(tree, boundary),
{
}

/// Without a tunnel nothing is bought automatically, and the digger is told so.
pub proof fn law_automatic_purchase_needs_a_tunnel(
    catalogue: Seq<ConsumableDefinition>,
    outcome: AutoBuyOutcomeView,
)
    requires
        outcome.status is SkippedMissingTunnel,
    ensures
        auto_buy_told(catalogue, outcome).error == Some("You don't have a tunnel. Dig first!"@),
{
}

/// A tunnel is fought for where its numbers fit and its progress can be read; broken
/// progress is complained of.
pub proof fn law_broken_tunnel_is_named(record: BossRecordView)
    ensures
        tunnel_obstacle(record) is None <==> i32::MIN <= record.depth <= i32::MAX && i32::MIN
            <= record.max_depth <= i32::MAX && i32::MIN <= record.prestige_level <= i32::MAX
            && i32::MIN <= record.boss_attempts <= i32::MAX && i32::MIN <= record.luminosity
            <= i32::MAX && progress_column(record.boss_progress_json) is Some,
        i32::MIN <= record.depth <= i32::MAX && i32::MIN <= record.max_depth <= i32::MAX && i32::MIN
            <= record.prestige_level <= i32::MAX ==> (record.boss_progress_json matches Some(text)
            ==> progress_column(Some(text)) is None ==> tunnel_obstacle(record) == Some(
            progress_complaint(text),
        )),
{
}

/// A cache knows the latest record of a player, and no other.
pub proof fn law_cache_knows_the_latest(
    cache: CacheView,
    key: PlayerKey,
    loaded: LoadedView,
    other: LoadedView,
    revision: u64,
)
    ensures
        !cache.latest.dom().contains(key) ==> !cache.knows(key, loaded),
        cache.latest.dom().contains(key) && cache.latest[key] == (loaded, revision) ==> {
            &&& cache.knows(key, loaded) && cache.revision_for(key, loaded) == revision
            &&& cache.remembering(key, loaded) == cache
            &&& other != loaded ==> !cache.knows(key, other)
        },
{
}

/// A question needs its mechanic, its title, its description and its options.
pub proof fn law_question_needs_its_parts(tree: JsonView)
    ensures
        tree.text_at("mechanic_id"@) is None ==> prompt_of(tree) is None,
        tree.get("title"@) is None && tree.get("prompt_title"@) is None ==> prompt_of(tree) is None,
        tree.get("description"@) is None && tree.get("prompt_description"@) is None ==> prompt_of(
            tree,
        ) is None,
        tree.get("options"@) is None ==> prompt_of(tree) is None,
{
}

/// An attempt that fits its record is settled where the entry of its boss can be
/// written.
pub proof fn law_settlement_needs_an_entry(
    record: BossRecordView,
    input: PinnacleInputView,
    depth: i32,
    roll: RollView,
    now: i64,
)
    requires
        same_pinnacle(record, input),
    ensures
        ({
            let progress = settled_progress(
                column_object(record.boss_progress_json),
                input,
                depth,
                roll,
                now,
            );
            &&& progress is None ==> settle_obstacle(record, input, depth, roll, now) == Some(
                BossErrorView::InvalidPinnacle("pinnacle progress entry is not an object"@),
            )
            &&& progress is Some && !(input.won && input.phase == 3) && 1 <= input.phase <= 3
                ==> settle_obstacle(record, input, depth, roll, now) is None
        }),
{
}

} // verus!
