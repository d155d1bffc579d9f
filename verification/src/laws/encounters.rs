//! Laws on meeting bosses, leaving them, cheering, and what the progress says.

use crate::boss_error::{BossErrorView, DigBossRuntimeError};
use crate::boss_store::BossRecordView;
use crate::encounter::{
    cheer_tree, engaged_text, fled_progress, fled_record, met_entry, met_key, met_phase, pick_line,
    plan_cheer, retreat_detail, shown_encounter, slot_of, DialogueSlot, EncounterSource,
};
use crate::json::{object, JsonView};
use crate::pinnacle::phase_key;
use crate::progress::{
    entry_of, parse_status, progress_of, status_at, BossStatus, EntryView, ProgressView,
};
use crate::text::{int_text, str_view};
use vstd::prelude::*;

verus! {

/// A regular boss is met in the phase after the last one that was beaten, the
/// pinnacle in the phase that the record says, from the first to the third.
pub proof fn law_boss_is_met_in_its_phase(
    record: BossRecordView,
    progress: Map<Seq<char>, ProgressView>,
    boundary: Seq<char>,
)
    ensures
        !progress.dom().contains(boundary) ==> met_phase(false, record, progress, boundary) == 1,
        progress.dom().contains(boundary) ==> {
            let phase = met_phase(false, record, progress, boundary);
            match progress[boundary].status() {
                BossStatus::Active => phase == 1,
                BossStatus::PhaseOneDefeated => phase == 2,
                BossStatus::PhaseTwoDefeated => phase == 3,
                BossStatus::Defeated => phase == 1,
            }
        },
        1 <= record.pinnacle_phase <= 3 ==> met_phase(true, record, progress, boundary)
            == record.pinnacle_phase,
        record.pinnacle_phase < 1 ==> met_phase(true, record, progress, boundary) == 1,
        record.pinnacle_phase > 3 ==> met_phase(true, record, progress, boundary) == 3,
{
}

/// An encounter is told apart by when it was last engaged, under the phase at the
/// pinnacle and under the boundary elsewhere.
pub proof fn law_encounter_is_told_by_its_last_fight(
    progress: JsonView,
    boundary: i64,
    depth: i32,
    phase: u8,
    key: Seq<char>,
    entry: JsonView,
    at: i64,
)
    requires
        progress.get(key) == Some(entry),
        entry.int_at("last_engaged_at"@) == Some(at),
    ensures
        engaged_text(progress, key) == int_text(at as int),
        met_key(true, boundary, depth, phase) == phase_key(depth, phase),
        met_key(false, boundary, depth, phase) == int_text(boundary as int),
{
}

/// An encounter shows its boss, its phase, what was carried, whether a lantern can
/// scout it and the light, between nothing and a hundred. Only a regular boss can
/// refuse wagers.
pub proof fn law_encounter_is_shown(source: EncounterSource, record: BossRecordView)
    ensures
        ({
            let shown = shown_encounter(source, record);
            &&& shown.boundary == source.boundary && shown.boss_id == source.boss_id@
            &&& shown.boss_name == source.boss_name@ && shown.dialogue == source.dialogue@
            &&& shown.is_pinnacle == source.is_pinnacle && shown.phase == source.phase
            &&& shown.encounter_key == source.encounter_key@
            &&& source.is_pinnacle ==> shown.wager_allowed
            &&& !source.is_pinnacle ==> shown.wager_allowed == source.regular_wager
            &&& source.carried is None ==> shown.carried_wager is None && shown.carried_risk_tier
                is None
            &&& source.carried matches Some(carried) ==> shown.carried_wager == Some(carried.wager)
                && shown.carried_risk_tier == Some(carried.risk_tier)
            &&& shown.has_scout_lantern <==> source.has_great_lantern || source.lanterns > 0
            &&& 0 <= record.luminosity <= 100 ==> shown.luminosity == record.luminosity
            &&& record.luminosity < 0 ==> shown.luminosity == 0
            &&& record.luminosity > 100 ==> shown.luminosity == 100
        }),
{
}

proof fn lemma_outcome_words()
    ensures
        "defeated"@.len() == 8,
        "retreat"@.len() == 7,
        "close_win"@.len() == 9,
        "scout"@.len() == 5,
{
    reveal_strlit("defeated");
    reveal_strlit("retreat");
    reveal_strlit("close_win");
    reveal_strlit("scout");
}

/// A boss speaks as it was last left: as on a first meeting where it was not met,
/// and else after its defeat, a retreat, a close win or a scouting. In a later phase
/// a regular boss speaks for the phase.
pub proof fn law_boss_speaks_as_it_was_left(phase: u8, entry: EntryView)
    ensures
        phase > 1 ==> slot_of(false, phase, Some(entry)) == DialogueSlot::Phase,
        slot_of(true, phase, None) == DialogueSlot::FirstMeet,
        !entry.first_meet_seen ==> slot_of(true, phase, Some(entry)) == DialogueSlot::FirstMeet,
        entry.first_meet_seen ==> {
            let slot = slot_of(true, phase, Some(entry));
            &&& slot == slot_of(false, 1, Some(entry))
            &&& entry.last_outcome == Some("defeated"@) ==> slot == DialogueSlot::AfterDefeat
            &&& entry.last_outcome == Some("retreat"@) ==> slot == DialogueSlot::AfterRetreat
            &&& entry.last_outcome == Some("close_win"@) ==> slot == DialogueSlot::AfterCloseWin
            &&& entry.last_outcome == Some("scout"@) ==> slot == DialogueSlot::AfterScout
            &&& entry.last_outcome is None ==> slot == DialogueSlot::FirstMeet
        },
{
    lemma_outcome_words();
}

/// A rolled line is spoken, the last one where the roll went beyond, and a boss
/// without lines has one of its own.
pub proof fn law_rolled_line_is_spoken(lines: &Vec<String>, rolled: usize, line: String)
    requires
        call_ensures(pick_line, (lines, rolled), line),
    ensures
        rolled < lines@.len() ==> line@ == lines@[rolled as int]@,
        0 < lines@.len() <= rolled ==> line@ == lines@[lines@.len() - 1]@,
        lines@.len() == 0 ==> line@ == "A fearsome guardian blocks your path!"@,
{
}

proof fn lemma_meeting_words()
    ensures
        "first_meet_seen"@.len() == 15,
        "status"@.len() == 6,
        "boss_id"@.len() == 7,
        "last_outcome"@.len() == 12,
        "carried_wager"@.len() == 13,
        "carried_risk_tier"@.len() == 17,
{
    reveal_strlit("first_meet_seen");
    reveal_strlit("status");
    reveal_strlit("boss_id");
    reveal_strlit("last_outcome");
    reveal_strlit("carried_wager");
    reveal_strlit("carried_risk_tier");
}

/// Meeting a boss marks it as met by name and leaves its status, active where it
/// had none, and every other field.
pub proof fn law_meeting_marks_the_boss(entry: JsonView, boss_id: Seq<char>, field: Seq<char>)
    requires
        entry is Object,
        field != "first_meet_seen"@,
        field != "status"@,
        field != "boss_id"@,
    ensures
        ({
            let met = met_entry(entry, boss_id);
            &&& met.bool_at("first_meet_seen"@) == Some(true)
            &&& met.text_at("boss_id"@) == Some(boss_id)
            &&& entry.get("status"@) is None ==> met.text_at("status"@) == Some("active"@)
            &&& entry.get("status"@) is Some ==> met.get("status"@) == entry.get("status"@)
            &&& met.get(field) == entry.get(field)
        }),
{
    lemma_meeting_words();
}

/// A retreat is remembered, drops what was carried, and leaves the boss as it was.
pub proof fn law_retreat_is_remembered(
    progress: JsonView,
    boundary: Seq<char>,
    entry: JsonView,
    field: Seq<char>,
)
    requires
        progress is Object,
        progress.get(boundary) == Some(entry),
        entry is Object,
        field != "last_outcome"@,
        field != "first_meet_seen"@,
        field != "carried_wager"@,
        field != "carried_risk_tier"@,
    ensures
        fled_progress(progress, boundary).get(boundary) matches Some(left) && {
            &&& left.text_at("last_outcome"@) == Some("retreat"@)
            &&& left.bool_at("first_meet_seen"@) == Some(true)
            &&& left.get("carried_wager"@) is None && left.get("carried_risk_tier"@) is None
            &&& left.get(field) == entry.get(field)
        },
{
    lemma_meeting_words();
}

/// A retreat costs two or three blocks and half of what was carried, as far as the
/// wallet goes; nothing else of the record changes.
pub proof fn law_retreat_costs_blocks_and_half_the_wager(
    record: BossRecordView,
    boundary: i64,
    carried: Option<i64>,
    rolled: i32,
)
    requires
        0 <= record.depth <= 1_000_000,
        0 <= record.balance,
        carried matches Some(wager) ==> 0 <= wager,
    ensures
        ({
            let left = fled_record(record, boundary, carried, rolled);
            let blocks = if rolled <= 2 {
                2int
            } else {
                3
            };
            &&& record.depth >= blocks ==> left.depth == record.depth - blocks
            &&& record.depth < blocks ==> left.depth == 0
            &&& carried is None ==> left.balance == record.balance
            &&& carried matches Some(wager) ==> {
                &&& wager / 2 <= record.balance ==> left.balance == record.balance - wager / 2
                &&& wager / 2 > record.balance ==> left.balance == 0
            }
            &&& record == (BossRecordView {
                depth: record.depth,
                balance: record.balance,
                boss_progress_json: record.boss_progress_json,
                ..left
            })
        }),
{
}

proof fn lemma_retreat_words()
    ensures
        "boundary"@.len() == 8,
        "loss"@.len() == 4,
        "carried_wager_forfeit"@.len() == 21,
{
    reveal_strlit("boundary");
    reveal_strlit("loss");
    reveal_strlit("carried_wager_forfeit");
}

/// The audit of a retreat tells where, how many blocks and how much.
pub proof fn law_retreat_is_audited(boundary: i64, loss: i32, forfeit: i64)
    ensures
        retreat_detail(boundary, loss, forfeit).int_at("boundary"@) == Some(boundary),
        retreat_detail(boundary, loss, forfeit).int_at("loss"@) == Some(loss as i64),
        retreat_detail(boundary, loss, forfeit).int_at("carried_wager_forfeit"@) == Some(forfeit),
{
    lemma_retreat_words();
}

/// Nobody cheers for themselves or away from a boss, within 45 seconds of their
/// last cheer, or as a fourth; everybody else may. A cheer lasts an hour.
pub proof fn law_who_may_cheer(
    cheerer: i64,
    target: i64,
    at_boss: bool,
    last: Option<i64>,
    column: Option<&str>,
    now: i64,
    plan: Result<String, DigBossRuntimeError>,
)
    requires
        call_ensures(plan_cheer, (cheerer, target, at_boss, last, column, now), plan),
        0 <= now <= 1_000_000_000_000,
        last matches Some(last) ==> 0 <= last <= 1_000_000_000_000,
    ensures
        ({
            let counting = crate::combat::active_cheers(str_view(column), now).len();
            let rested = match last {
                Some(last) => now - last >= 45,
                None => true,
            };
            &&& plan is Ok <==> cheerer != target && at_boss && rested && counting < 3
            &&& plan matches Err(error) ==> {
                &&& cheerer == target ==> error@ == BossErrorView::SelfCheer
                &&& cheerer != target && !at_boss ==> error@ == BossErrorView::CheerTargetNotAtBoss
                &&& cheerer != target && at_boss && !rested ==> (error@ matches
                    BossErrorView::CheerCooldown { remaining_seconds }
                    && remaining_seconds == 45 - (now - last->0))
                &&& cheerer != target && at_boss && rested ==> error@ == BossErrorView::CheerFull
            }
        }),
        cheer_tree(cheerer, now).int_at("cheerer_id"@) == Some(cheerer),
        cheer_tree(cheerer, now).int_at("expires_at"@) == Some((now + 3_600) as i64),
{
    reveal_strlit("cheerer_id");
    reveal_strlit("expires_at");
    assert("cheerer_id"@[0] != "expires_at"@[0]);
}

proof fn lemma_status_words()
    ensures
        "active"@.len() == 6,
        "phase1_defeated"@.len() == 15,
        "phase2_defeated"@.len() == 15,
        "defeated"@.len() == 8,
        "phase1_defeated"@[5] != "phase2_defeated"@[5],
{
    reveal_strlit("active");
    reveal_strlit("phase1_defeated");
    reveal_strlit("phase2_defeated");
    reveal_strlit("defeated");
}

/// The words for how far a boss is beaten; any other word means not at all.
pub proof fn law_status_by_word(word: &str, read: BossStatus)
    requires
        call_ensures(parse_status, (word,), read),
    ensures
        read == BossStatus::PhaseOneDefeated <==> word@ == "phase1_defeated"@,
        read == BossStatus::PhaseTwoDefeated <==> word@ == "phase2_defeated"@,
        read == BossStatus::Defeated <==> word@ == "defeated"@,
        word@ == "active"@ ==> read == BossStatus::Active,
{
    lemma_status_words();
}

/// An entry of the progress is read field by field under its own names.
pub proof fn law_entry_by_name(tree: JsonView)
    ensures
        ({
            let read = entry_of(tree);
            &&& tree.text_at("status"@) is None ==> read.status == BossStatus::Active
            &&& tree.text_at("status"@) == Some("defeated"@) ==> read.status == BossStatus::Defeated
            &&& tree.text_at("status"@) == Some("phase1_defeated"@) ==> read.status
                == BossStatus::PhaseOneDefeated
            &&& tree.text_at("status"@) == Some("phase2_defeated"@) ==> read.status
                == BossStatus::PhaseTwoDefeated
            &&& tree.text_at("boss_id"@) matches Some(id) ==> id.len() > 0 ==> read.boss_id == Some(
                id,
            )
            &&& tree.int_at("hp_remaining"@) matches Some(hp) ==> i32::MIN <= hp <= i32::MAX ==> (
            read.hp_remaining matches Some(kept) && kept == hp)
            &&& tree.int_at("hp_max"@) matches Some(hp) ==> i32::MIN <= hp <= i32::MAX ==> (
            read.hp_max matches Some(kept) && kept == hp)
            &&& read.last_engaged_at == tree.int_at("last_engaged_at"@)
            &&& read.last_outcome == tree.text_at("last_outcome"@)
            &&& read.first_meet_seen <==> tree.bool_at("first_meet_seen"@) == Some(true)
            &&& read.pending_phase_event_id == tree.text_at("pending_phase_event_id"@)
        }),
{
    lemma_status_words();
}

/// A bare word and an entry with that status say the same; what is neither says
/// that the boss stands.
pub proof fn law_bare_status_counts(word: Seq<char>, number: i64)
    ensures
        progress_of(JsonView::Text(word)).status() == progress_of(
            object().with("status"@, JsonView::Text(word)),
        ).status(),
        progress_of(JsonView::Int(number)).status() == BossStatus::Active,
        progress_of(JsonView::Null).status() == BossStatus::Active,
{
}

/// The status at a boundary is that of its entry, and a boss without one stands.
pub proof fn law_status_at_a_boundary(
    progress: Map<Seq<char>, ProgressView>,
    boundary: i32,
    value: ProgressView,
)
    ensures
        status_at(progress.insert(int_text(boundary as int), value), boundary) == value.status(),
        !progress.dom().contains(int_text(boundary as int)) ==> status_at(progress, boundary)
            == BossStatus::Active,
{
}

} // verus!
