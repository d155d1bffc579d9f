//! Meeting a boss, leaving it, and cheering for somebody who stands before one.

use crate::arith::{
    clamp_to, larger, max_of, min_of, nearest, sat_add, sat_sub, smaller, toward_zero, within,
};
use crate::boss_error::{BossErrorView, BossServiceError, BossServiceErrorView, DigBossRuntimeError};
use crate::boss_store::{BossRecordView, DigBossRuntimeSnapshot};
use crate::boss_tunnel::{fits, narrow_i32, out_of_range};
use crate::combat::{
    active_cheers, cheer_counts, counting_cheers, lemma_counting_again, lemma_counting_agrees,
    lemma_counting_push, listed_cheers, parse_active_cheers,
};
use crate::duel::RiskTier;
use crate::json::{
    column_object, json_of_text, lemma_agrees_at, lemma_edits_nest, object, read_object, reads_back,
    render_json, text_of_json, Json, JsonView,
};
use crate::pinnacle::{phase_key, phase_of, pinnacle_phase, pinnacle_phase_key};
use crate::progress::{
    law_progress_ignores_fractions, law_status_reads_back, progress_tree, BossProgress,
    BossProgressValue, BossStatus, EntryView, ProgressView,
};
use crate::text::{borrow_text, int_text, integer_text, same_text, str_view, text_is, text_view};
use vstd::prelude::*;

verus! {

/// The phase that a boss is met in.
pub open spec fn met_phase(
    is_pinnacle: bool,
    record: BossRecordView,
    progress: Map<Seq<char>, ProgressView>,
    boundary: Seq<char>,
) -> u8 {
    if is_pinnacle {
        phase_of(record)
    } else if progress.dom().contains(boundary) {
        match progress[boundary].status() {
            BossStatus::PhaseOneDefeated => 2,
            BossStatus::PhaseTwoDefeated => 3,
            _ => 1,
        }
    } else {
        1
    }
}

/// Tells the phase that a boss is met in.
pub fn encounter_phase(
    is_pinnacle: bool,
    record: &DigBossRuntimeSnapshot,
    progress: &BossProgress,
    boundary: i64,
) -> (phase: u8)
    ensures
        phase == met_phase(is_pinnacle, record@, progress@, int_text(boundary as int)),
        1 <= phase <= 3,
{
    if is_pinnacle {
        return pinnacle_phase(record);
    }
    let key = integer_text(boundary);
    match progress.get(key.as_str()) {
        Some(value) => match value.status() {
            BossStatus::PhaseOneDefeated => 2,
            BossStatus::PhaseTwoDefeated => 3,
            _ => 1,
        },
        None => 1,
    }
}

/// When the boss that is met was last fought, as a text.
pub open spec fn engaged_text(progress: JsonView, key: Seq<char>) -> Seq<char> {
    match progress.get(key) {
        Some(entry) => match entry.int_at("last_engaged_at"@) {
            Some(at) => int_text(at as int),
            None => Seq::empty(),
        },
        None => Seq::empty(),
    }
}

/// The field that the boss that is met is kept under.
pub open spec fn met_key(is_pinnacle: bool, boundary: i64, depth: i32, phase: u8) -> Seq<char> {
    if is_pinnacle {
        phase_key(depth, phase)
    } else {
        int_text(boundary as int)
    }
}

/// Names an encounter by when its boss was last fought.
pub fn encounter_key(
    column: Option<&str>,
    is_pinnacle: bool,
    boundary: i64,
    pinnacle_depth: i32,
    phase: u8,
) -> (name: String)
    ensures
        name@ == engaged_text(
            column_object(str_view(column)),
            met_key(is_pinnacle, boundary, pinnacle_depth, phase),
        ),
{
    let progress = read_object(column);
    let key = if is_pinnacle {
        pinnacle_phase_key(pinnacle_depth, phase)
    } else {
        integer_text(boundary)
    };
    let engaged = match progress.get(key.as_str()) {
        Some(entry) => entry.int_at("last_engaged_at"),
        None => None,
    };
    match engaged {
        Some(at) => integer_text(at),
        None => {
            proof {
                reveal_strlit("");
                assert(""@ =~= Seq::<char>::empty());
            }
            "".to_owned()
        },
    }
}

/// What is shown of the boss that blocks a tunnel.
#[derive(Debug, PartialEq, Eq)]
pub struct DigBossEncounterInfo {
    pub boundary: i32,
    pub boss_id: String,
    pub boss_name: String,
    pub dialogue: String,
    pub is_pinnacle: bool,
    pub phase: u8,
    pub wager_allowed: bool,
    pub carried_wager: Option<i64>,
    pub carried_risk_tier: Option<RiskTier>,
    pub has_scout_lantern: bool,
    pub luminosity: i64,
    pub encounter_key: String,
}

/// What a [`DigBossEncounterInfo`] holds.
#[verifier::ext_equal]
pub struct EncounterView {
    pub boundary: i32,
    pub boss_id: Seq<char>,
    pub boss_name: Seq<char>,
    pub dialogue: Seq<char>,
    pub is_pinnacle: bool,
    pub phase: u8,
    pub wager_allowed: bool,
    pub carried_wager: Option<i64>,
    pub carried_risk_tier: Option<RiskTier>,
    pub has_scout_lantern: bool,
    pub luminosity: i64,
    pub encounter_key: Seq<char>,
}

impl View for DigBossEncounterInfo {
    type V = EncounterView;

    open spec fn view(&self) -> EncounterView {
        EncounterView {
            boundary: self.boundary,
            boss_id: self.boss_id@,
            boss_name: self.boss_name@,
            dialogue: self.dialogue@,
            is_pinnacle: self.is_pinnacle,
            phase: self.phase,
            wager_allowed: self.wager_allowed,
            carried_wager: self.carried_wager,
            carried_risk_tier: self.carried_risk_tier,
            has_scout_lantern: self.has_scout_lantern,
            luminosity: self.luminosity,
            encounter_key: self.encounter_key@,
        }
    }
}

impl Clone for DigBossEncounterInfo {
    fn clone(&self) -> (copy: DigBossEncounterInfo)
        ensures
            copy == *self,
    {
        DigBossEncounterInfo {
            boundary: self.boundary,
            boss_id: self.boss_id.clone(),
            boss_name: self.boss_name.clone(),
            dialogue: self.dialogue.clone(),
            is_pinnacle: self.is_pinnacle,
            phase: self.phase,
            wager_allowed: self.wager_allowed,
            carried_wager: self.carried_wager,
            carried_risk_tier: self.carried_risk_tier,
            has_scout_lantern: self.has_scout_lantern,
            luminosity: self.luminosity,
            encounter_key: self.encounter_key.clone(),
        }
    }
}

/// A wager that is carried into the next phase.
#[derive(Clone, Copy, Debug, PartialEq, Eq, Structural)]
pub struct CarriedWager {
    pub wager: i64,
    pub risk_tier: RiskTier,
}

/// What an encounter is told from.
#[derive(Debug)]
pub struct EncounterSource {
    pub boundary: i32,
    pub boss_id: String,
    /// The title of the phase, or the name of the boss.
    pub boss_name: String,
    pub dialogue: String,
    pub is_pinnacle: bool,
    pub phase: u8,
    /// Whether the rules of regular bosses allow a wager.
    pub regular_wager: bool,
    pub carried: Option<CarriedWager>,
    pub lanterns: usize,
    pub has_great_lantern: bool,
    pub encounter_key: String,
}

/// What is shown of an encounter.
pub open spec fn shown_encounter(source: EncounterSource, record: BossRecordView) -> EncounterView {
    EncounterView {
        boundary: source.boundary,
        boss_id: source.boss_id@,
        boss_name: source.boss_name@,
        dialogue: source.dialogue@,
        is_pinnacle: source.is_pinnacle,
        phase: source.phase,
        wager_allowed: source.is_pinnacle || source.regular_wager,
        carried_wager: match source.carried {
            Some(carried) => Some(carried.wager),
            None => None,
        },
        carried_risk_tier: match source.carried {
            Some(carried) => Some(carried.risk_tier),
            None => None,
        },
        has_scout_lantern: source.has_great_lantern || source.lanterns > 0,
        luminosity: within(record.luminosity, 0, 100),
        encounter_key: source.encounter_key@,
    }
}

/// Shows an encounter. A regular boss is shown only where the prestige of the
/// record is in range.
pub fn show_encounter(source: EncounterSource, record: &DigBossRuntimeSnapshot) -> (shown: Result<
    DigBossEncounterInfo,
    DigBossRuntimeError,
>)
    ensures
        match shown {
            Ok(shown) => (source.is_pinnacle || fits(record@.prestige_level)) && shown@
                == shown_encounter(source, record@),
            Err(error) => !source.is_pinnacle && !fits(record@.prestige_level) && error@
                == BossErrorView::Infrastructure(out_of_range("prestige level"@)),
        },
{
    if !source.is_pinnacle {
        match narrow_i32(record.prestige_level, "prestige level") {
            Ok(_) => {},
            Err(message) => {
                return Err(DigBossRuntimeError::Infrastructure(message));
            },
        }
    }
    let (carried_wager, carried_risk_tier) = match source.carried {
        Some(carried) => (Some(carried.wager), Some(carried.risk_tier)),
        None => (None, None),
    };
    Ok(
        DigBossEncounterInfo {
            boundary: source.boundary,
            boss_id: source.boss_id,
            boss_name: source.boss_name,
            dialogue: source.dialogue,
            is_pinnacle: source.is_pinnacle,
            phase: source.phase,
            wager_allowed: source.is_pinnacle || source.regular_wager,
            carried_wager,
            carried_risk_tier,
            has_scout_lantern: source.has_great_lantern || source.lanterns > 0,
            luminosity: clamp_to(record.luminosity, 0, 100),
            encounter_key: source.encounter_key,
        },
    )
}

/// Which lines a boss speaks from.
#[derive(Clone, Copy, Debug, PartialEq, Eq, Structural)]
pub enum DialogueSlot {
    FirstMeet,
    AfterDefeat,
    AfterRetreat,
    AfterCloseWin,
    AfterScout,
    /// The lines of a later phase.
    Phase,
}

/// Which lines a boss speaks from: a regular boss in a later phase from those of
/// the phase, else by how the last meeting ended.
pub open spec fn slot_of(is_pinnacle: bool, phase: u8, entry: Option<EntryView>) -> DialogueSlot {
    if !is_pinnacle && phase > 1 {
        DialogueSlot::Phase
    } else {
        match entry {
            Some(entry) => if !entry.first_meet_seen {
                DialogueSlot::FirstMeet
            } else if entry.last_outcome == Some("defeated"@) {
                DialogueSlot::AfterDefeat
            } else if entry.last_outcome == Some("retreat"@) {
                DialogueSlot::AfterRetreat
            } else if entry.last_outcome == Some("close_win"@) {
                DialogueSlot::AfterCloseWin
            } else if entry.last_outcome == Some("scout"@) {
                DialogueSlot::AfterScout
            } else {
                DialogueSlot::FirstMeet
            },
            None => DialogueSlot::FirstMeet,
        }
    }
}

/// The entry that progress has at a boundary.
pub open spec fn entry_at(progress: Map<Seq<char>, ProgressView>, boundary: Seq<char>) -> Option<
    EntryView,
> {
    if progress.dom().contains(boundary) {
        match progress[boundary] {
            ProgressView::Entry(entry) => Some(entry),
            ProgressView::Legacy(_) => None,
        }
    } else {
        None
    }
}

/// Decides which lines a boss speaks from.
pub fn dialogue_slot(is_pinnacle: bool, phase: u8, progress: &BossProgress, boundary: i64) -> (slot:
    DialogueSlot)
    ensures
        slot == slot_of(is_pinnacle, phase, entry_at(progress@, int_text(boundary as int))),
{
    if !is_pinnacle && phase > 1 {
        return DialogueSlot::Phase;
    }
    let key = integer_text(boundary);
    match progress.get(key.as_str()) {
        Some(BossProgressValue::Entry(entry)) => {
            if !entry.first_meet_seen {
                DialogueSlot::FirstMeet
            } else if text_is(&entry.last_outcome, "defeated") {
                DialogueSlot::AfterDefeat
            } else if text_is(&entry.last_outcome, "retreat") {
                DialogueSlot::AfterRetreat
            } else if text_is(&entry.last_outcome, "close_win") {
                DialogueSlot::AfterCloseWin
            } else if text_is(&entry.last_outcome, "scout") {
                DialogueSlot::AfterScout
            } else {
                DialogueSlot::FirstMeet
            }
        },
        _ => DialogueSlot::FirstMeet,
    }
}

/// Picks a line. A roll past the last line picks the last; without lines a
/// guardian speaks for itself.
pub fn pick_line(lines: &Vec<String>, rolled: usize) -> (line: String)
    ensures
        line@ == (if lines.len() == 0 {
            "A fearsome guardian blocks your path!"@
        } else if rolled < lines.len() {
            lines@[rolled as int]@
        } else {
            lines@[lines.len() - 1]@
        }),
{
    if lines.len() == 0 {
        "A fearsome guardian blocks your path!".to_owned()
    } else if rolled < lines.len() {
        lines[rolled].clone()
    } else {
        lines[lines.len() - 1].clone()
    }
}

/// What stands at a boundary before it is marked as met: an entry, or a bare
/// status made one.
pub open spec fn entry_before(progress: JsonView, boundary: Seq<char>) -> JsonView {
    match progress.get(boundary) {
        Some(entry) => match entry {
            JsonView::Object(_) => entry,
            JsonView::Text(word) => object().with("status"@, JsonView::Text(word)),
            _ => object(),
        },
        None => object(),
    }
}

/// Whether a boss was met already.
pub open spec fn met_before(entry: JsonView, boss_id: Seq<char>) -> bool {
    entry.bool_at("first_meet_seen"@) == Some(true) && entry.text_at("boss_id"@) == Some(boss_id)
}

/// An entry of a boss that was met.
pub open spec fn met_entry(entry: JsonView, boss_id: Seq<char>) -> JsonView {
    let seen = entry.with("first_meet_seen"@, JsonView::Bool(true));
    let known = if seen.get("status"@) is Some {
        seen
    } else {
        seen.with("status"@, JsonView::Text("active"@))
    };
    known.with("boss_id"@, JsonView::Text(boss_id))
}

/// Progress in which a boss was met.
pub open spec fn met_progress(progress: JsonView, boundary: Seq<char>, boss_id: Seq<char>)
    -> JsonView {
    progress.with(boundary, met_entry(entry_before(progress, boundary), boss_id))
}

/// Plans to mark a boss as met. Where it was met already there is nothing to
/// write.
pub fn plan_encounter_seen(column: Option<&str>, boundary: i32, boss_id: &str) -> (plan: Option<
    String,
>)
    ensures
        is_meeting_plan(str_view(column), int_text(boundary as int), boss_id@, text_view(plan)),
{
    let mut progress = read_object(column);
    let key = integer_text(boundary as i64);
    proof {
        lemma_edits_nest(127);
        lemma_edits_nest(126);
    }
    let mut entry = match progress.get(key.as_str()) {
        Some(entry) => match entry {
            Json::Object(_) => entry.clone(),
            Json::Text(word) => {
                let mut made = Json::empty_object();
                made.set("status", Json::from_text(word.as_str()));
                made
            },
            _ => Json::empty_object(),
        },
        None => Json::empty_object(),
    };
    let seen = match entry.bool_at("first_meet_seen") {
        Some(flag) => flag,
        None => false,
    };
    let same = match entry.text_at("boss_id") {
        Some(text) => same_text(text, boss_id),
        None => false,
    };
    if seen && same {
        return None;
    }
    entry.set("first_meet_seen", Json::Bool(true));
    if entry.get("status").is_none() {
        entry.set("status", Json::from_text("active"));
    }
    entry.set("boss_id", Json::from_text(boss_id));
    progress.set(key.as_str(), entry);
    Some(render_json(progress))
}

/// The words that a meeting is kept under differ from each other.
proof fn lemma_meeting_words()
    ensures
        "first_meet_seen"@.len() == 15,
        "status"@.len() == 6,
        "boss_id"@.len() == 7,
        "last_engaged_at"@.len() == 15,
        "carried_wager"@.len() == 13,
        "carried_risk_tier"@.len() == 17,
        "first_meet_seen"@[0] != "last_engaged_at"@[0],
{
    reveal_strlit("first_meet_seen");
    reveal_strlit("status");
    reveal_strlit("boss_id");
    reveal_strlit("last_engaged_at");
    reveal_strlit("carried_wager");
    reveal_strlit("carried_risk_tier");
}

/// A boss that was marked as met is met: marking it again writes nothing.
pub proof fn law_meeting_is_marked_once(progress: JsonView, boundary: Seq<char>, boss_id: Seq<char>)
    requires
        progress is Object,
    ensures
        met_before(entry_before(met_progress(progress, boundary, boss_id), boundary), boss_id),
{
    lemma_meeting_words();
}

/// The status that progress has at a boundary, active where it has none.
pub open spec fn standing(progress: Map<Seq<char>, ProgressView>, boundary: Seq<char>) -> BossStatus {
    if progress.dom().contains(boundary) {
        progress[boundary].status()
    } else {
        BossStatus::Active
    }
}

/// The value that an entry keeps of a carried wager.
pub open spec fn carried_in(progress: JsonView, boundary: Seq<char>) -> (Option<i64>, Option<
    Seq<char>,
>) {
    match progress.get(boundary) {
        Some(entry) => (entry.int_at("carried_wager"@), entry.text_at("carried_risk_tier"@)),
        None => (None, None),
    }
}

/// The progress column after a meeting: what was planned to be written, or what
/// stood there.
pub open spec fn column_after(column: Option<Seq<char>>, plan: Option<Seq<char>>) -> Option<
    Seq<char>,
> {
    match plan {
        Some(text) => Some(text),
        None => column,
    }
}

/// What a plan to mark a boss as met is: nothing to write where it was met, else
/// a text that reads back as the progress in which it was.
pub open spec fn is_meeting_plan(
    column: Option<Seq<char>>,
    boundary: Seq<char>,
    boss_id: Seq<char>,
    plan: Option<Seq<char>>,
) -> bool {
    let progress = column_object(column);
    match plan {
        None => met_before(entry_before(progress, boundary), boss_id),
        Some(text) => !met_before(entry_before(progress, boundary), boss_id) && text
            == text_of_json(met_progress(progress, boundary, boss_id)) && reads_back(
            text,
            met_progress(progress, boundary, boss_id),
        ),
    }
}

/// Meeting a boss again shows what was shown before. Once the first meeting is
/// stored, every boundary has the status it had, so the same boundary blocks the
/// tunnel; the boss is met in the same phase, with the same carried wager and
/// under the same name of the encounter; the entry names the boss and says that
/// it was met, so nothing is stored again; and of the same source the same is
/// shown, with light from 0 to 100.
pub proof fn law_meeting_again_shows_the_same(
    record: BossRecordView,
    plan: Option<Seq<char>>,
    source: EncounterSource,
    boundary: i64,
    depth: i32,
    boss_id: Seq<char>,
    other: Seq<char>,
)
    requires
        is_meeting_plan(record.boss_progress_json, int_text(boundary as int), boss_id, plan),
    ensures
        ({
            let key = int_text(boundary as int);
            let again = BossRecordView {
                boss_progress_json: column_after(record.boss_progress_json, plan),
                ..record
            };
            let progress = column_object(record.boss_progress_json);
            let stored = column_object(again.boss_progress_json);
            let phase = met_phase(source.is_pinnacle, record, progress_tree(progress), key);
            let name = met_key(source.is_pinnacle, boundary, depth, phase);
            &&& standing(progress_tree(stored), other) == standing(progress_tree(progress), other)
            &&& met_phase(source.is_pinnacle, again, progress_tree(stored), key) == phase
            &&& carried_in(stored, other) == carried_in(progress, other)
            &&& engaged_text(stored, name) == engaged_text(progress, name)
            &&& met_before(entry_before(stored, key), boss_id)
            &&& shown_encounter(source, again) == shown_encounter(source, record)
            &&& 0 <= shown_encounter(source, record).luminosity <= 100
        }),
{
    let key = int_text(boundary as int);
    let progress = column_object(record.boss_progress_json);
    let again = BossRecordView {
        boss_progress_json: column_after(record.boss_progress_json, plan),
        ..record
    };
    let phase = met_phase(source.is_pinnacle, record, progress_tree(progress), key);
    let name = met_key(source.is_pinnacle, boundary, depth, phase);
    assert(shown_encounter(source, again) =~= shown_encounter(source, record));
    if let Some(text) = plan {
        let met = met_progress(progress, key, boss_id);
        let stored = json_of_text(text)->0;
        law_progress_ignores_fractions(stored, met, 127);
        lemma_met_keeps(progress, key, boss_id, other);
        lemma_met_keeps(progress, key, boss_id, key);
        lemma_met_keeps(progress, key, boss_id, name);
        lemma_stored_agrees(stored, met, other);
        lemma_stored_agrees(stored, met, name);
        lemma_stored_agrees(stored, met, key);
        lemma_meeting_words();
        lemma_agrees_at(stored, met, key, 127);
        let kept = stored.get(key)->0;
        lemma_agrees_at(kept, met.get(key)->0, "first_meet_seen"@, 126);
        lemma_agrees_at(kept, met.get(key)->0, "boss_id"@, 126);
        assert(column_object(again.boss_progress_json) == stored);
    }
}

/// Marking a boss as met keeps what stands at each boundary.
proof fn lemma_met_keeps(
    progress: JsonView,
    boundary: Seq<char>,
    boss_id: Seq<char>,
    other: Seq<char>,
)
    requires
        progress is Object,
    ensures
        ({
            let met = met_progress(progress, boundary, boss_id);
            &&& standing(progress_tree(met), other) == standing(
                progress_tree(progress),
                other,
            )
            &&& carried_in(met, other) == carried_in(progress, other)
            &&& engaged_text(met, other) == engaged_text(progress, other)
        }),
{
    lemma_meeting_words();
    law_status_reads_back(BossStatus::Active);
    let met = met_progress(progress, boundary, boss_id);
    if other == boundary {
        assert(met.get(other) == Some(met_entry(entry_before(progress, boundary), boss_id)));
    } else {
        assert(met.get(other) == progress.get(other));
    }
}

/// Trees that agree carry the same wagers and name the same encounters.
proof fn lemma_stored_agrees(stored: JsonView, met: JsonView, key: Seq<char>)
    requires
        stored.agrees(met, 127),
    ensures
        carried_in(stored, key) == carried_in(met, key),
        engaged_text(stored, key) == engaged_text(met, key),
{
    lemma_agrees_at(stored, met, key, 127);
    if stored.get(key) is Some {
        lemma_agrees_at(stored.get(key)->0, met.get(key)->0, "carried_wager"@, 126);
        lemma_agrees_at(stored.get(key)->0, met.get(key)->0, "carried_risk_tier"@, 126);
        lemma_agrees_at(stored.get(key)->0, met.get(key)->0, "last_engaged_at"@, 126);
    }
}

/// What stands at a boundary before a retreat, as an object.
pub open spec fn retreat_base(progress: JsonView, boundary: Seq<char>) -> JsonView {
    match progress.get(boundary) {
        None => object(),
        Some(entry) => if entry is Object {
            entry
        } else {
            object().with(
                "status"@,
                JsonView::Text(
                    match entry.text_value() {
                        Some(word) => word,
                        None => "active"@,
                    },
                ),
            )
        },
    }
}

/// The entry of a boss that was fled from. Nothing is carried on.
pub open spec fn fled_entry(entry: JsonView) -> JsonView {
    entry.with("last_outcome"@, JsonView::Text("retreat"@)).with(
        "first_meet_seen"@,
        JsonView::Bool(true),
    ).without("carried_wager"@).without("carried_risk_tier"@)
}

/// Progress after a retreat.
pub open spec fn fled_progress(progress: JsonView, boundary: Seq<char>) -> JsonView {
    progress.with(boundary, fled_entry(retreat_base(progress, boundary)))
}

/// How many blocks a retreat costs.
pub open spec fn retreat_blocks(rolled: i32) -> i32 {
    if rolled < 2 {
        2
    } else if rolled > 3 {
        3
    } else {
        rolled
    }
}

/// What a retreat takes of a carried wager: half of it, and no more than the
/// wallet holds.
pub open spec fn retreat_forfeit(carried: Option<i64>, balance: i64) -> i64 {
    smaller(
        match carried {
            Some(wager) => toward_zero(wager as int, 2) as i64,
            None => 0,
        },
        larger(balance, 0),
    )
}

/// The record after a retreat.
pub open spec fn fled_record(
    record: BossRecordView,
    boundary: i64,
    carried: Option<i64>,
    rolled: i32,
) -> BossRecordView {
    BossRecordView {
        depth: larger(nearest(record.depth - retreat_blocks(rolled)), 0),
        balance: nearest(record.balance - retreat_forfeit(carried, record.balance)),
        boss_progress_json: Some(
            text_of_json(
                fled_progress(
                    column_object(record.boss_progress_json),
                    int_text(boundary as int),
                ),
            ),
        ),
        ..record
    }
}

/// What is recorded of a retreat.
pub open spec fn retreat_detail(boundary: i64, loss: i32, forfeit: i64) -> JsonView {
    object().with("boundary"@, JsonView::Int(boundary)).with("loss"@, JsonView::Int(loss as i64)).with(
        "carried_wager_forfeit"@,
        JsonView::Int(forfeit),
    )
}

/// A retreat as it is to be written.
#[derive(Debug)]
pub struct RetreatPlan {
    pub proposed: DigBossRuntimeSnapshot,
    pub detail: String,
    pub block_loss: i32,
    pub forfeit: i64,
}

/// Plans a retreat. `carried` is the wager that is carried at the boundary.
pub fn plan_retreat(
    record: &DigBossRuntimeSnapshot,
    boundary: i64,
    carried: Option<i64>,
    rolled: i32,
) -> (plan: RetreatPlan)
    ensures
        plan.proposed@ == fled_record(record@, boundary, carried, rolled),
        plan.block_loss == retreat_blocks(rolled),
        plan.forfeit == retreat_forfeit(carried, record@.balance),
        plan.forfeit > i64::MIN,
        plan.detail@ == text_of_json(
            retreat_detail(boundary, plan.block_loss, plan.forfeit),
        ),
        plan.proposed@.boss_progress_json matches Some(text) && reads_back(
            text,
            fled_progress(column_object(record@.boss_progress_json), int_text(boundary as int)),
        ),
{
    let block_loss: i32 = if rolled < 2 {
        2
    } else if rolled > 3 {
        3
    } else {
        rolled
    };
    let half = match carried {
        Some(wager) => crate::arith::div_toward_zero(wager, 2),
        None => 0,
    };
    let forfeit = min_of(half, max_of(record.balance, 0));
    let mut proposed = record.clone();
    proposed.depth = max_of(sat_sub(record.depth, block_loss as i64), 0);
    proposed.balance = sat_sub(record.balance, forfeit);
    let mut progress = read_object(borrow_text(&record.boss_progress_json));
    proof {
        lemma_edits_nest(127);
        lemma_edits_nest(126);
    }
    let key = integer_text(boundary);
    let mut entry = match progress.get(key.as_str()) {
        None => Json::empty_object(),
        Some(entry) => {
            if entry.is_object() {
                entry.clone()
            } else {
                let word = match entry.as_text() {
                    Some(word) => word,
                    None => "active",
                };
                let mut made = Json::empty_object();
                made.set("status", Json::from_text(word));
                made
            }
        },
    };
    entry.set("last_outcome", Json::from_text("retreat"));
    entry.set("first_meet_seen", Json::Bool(true));
    entry.unset("carried_wager");
    entry.unset("carried_risk_tier");
    progress.set(key.as_str(), entry);
    proposed.boss_progress_json = Some(render_json(progress));
    let mut detail = Json::empty_object();
    detail.set("boundary", Json::from_i64(boundary));
    detail.set("loss", Json::from_i64(block_loss as i64));
    detail.set("carried_wager_forfeit", Json::from_i64(forfeit));
    RetreatPlan { proposed, detail: render_json(detail), block_loss, forfeit }
}

/// How a retreat is told.
#[derive(Clone, Copy, Debug, PartialEq, Eq, Structural)]
pub struct DigBossRetreatOutcome {
    pub boundary: i32,
    pub block_loss: i32,
    pub new_depth: i32,
    pub carried_wager_forfeit: i64,
    pub actual_balance_delta: i64,
}

/// What keeps a retreat from being told.
pub open spec fn retreat_obstacle(boundary: i64, depth: i64) -> Option<BossErrorView> {
    if !fits(boundary) {
        Some(BossErrorView::Infrastructure(out_of_range("boss boundary"@)))
    } else if !fits(depth) {
        Some(BossErrorView::Infrastructure(out_of_range("retreat depth"@)))
    } else {
        None
    }
}

/// Tells a retreat that was written.
pub fn tell_retreat(boundary: i64, plan: &RetreatPlan) -> (told: Result<
    DigBossRetreatOutcome,
    DigBossRuntimeError,
>)
    requires
        plan.forfeit > i64::MIN,
    ensures
        match told {
            Ok(told) => retreat_obstacle(boundary, plan.proposed@.depth) is None && told == (
            DigBossRetreatOutcome {
                boundary: boundary as i32,
                block_loss: plan.block_loss,
                new_depth: plan.proposed@.depth as i32,
                carried_wager_forfeit: plan.forfeit,
                actual_balance_delta: (-plan.forfeit) as i64,
            }),
            Err(error) => retreat_obstacle(boundary, plan.proposed@.depth) == Some(error@),
        },
{
    let boundary = match narrow_i32(boundary, "boss boundary") {
        Ok(narrow) => narrow,
        Err(message) => {
            return Err(DigBossRuntimeError::Infrastructure(message));
        },
    };
    let new_depth = match narrow_i32(plan.proposed.depth, "retreat depth") {
        Ok(narrow) => narrow,
        Err(message) => {
            return Err(DigBossRuntimeError::Infrastructure(message));
        },
    };
    Ok(
        DigBossRetreatOutcome {
            boundary,
            block_loss: plan.block_loss,
            new_depth,
            carried_wager_forfeit: plan.forfeit,
            actual_balance_delta: -plan.forfeit,
        },
    )
}

/// After a retreat nothing is carried at the boundary, the boss remembers the
/// retreat and keeps its status, and every other boundary stays as it was.
pub proof fn law_retreat_carries_nothing(
    progress: JsonView,
    boundary: Seq<char>,
    other: Seq<char>,
)
    requires
        progress is Object,
        other != boundary,
    ensures
        ({
            let fled = fled_progress(progress, boundary);
            let entry = fled.get(boundary)->0;
            &&& carried_in(fled, boundary) == (None::<i64>, None::<Seq<char>>)
            &&& entry.text_at("last_outcome"@) == Some("retreat"@)
            &&& entry.bool_at("first_meet_seen"@) == Some(true)
            &&& standing(progress_tree(fled), boundary) == standing(
                progress_tree(progress),
                boundary,
            )
            &&& fled.get(other) == progress.get(other)
        }),
{
    lemma_meeting_words();
    reveal_strlit("last_outcome");
    assert("last_outcome"@.len() == 12);
    law_status_reads_back(BossStatus::Active);
    let fled = fled_progress(progress, boundary);
    assert(fled.get(boundary) == Some(fled_entry(retreat_base(progress, boundary))));
}

/// A retreat costs two or three blocks, never more than there are, and half of a
/// carried wager at most. Afterwards no wager is carried.
pub proof fn law_retreat_is_limited(
    record: BossRecordView,
    boundary: i64,
    carried: Option<i64>,
    rolled: i32,
    entry: JsonView,
)
    requires
        record.depth >= 0,
        carried matches Some(wager) ==> wager >= 0,
        entry is Object,
    ensures
        ({
            let after = fled_record(record, boundary, carried, rolled);
            let forfeit = retreat_forfeit(carried, record.balance);
            &&& 0 <= after.depth <= record.depth
            &&& record.depth - after.depth <= 3
            &&& record.depth >= 3 ==> record.depth - after.depth >= 2
            &&& after.balance == record.balance - forfeit
            &&& 0 <= forfeit
            &&& carried matches Some(wager) ==> 2 * forfeit <= wager
            &&& carried is None ==> forfeit == 0
            &&& record.balance >= 0 ==> after.balance >= 0
        }),
        fled_entry(entry).get("carried_wager"@) is None,
        fled_entry(entry).get("carried_risk_tier"@) is None,
{
}

/// Seconds between two cheers of a player.
pub const CHEER_COOLDOWN_SECONDS: i64 = 45;

/// Seconds that a cheer counts for.
pub const CHEER_DURATION_SECONDS: i64 = 3_600;

/// Cheers that count at once.
pub const MAX_CHEERS: usize = 3;

/// Seconds until a player may cheer again.
pub open spec fn cheer_wait(last_cheer_at: Option<i64>, now: i64) -> i64 {
    match last_cheer_at {
        Some(last) => nearest(CHEER_COOLDOWN_SECONDS - nearest(now - last)),
        None => 0,
    }
}

/// What stands against a cheer.
pub open spec fn cheer_obstacle(
    cheerer_id: i64,
    target_id: i64,
    target_at_boss: bool,
    last_cheer_at: Option<i64>,
    column: Option<Seq<char>>,
    now: i64,
) -> Option<BossErrorView> {
    if cheerer_id == target_id {
        Some(BossErrorView::SelfCheer)
    } else if !target_at_boss {
        Some(BossErrorView::CheerTargetNotAtBoss)
    } else if cheer_wait(last_cheer_at, now) > 0 {
        Some(
            BossErrorView::CheerCooldown { remaining_seconds: cheer_wait(last_cheer_at, now) },
        )
    } else if active_cheers(column, now).len() >= MAX_CHEERS {
        Some(BossErrorView::CheerFull)
    } else {
        None
    }
}

/// How a cheer is kept.
pub open spec fn cheer_tree(cheerer_id: i64, now: i64) -> JsonView {
    object().with("cheerer_id"@, JsonView::Int(cheerer_id)).with(
        "expires_at"@,
        JsonView::Int(nearest(now + CHEER_DURATION_SECONDS)),
    )
}

/// Tells whether a player cheers for themselves.
pub fn check_cheer(cheerer_id: i64, target_id: i64) -> (answer: Result<(), DigBossRuntimeError>)
    ensures
        match answer {
            Ok(_) => cheerer_id != target_id,
            Err(error) => cheerer_id == target_id && error@ == BossErrorView::SelfCheer,
        },
{
    if cheerer_id == target_id {
        Err(DigBossRuntimeError::SelfCheer)
    } else {
        Ok(())
    }
}

/// The cheers of a target once one more is kept.
pub open spec fn cheered(column: Option<Seq<char>>, cheerer_id: i64, now: i64) -> JsonView {
    JsonView::Array(active_cheers(column, now).push(cheer_tree(cheerer_id, now)))
}

/// Plans a cheer: the cheers of the target that are to be written, in a text that
/// reads back as those cheers.
pub fn plan_cheer(
    cheerer_id: i64,
    target_id: i64,
    target_at_boss: bool,
    last_cheer_at: Option<i64>,
    column: Option<&str>,
    now: i64,
) -> (plan: Result<String, DigBossRuntimeError>)
    ensures
        match plan {
            Ok(text) => cheer_obstacle(
                cheerer_id,
                target_id,
                target_at_boss,
                last_cheer_at,
                str_view(column),
                now,
            ) is None && text@ == text_of_json(cheered(str_view(column), cheerer_id, now))
                && reads_back(text@, cheered(str_view(column), cheerer_id, now)),
            Err(error) => cheer_obstacle(
                cheerer_id,
                target_id,
                target_at_boss,
                last_cheer_at,
                str_view(column),
                now,
            ) == Some(error@),
        },
{
    match check_cheer(cheerer_id, target_id) {
        Ok(_) => {},
        Err(error) => {
            return Err(error);
        },
    }
    if !target_at_boss {
        return Err(DigBossRuntimeError::CheerTargetNotAtBoss);
    }
    let remaining_seconds = match last_cheer_at {
        Some(last) => sat_sub(CHEER_COOLDOWN_SECONDS, sat_sub(now, last)),
        None => 0,
    };
    if remaining_seconds > 0 {
        return Err(DigBossRuntimeError::CheerCooldown { remaining_seconds });
    }
    let mut cheers = parse_active_cheers(column, now);
    proof {
        crate::json::lemma_views_index(cheers@);
    }
    if cheers.len() >= MAX_CHEERS {
        return Err(DigBossRuntimeError::CheerFull);
    }
    let mut cheer = Json::empty_object();
    cheer.set("cheerer_id", Json::from_i64(cheerer_id));
    cheer.set("expires_at", Json::from_i64(sat_add(now, CHEER_DURATION_SECONDS)));
    let ghost before = cheers@;
    cheers.push(cheer);
    assert(cheers@.drop_last() =~= before);
    proof {
        lemma_cheered_nests(str_view(column), cheerer_id, now);
    }
    Ok(render_json(Json::Array(cheers)))
}

/// Counts the cheers of a column that count.
pub fn count_cheers(column: &str, now: i64) -> (count: usize)
    ensures
        count == active_cheers(Some(column@), now).len(),
{
    let cheers = parse_active_cheers(Some(column), now);
    proof {
        crate::json::lemma_views_index(cheers@);
    }
    cheers.len()
}

/// The name of the tunnel that a cheering player without one gets.
pub fn cheerer_tunnel_name(cheerer_id: i64) -> (name: String)
    ensures
        name@ == "Miner "@ + int_text(cheerer_id as int),
{
    crate::text::join2("Miner ", integer_text(cheerer_id).as_str())
}

/// How the store answered a cheer.
#[derive(Clone, Copy, Debug, PartialEq, Eq, Structural)]
pub enum DigBossCheerCommitOutcome {
    Applied,
    Conflict,
    MissingCheerer,
    MissingTarget,
}

/// Decides what follows from the answer to a cheer: `true` when it counts,
/// `false` when it is to be decided again.
pub fn after_cheer(outcome: DigBossCheerCommitOutcome) -> (answer: Result<bool, DigBossRuntimeError>)
    ensures
        match outcome {
            DigBossCheerCommitOutcome::Applied => answer == Ok::<bool, DigBossRuntimeError>(true),
            DigBossCheerCommitOutcome::Conflict => answer == Ok::<bool, DigBossRuntimeError>(false),
            DigBossCheerCommitOutcome::MissingCheerer => answer matches Err(error) && error@
                == BossErrorView::Policy(BossServiceErrorView::MissingTunnel),
            DigBossCheerCommitOutcome::MissingTarget => answer matches Err(error) && error@
                == BossErrorView::CheerTargetMissing,
        },
{
    match outcome {
        DigBossCheerCommitOutcome::Applied => Ok(true),
        DigBossCheerCommitOutcome::Conflict => Ok(false),
        DigBossCheerCommitOutcome::MissingCheerer => Err(
            DigBossRuntimeError::Policy(BossServiceError::MissingTunnel),
        ),
        DigBossCheerCommitOutcome::MissingTarget => Err(DigBossRuntimeError::CheerTargetMissing),
    }
}

proof fn lemma_cheered_nests(column: Option<Seq<char>>, cheerer_id: i64, now: i64)
    requires
        JsonView::Array(active_cheers(column, now)).nests(127),
    ensures
        cheered(column, cheerer_id, now).nests(127),
{
    lemma_edits_nest(126);
    let before = active_cheers(column, now);
    let after = before.push(cheer_tree(cheerer_id, now));
    let list = JsonView::Array(before);
    assert(list.nests(127));
    assert(cheer_tree(cheerer_id, now).nests(126));
    assert forall|i: int| 0 <= i < after.len() implies (#[trigger] after[i]).nests(126) by {
        if i < before.len() {
            assert(after[i] == list->Array_0[i]);
        }
    }
}

/// An accepted cheer is counted. The column that is written for it has, at any
/// time from then on, the cheers of the column before that still count, and one
/// more as long as the new one lasts.
pub proof fn law_accepted_cheer_is_counted(
    column: Option<Seq<char>>,
    written: Seq<char>,
    cheerer_id: i64,
    now: i64,
    later: i64,
)
    requires
        reads_back(written, cheered(column, cheerer_id, now)),
        now <= later,
    ensures
        active_cheers(Some(written), later).len() == active_cheers(column, later).len() + (
        if later < nearest(now + CHEER_DURATION_SECONDS) {
            1int
        } else {
            0
        }),
        now < i64::MAX ==> active_cheers(Some(written), now).len() == active_cheers(
            column,
            now,
        ).len() + 1,
{
    let cheer = cheer_tree(cheerer_id, now);
    let kept = active_cheers(column, now);
    lemma_cheer_expiry(cheerer_id, now);
    let back = listed_cheers(Some(written));
    lemma_counting_agrees(back, kept.push(cheer), later, 126);
    lemma_counting_agrees(back, kept.push(cheer), now, 126);
    lemma_counting_push(kept, cheer, later);
    lemma_counting_push(kept, cheer, now);
    lemma_counting_again(listed_cheers(column), now, later);
    lemma_counting_again(listed_cheers(column), now, now);
}

/// A cheer says when it expires.
proof fn lemma_cheer_expiry(cheerer_id: i64, now: i64)
    ensures
        cheer_tree(cheerer_id, now).int_at("expires_at"@) == Some(
            nearest(now + CHEER_DURATION_SECONDS),
        ),
{
    reveal_strlit("cheerer_id");
    reveal_strlit("expires_at");
    assert("cheerer_id"@[0] != "expires_at"@[0]);
}

/// A cheer counts as soon as it is kept, beside those that count already, and no
/// longer than it lasts.
pub proof fn law_cheer_counts_while_it_lasts(
    cheers: Seq<JsonView>,
    cheerer_id: i64,
    now: i64,
    later: i64,
)
    requires
        now + CHEER_DURATION_SECONDS <= i64::MAX,
    ensures
        counting_cheers(cheers.push(cheer_tree(cheerer_id, now)), now).len() == counting_cheers(
            cheers,
            now,
        ).len() + 1,
        cheer_counts(cheer_tree(cheerer_id, now), later) <==> later < now
            + CHEER_DURATION_SECONDS,
{
    lemma_cheer_expiry(cheerer_id, now);
    lemma_counting_push(cheers, cheer_tree(cheerer_id, now), now);
}

} // verus!
