//! Laws on the record of a boss fight, on its taxes and on what it drops.

use crate::boss_error::{BossErrorView, BossServiceError, DigBossRuntimeError};
use crate::boss_service::{
    all_warnings, can_drop, colour_of_land, current_boundary, drop_slot, droppable, drops_loot,
    gear_presentation_name, is_bare, is_composed, mana_counts, pet_can_assist, pick_drop,
    require_pinnacle, withhold_vanity, BankruptcyAdjustment, BossNotice, CatalogueArtifactView,
    ComposedTroubles, DigBossRuntimeResult,
};
use crate::boss_store::{
    same_record, BossRecordView, CacheView, DigBossRuntimeSnapshot, LoadedView, PlayerKey,
};
use crate::boss_tunnel::{
    after_commit, audit_detail, audit_view, fight_of, first_clear, is_fight_plan, narrow_i32,
    record_of, stored_echo, tunnel_obstacle, BossAuditView, CommitOutcome, EchoView, FightCommit,
    FightPlan, FightView, RepositoryError,
};
use crate::combat::GearSlot;
use crate::progress::BossStatus;
use crate::text::{int_text, str_view};
use vstd::prelude::*;

verus! {

/// A fight reads the tunnel as the record has it, each number in its own place.
pub proof fn law_fight_reads_the_record(loaded: LoadedView, revision: u64)
    requires
        tunnel_obstacle(loaded.snapshot) is None,
        loaded.lantern_ids.len() <= u32::MAX,
    ensures
        ({
            let (record, fight) = (loaded.snapshot, fight_of(loaded, revision));
            &&& fight.depth == record.depth && fight.max_depth == record.max_depth
            &&& fight.prestige_level == record.prestige_level && fight.balance == record.balance
            &&& fight.boss_attempts == record.boss_attempts && fight.luminosity == record.luminosity
            &&& fight.lanterns == loaded.lantern_ids.len()
            &&& fight.has_great_lantern == loaded.has_great_lantern
            &&& fight.revision == revision
            &&& record.last_dig_at is None ==> fight.last_dig_at == 0
            &&& record.last_dig_at matches Some(at) ==> fight.last_dig_at == at
        }),
{
}

/// A record stands in the way of a fight where one of its numbers is out of range
/// or its progress cannot be read, and only there.
pub proof fn law_record_stands_in_the_way(record: BossRecordView)
    ensures
        ({
            let held = |value: i64| -2_147_483_648 <= value <= 2_147_483_647;
            tunnel_obstacle(record) is None <==> held(record.depth) && held(record.max_depth)
                && held(record.prestige_level) && held(record.boss_attempts) && held(
                record.luminosity,
            ) && crate::progress::progress_column(record.boss_progress_json) is Some
        }),
{
}

/// A tunnel is written back number by number; what a fight does not touch stays.
pub proof fn law_fight_is_written_back(record: BossRecordView, tunnel: FightView)
    ensures
        ({
            let written = record_of(record, tunnel);
            &&& written.depth == tunnel.depth && written.max_depth == tunnel.max_depth
            &&& written.balance == tunnel.balance && written.boss_attempts == tunnel.boss_attempts
            &&& written.luminosity == tunnel.luminosity
            &&& written.last_dig_at == Some(tunnel.last_dig_at)
            &&& record == (BossRecordView {
                depth: record.depth,
                max_depth: record.max_depth,
                balance: record.balance,
                boss_progress_json: record.boss_progress_json,
                stinger_curse_json: record.stinger_curse_json,
                boss_attempts: record.boss_attempts,
                last_dig_at: record.last_dig_at,
                luminosity: record.luminosity,
                ..written
            })
        }),
{
}

/// A fight that is committed writes the tunnel, drops the cheers that it used, and
/// gives a point for a first clear; without an audit nothing of these is touched.
pub proof fn law_commit_writes_the_fight(loaded: LoadedView, commit: FightCommit, plan: FightPlan)
    requires
        is_fight_plan(loaded, commit, plan),
    ensures
        plan.proposed@.balance == commit.next_tunnel@.balance,
        plan.proposed@.depth == commit.next_tunnel@.depth,
        plan.proposed@.max_depth == commit.next_tunnel@.max_depth,
        plan.proposed@.boss_attempts == commit.next_tunnel@.boss_attempts,
        plan.proposed@.luminosity == commit.next_tunnel@.luminosity,
        plan.proposed@.last_dig_at == Some(commit.next_tunnel@.last_dig_at),
        commit.audit is Some ==> plan.proposed@.cheer_data_json is None && plan.detail is Some,
        commit.audit is None ==> plan.proposed@.cheer_data_json == loaded.snapshot.cheer_data_json
            && plan.detail is None && plan.proposed@.stat_points == loaded.snapshot.stat_points
            && plan.proposed@.stat_boss_awards_json == loaded.snapshot.stat_boss_awards_json,
        first_clear(loaded.snapshot, commit.next_tunnel@, audit_view(commit.audit))
            && !crate::awards::awards_boss(
            loaded.snapshot.stat_boss_awards_json,
            loaded.snapshot.prestige_level,
            audit_view(commit.audit)->0.boundary as i64,
        ) && 5 <= loaded.snapshot.stat_points < i64::MAX ==> plan.proposed@.stat_points
            == loaded.snapshot.stat_points + 1,
        commit.echo is None ==> plan.echo is None,
        commit.echo matches Some(echo) ==> plan.echo matches Some(stored) && stored@.boss_id
            == echo@.boss_id && stored@.depth == echo@.boundary && stored@.killer_id
            == echo@.killer_id && stored@.weakened_until == echo@.weakened_until,
        plan.spent_lantern is Some <==> loaded.lantern_ids.len() > commit.next_tunnel.lanterns
            && !loaded.has_great_lantern,
        plan.spent_lantern matches Some(row) ==> row == loaded.lantern_ids[0],
{
}

/// A first clear is a win that leaves the boss beaten where it was not before.
pub proof fn law_first_clear_is_a_first(
    record: BossRecordView,
    next: FightView,
    audit: BossAuditView,
)
    requires
        first_clear(record, next, Some(audit)),
    ensures
        audit.won,
        crate::progress::status_at(next.boss_progress, audit.boundary) == BossStatus::Defeated,
        crate::progress::progress_column(record.boss_progress_json) matches Some(before)
            ==> crate::progress::status_at(before, audit.boundary) != BossStatus::Defeated,
        !first_clear(record, next, None),
{
}

/// Every win over a boss that stood before and is beaten now is a first clear.
pub proof fn law_fresh_win_is_a_first_clear(
    record: BossRecordView,
    next: FightView,
    audit: BossAuditView,
)
    requires
        audit.won,
        crate::progress::status_at(next.boss_progress, audit.boundary) == BossStatus::Defeated,
        record.boss_progress_json is None,
    ensures
        first_clear(record, next, Some(audit)),
{
}

proof fn lemma_audit_words()
    ensures
        "boss_id"@.len() == 7,
        "boundary"@.len() == 8,
        "won"@.len() == 3,
        "jc_delta"@.len() == 8,
        "depth_after"@.len() == 11,
        "vanity_tax"@.len() == 10,
        "boundary"@[0] != "jc_delta"@[0],
{
    reveal_strlit("boss_id");
    reveal_strlit("boundary");
    reveal_strlit("won");
    reveal_strlit("jc_delta");
    reveal_strlit("depth_after");
    reveal_strlit("vanity_tax");
}

/// The audit of a fight names its boss, its place, its end and its coins.
pub proof fn law_fight_is_audited(audit: BossAuditView, vanity_tax: i64)
    ensures
        audit_detail(audit, vanity_tax).text_at("boss_id"@) == Some(audit.boss_id),
        audit_detail(audit, vanity_tax).int_at("boundary"@) == Some(audit.boundary as i64),
        audit_detail(audit, vanity_tax).bool_at("won"@) == Some(audit.won),
        audit_detail(audit, vanity_tax).int_at("jc_delta"@) == Some(audit.jc_delta),
        audit_detail(audit, vanity_tax).int_at("depth_after"@) == Some(audit.depth_after as i64),
        audit_detail(audit, vanity_tax).int_at("vanity_tax"@) == Some(vanity_tax),
{
    lemma_audit_words();
}

/// An echo is stored under its boss with its depth, its killer and its end.
pub proof fn law_echo_is_stored(echo: EchoView)
    ensures
        stored_echo(echo).boss_id == echo.boss_id,
        stored_echo(echo).depth == echo.boundary,
        stored_echo(echo).killer_id == echo.killer_id,
        stored_echo(echo).weakened_until == echo.weakened_until,
{
}

/// A commit that was applied is done unless its lantern was gone; a conflict is a
/// conflict, and everything else misses the tunnel.
pub proof fn law_commit_is_answered(
    spent: Option<i64>,
    taken: bool,
    applied: Result<(), RepositoryError>,
    conflict: Result<(), RepositoryError>,
    missing: Result<(), RepositoryError>,
)
    requires
        call_ensures(after_commit, (CommitOutcome::Applied, spent, taken), applied),
        call_ensures(after_commit, (CommitOutcome::Conflict, spent, taken), conflict),
        call_ensures(after_commit, (CommitOutcome::MissingTunnel, spent, taken), missing),
    ensures
        spent is None || taken ==> applied is Ok,
        spent is Some && !taken ==> applied == Err::<(), RepositoryError>(RepositoryError::Conflict),
        conflict == Err::<(), RepositoryError>(RepositoryError::Conflict),
        missing == Err::<(), RepositoryError>(RepositoryError::MissingTunnel),
{
}

/// A number that fits is kept.
pub proof fn law_numbers_are_narrowed(value: i64, field: &str, narrow: Result<i32, String>)
    requires
        call_ensures(narrow_i32, (value, field), narrow),
    ensures
        -2_147_483_648 <= value <= 2_147_483_647 ==> narrow == Ok::<i32, String>(value as i32),
        value > 2_147_483_647 || value < -2_147_483_648 ==> narrow is Err,
{
}

/// A record that is remembered is found under its revision; forgetting it brings a
/// new revision, never an old one.
pub proof fn law_records_are_remembered(cache: CacheView, key: PlayerKey, loaded: LoadedView)
    requires
        !cache.knows(key, loaded),
        cache.next_revision < u64::MAX,
    ensures
        ({
            let revision = cache.revision_for(key, loaded);
            let after = cache.remembering(key, loaded);
            &&& revision == cache.next_revision + 1 && after.next_revision == revision
            &&& after.revisions.dom().contains((key, revision))
            &&& after.revisions[(key, revision)] == loaded
            &&& after.latest.dom().contains(key) && after.latest[key] == (loaded, revision)
            &&& after.knows(key, loaded)
            &&& after.revision_for(key, loaded) == revision
            &&& after.remembering(key, loaded) == after
        }),
{
}

/// The vanity tax takes its quote of what bankruptcy left, no more than that and
/// never a negative amount.
pub proof fn law_vanity_takes_its_quote(
    penalized: i64,
    penalty: i64,
    tax: i64,
    left: BankruptcyAdjustment,
)
    requires
        call_ensures(withhold_vanity, (penalized, penalty, tax), left),
        0 <= penalized,
    ensures
        left.penalty_applied == penalty,
        0 <= tax <= penalized ==> left.vanity_tax == tax && left.penalized == penalized - tax,
        tax > penalized ==> left.vanity_tax == penalized && left.penalized == 0,
        tax < 0 ==> left.vanity_tax == 0 && left.penalized == penalized,
{
}

proof fn lemma_land_words()
    ensures
        "Mountain"@.len() == 8,
        "Island"@.len() == 6,
        "Forest"@.len() == 6,
        "Plains"@.len() == 6,
        "Swamp"@.len() == 5,
        "Red"@.len() == 3,
        "Blue"@.len() == 4,
        "Green"@.len() == 5,
        "White"@.len() == 5,
        "Black"@.len() == 5,
        "Island"@[0] != "Forest"@[0],
        "Island"@[0] != "Plains"@[0],
        "Forest"@[0] != "Plains"@[0],
        "Swamp"@[0] != "Green"@[0],
        "Swamp"@[0] != "White"@[0],
        "Swamp"@[0] != "Black"@[0],
        "Green"@[0] != "White"@[0],
        "Green"@[0] != "Black"@[0],
        "White"@[0] != "Black"@[0],
{
    reveal_strlit("Mountain");
    reveal_strlit("Island");
    reveal_strlit("Forest");
    reveal_strlit("Plains");
    reveal_strlit("Swamp");
    reveal_strlit("Red");
    reveal_strlit("Blue");
    reveal_strlit("Green");
    reveal_strlit("White");
    reveal_strlit("Black");
}

/// The colours of the lands.
pub proof fn law_lands_have_colours(land: &str, colour: Option<&'static str>)
    requires
        call_ensures(colour_of_land, (land,), colour),
    ensures
        land@ == "Mountain"@ ==> str_view(colour) == Some("Red"@),
        land@ == "Island"@ ==> str_view(colour) == Some("Blue"@),
        land@ == "Forest"@ ==> str_view(colour) == Some("Green"@),
        land@ == "Plains"@ ==> str_view(colour) == Some("White"@),
        land@ == "Swamp"@ ==> str_view(colour) == Some("Black"@),
        land@ != "Mountain"@ && land@ != "Island"@ && land@ != "Forest"@ && land@ != "Plains"@
            && land@ != "Swamp"@ ==> colour is None,
{
    lemma_land_words();
}

/// Mana counts on the day it was assigned until it is spent, and a pet helps once
/// it is grown and trained.
pub proof fn law_helpers_must_be_ready(
    adult: bool,
    xp: i64,
    cap: i32,
    helps: bool,
    assigned: &str,
    today: &str,
    spent: bool,
    counts: bool,
)
    requires
        call_ensures(pet_can_assist, (adult, xp, cap), helps),
        call_ensures(mana_counts, (assigned, today, spent), counts),
    ensures
        helps <==> adult && xp >= cap,
        counts <==> assigned@ == today@ && !spent,
{
}

/// A result that is bare holds its outcome, its action and its warnings, and none
/// of what a fight may leave.
pub proof fn law_bare_result_leaves_nothing<T>(
    result: DigBossRuntimeResult<T>,
    outcome: T,
    action_id: Option<i64>,
    warnings: Vec<String>,
)
    requires
        is_bare(result, outcome, action_id, warnings),
    ensures
        result.outcome == outcome && result.action_id == action_id && result.warnings == warnings,
        result.gear_drop is None && result.prestige_relic_drop is None,
        result.broken_gear@.len() == 0 && result.abandoned_gear_wear@.len() == 0,
        result.abandoned_action_id is None && result.abandoned_wager_forfeit == 0,
{
}

/// Warnings are told in order: the economy, bankruptcy, gear, the preparation.
pub proof fn law_warnings_in_order(
    economy: Seq<Seq<char>>,
    bankruptcy: Seq<Seq<char>>,
    gear: Seq<char>,
    preparation: Seq<char>,
)
    ensures
        all_warnings(economy, bankruptcy, None, None) == economy + bankruptcy,
        all_warnings(economy, bankruptcy, Some(gear), None) == (economy + bankruptcy).push(gear),
        all_warnings(economy, bankruptcy, None, Some(preparation)) == (economy + bankruptcy).push(
            preparation,
        ),
        all_warnings(economy, bankruptcy, Some(gear), Some(preparation)) == (economy
            + bankruptcy).push(gear).push(preparation),
{
}

/// What broke the record goes before what broke the activation, and both before
/// what the rules say.
pub proof fn law_troubles_have_an_order<T>(
    answer: Result<DigBossRuntimeResult<T>, DigBossRuntimeError>,
    outcome: Result<T, BossServiceError>,
    troubles: ComposedTroubles,
    action_id: Option<i64>,
    notices: Vec<BossNotice>,
)
    requires
        is_composed(answer, outcome, troubles, action_id, notices),
    ensures
        troubles.record matches Some(text) ==> (answer matches Err(error) && error@
            == BossErrorView::Infrastructure(text@)),
        troubles.record is None && troubles.activation is Some ==> (answer matches Err(error)
            && error@ == BossErrorView::Infrastructure(troubles.activation->0@)),
        troubles.record is None && troubles.activation is None ==> (answer is Ok <==> outcome is Ok),
        answer matches Ok(result) ==> result.outcome == outcome->Ok_0 && result.action_id
            == action_id && result.notices == notices,
{
}

/// A boss stands at a boundary or nowhere, and only the pinnacle is the pinnacle.
pub proof fn law_boss_stands_at_its_boundary(
    boundary: i64,
    depth: i32,
    here: Result<i32, DigBossRuntimeError>,
    nowhere: Result<i32, DigBossRuntimeError>,
    pinnacle: Result<(), DigBossRuntimeError>,
)
    requires
        call_ensures(current_boundary, (Some(boundary),), here),
        call_ensures(current_boundary, (None::<i64>,), nowhere),
        call_ensures(require_pinnacle, (Some(boundary), depth), pinnacle),
    ensures
        -2_147_483_648 <= boundary <= 2_147_483_647 ==> here == Ok::<i32, DigBossRuntimeError>(
            boundary as i32,
        ),
        nowhere is Err,
        pinnacle is Ok <==> boundary == depth,
{
}

/// Gear goes by its own name, else by that of its tier, else by its number.
pub proof fn law_gear_has_a_name(
    gear_id: i64,
    unique: Option<&str>,
    tier: Option<&str>,
    name: String,
)
    requires
        call_ensures(gear_presentation_name, (gear_id, unique, tier), name),
    ensures
        unique matches Some(own) ==> name@ == own@,
        unique is None ==> (tier matches Some(tier) ==> name@ == tier@),
        unique is None && tier is None ==> name@ == "Gear #"@ + int_text(gear_id as int),
{
}

/// Only a committed win that ends the boss drops something, into one of four slots
/// in turn.
pub proof fn law_loot_drops(
    committed: bool,
    won: bool,
    phase_changed: bool,
    drops: bool,
    rolled: usize,
    slot: GearSlot,
    places: &Vec<usize>,
    place: Option<usize>,
)
    requires
        call_ensures(drops_loot, (committed, won, phase_changed), drops),
        call_ensures(drop_slot, (rolled,), slot),
        call_ensures(pick_drop, (places, rolled), place),
    ensures
        drops <==> committed && won && !phase_changed,
        rolled % 4 == 0 ==> slot == GearSlot::Weapon,
        rolled % 4 == 1 ==> slot == GearSlot::Armor,
        rolled % 4 == 2 ==> slot == GearSlot::Boots,
        rolled % 4 == 3 ==> slot == GearSlot::Amulet,
        places@.len() == 0 <==> place is None,
        rolled < places@.len() ==> place == Some(places@[rolled as int]),
{
    if 0 <= rolled < places@.len() {
        vstd::arithmetic::div_mod::lemma_small_mod(rolled as nat, places@.len());
    }
}

/// A relic can drop where it is one, no trophy, meant for this prestige or a lower
/// one and not owned; all that can drop are listed in order.
pub proof fn law_relics_that_can_drop(
    catalogue: Seq<CatalogueArtifactView>,
    artifact: CatalogueArtifactView,
    prestige: i64,
    owned: Seq<Seq<char>>,
)
    requires
        catalogue.len() < usize::MAX,
    ensures
        can_drop(artifact, prestige, owned) <==> artifact.is_relic && !artifact.trophy && 1
            <= artifact.min_prestige <= prestige && !owned.contains(artifact.id),
        can_drop(artifact, prestige, owned) ==> droppable(
            catalogue.push(artifact),
            prestige,
            owned,
        ) == droppable(catalogue, prestige, owned).push(catalogue.len() as usize),
        !can_drop(artifact, prestige, owned) ==> droppable(
            catalogue.push(artifact),
            prestige,
            owned,
        ) == droppable(catalogue, prestige, owned),
{
    assert(catalogue.push(artifact).drop_last() =~= catalogue);
}

/// Two records are the same exactly where everything in them is.
pub proof fn law_records_are_compared(
    a: &DigBossRuntimeSnapshot,
    b: &DigBossRuntimeSnapshot,
    same: bool,
)
    requires
        call_ensures(same_record, (a, b), same),
    ensures
        same ==> a@.balance == b@.balance && a@.depth == b@.depth && a@.boss_progress_json
            == b@.boss_progress_json && a@.pinnacle_phase == b@.pinnacle_phase,
        a@ == b@ ==> same,
{
}

} // verus!
