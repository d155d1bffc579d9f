//! The tunnel that a boss fight works on, read from a record and written back
//! to it in one commit.

use crate::awards::{awards_boss, first_clear_award, is_award, ledger_broken, StatAward};
use crate::boss_store::{BossRecordView, DigBossRuntimeSnapshot, LoadedBossSnapshot, LoadedView};
use crate::curse::{
    curse_of, merge_stinger_curse, parse_stinger_curse, with_curse, CurseView, StingerCurseState,
};
use crate::json::{
    column_object, json_complaint, object, reads_back, render_json, text_of_json, Json, JsonView,
};
use crate::preparation::{apply_preparation_mutation, prepared_column, BossPreparationMutation};
use crate::progress::{
    merge_boss_progress, merged_progress, parse_boss_progress, progress_column, progress_complaint,
    status_at, status_for_boundary, status_for_boundary_raw, BossProgress, BossStatus,
    ProgressView,
};
use crate::text::{borrow_text, join3, text_view};
use vstd::prelude::*;

verus! {

/// The message about a number that does not fit.
pub open spec fn out_of_range(field: Seq<char>) -> Seq<char> {
    "boss tunnel "@ + field + " is outside i32 range"@
}

/// Narrows a number of the record.
pub fn narrow_i32(value: i64, field: &str) -> (narrow: Result<i32, String>)
    ensures
        match narrow {
            Ok(narrow) => narrow == value,
            Err(message) => !(i32::MIN <= value <= i32::MAX) && message@ == out_of_range(field@),
        },
{
    if -2_147_483_648 <= value && value <= 2_147_483_647 {
        Ok(value as i32)
    } else {
        Err(join3("boss tunnel ", field, " is outside i32 range"))
    }
}

/// A tunnel as a boss fight sees it.
#[derive(Debug)]
pub struct TunnelFight {
    pub depth: i32,
    pub max_depth: i32,
    pub prestige_level: i32,
    pub balance: i64,
    pub boss_progress: BossProgress,
    pub stinger_curse: StingerCurseState,
    pub lanterns: u32,
    pub has_great_lantern: bool,
    pub boss_attempts: i32,
    pub last_dig_at: i64,
    pub luminosity: i32,
    /// The revision of the record that this was read from.
    pub revision: u64,
}

/// What a [`TunnelFight`] holds.
#[verifier::ext_equal]
pub struct FightView {
    pub depth: i32,
    pub max_depth: i32,
    pub prestige_level: i32,
    pub balance: i64,
    pub boss_progress: Map<Seq<char>, ProgressView>,
    pub stinger_curse: CurseView,
    pub lanterns: u32,
    pub has_great_lantern: bool,
    pub boss_attempts: i32,
    pub last_dig_at: i64,
    pub luminosity: i32,
    pub revision: u64,
}

impl View for TunnelFight {
    type V = FightView;

    open spec fn view(&self) -> FightView {
        FightView {
            depth: self.depth,
            max_depth: self.max_depth,
            prestige_level: self.prestige_level,
            balance: self.balance,
            boss_progress: self.boss_progress@,
            stinger_curse: self.stinger_curse@,
            lanterns: self.lanterns,
            has_great_lantern: self.has_great_lantern,
            boss_attempts: self.boss_attempts,
            last_dig_at: self.last_dig_at,
            luminosity: self.luminosity,
            revision: self.revision,
        }
    }
}

/// Whether a number fits.
pub open spec fn fits(value: i64) -> bool {
    i32::MIN <= value <= i32::MAX
}

/// The first thing that keeps a record from being read as a tunnel.
pub open spec fn tunnel_obstacle(record: BossRecordView) -> Option<Seq<char>> {
    if !fits(record.depth) {
        Some(out_of_range("depth"@))
    } else if !fits(record.max_depth) {
        Some(out_of_range("max_depth"@))
    } else if !fits(record.prestige_level) {
        Some(out_of_range("prestige_level"@))
    } else if progress_column(record.boss_progress_json) is None {
        Some(progress_complaint(record.boss_progress_json->0))
    } else if !fits(record.boss_attempts) {
        Some(out_of_range("boss_attempts"@))
    } else if !fits(record.luminosity) {
        Some(out_of_range("luminosity"@))
    } else {
        None
    }
}

/// The tunnel that a record holds, where nothing keeps it from being read.
pub open spec fn fight_of(loaded: LoadedView, revision: u64) -> FightView {
    let record = loaded.snapshot;
    FightView {
        depth: record.depth as i32,
        max_depth: record.max_depth as i32,
        prestige_level: record.prestige_level as i32,
        balance: record.balance,
        boss_progress: progress_column(record.boss_progress_json)->0,
        stinger_curse: curse_of(column_object(record.stinger_curse_json)),
        lanterns: if loaded.lantern_ids.len() > u32::MAX {
            u32::MAX
        } else {
            loaded.lantern_ids.len() as u32
        },
        has_great_lantern: loaded.has_great_lantern,
        boss_attempts: record.boss_attempts as i32,
        last_dig_at: match record.last_dig_at {
            Some(at) => at,
            None => 0,
        },
        luminosity: record.luminosity as i32,
        revision,
    }
}

/// Reads the tunnel that a record holds.
pub fn tunnel_from_snapshot(loaded: &LoadedBossSnapshot, revision: u64) -> (tunnel: Result<
    TunnelFight,
    String,
>)
    ensures
        match tunnel {
            Ok(tunnel) => tunnel_obstacle(loaded@.snapshot) is None && tunnel@ == fight_of(
                loaded@,
                revision,
            ),
            Err(message) => tunnel_obstacle(loaded@.snapshot) == Some(message@),
        },
{
    let record = &loaded.snapshot;
    let depth = match narrow_i32(record.depth, "depth") {
        Ok(narrow) => narrow,
        Err(message) => {
            return Err(message);
        },
    };
    let max_depth = match narrow_i32(record.max_depth, "max_depth") {
        Ok(narrow) => narrow,
        Err(message) => {
            return Err(message);
        },
    };
    let prestige_level = match narrow_i32(record.prestige_level, "prestige_level") {
        Ok(narrow) => narrow,
        Err(message) => {
            return Err(message);
        },
    };
    let boss_progress = match parse_boss_progress(borrow_text(&record.boss_progress_json)) {
        Ok(progress) => progress,
        Err(message) => {
            return Err(message);
        },
    };
    let boss_attempts = match narrow_i32(record.boss_attempts, "boss_attempts") {
        Ok(narrow) => narrow,
        Err(message) => {
            return Err(message);
        },
    };
    let luminosity = match narrow_i32(record.luminosity, "luminosity") {
        Ok(narrow) => narrow,
        Err(message) => {
            return Err(message);
        },
    };
    let lanterns: u32 = if loaded.lantern_ids.len() as u64 > 4_294_967_295 {
        u32::MAX
    } else {
        loaded.lantern_ids.len() as u32
    };
    Ok(
        TunnelFight {
            depth,
            max_depth,
            prestige_level,
            balance: record.balance,
            boss_progress,
            stinger_curse: parse_stinger_curse(borrow_text(&record.stinger_curse_json)),
            lanterns,
            has_great_lantern: loaded.has_great_lantern,
            boss_attempts,
            last_dig_at: match record.last_dig_at {
                Some(at) => at,
                None => 0,
            },
            luminosity,
            revision,
        },
    )
}

/// The curse column that a record has once curses are written over it.
pub open spec fn written_curse(column: Option<Seq<char>>, curse: CurseView) -> Option<Seq<char>> {
    let tree = with_curse(column_object(column), curse);
    if tree == object() {
        None
    } else {
        Some(text_of_json(tree))
    }
}

/// The record that a tunnel is written back as. What the tunnel does not hold
/// stays as the record has it.
pub open spec fn record_of(record: BossRecordView, tunnel: FightView) -> BossRecordView {
    BossRecordView {
        depth: tunnel.depth as i64,
        max_depth: tunnel.max_depth as i64,
        balance: tunnel.balance,
        boss_progress_json: Some(
            text_of_json(
                merged_progress(column_object(record.boss_progress_json), tunnel.boss_progress),
            ),
        ),
        stinger_curse_json: written_curse(record.stinger_curse_json, tunnel.stinger_curse),
        boss_attempts: tunnel.boss_attempts as i64,
        last_dig_at: Some(tunnel.last_dig_at),
        luminosity: tunnel.luminosity as i64,
        ..record
    }
}

/// Whether a record holds the progress and the curses of a tunnel.
pub open spec fn holds_tunnel(record: BossRecordView, tunnel: FightView) -> bool {
    &&& progress_column(record.boss_progress_json) == Some(tunnel.boss_progress)
    &&& curse_of(column_object(record.stinger_curse_json)) == tunnel.stinger_curse
}

/// Writes a tunnel back to a record. Its curses read back, and so does its
/// progress where it is the progress that the record had.
pub fn state_from_tunnel(record: &DigBossRuntimeSnapshot, tunnel: &TunnelFight) -> (state:
    DigBossRuntimeSnapshot)
    ensures
        state@ == record_of(record@, tunnel@),
        state@.boss_progress_json matches Some(text) && reads_back(
            text,
            merged_progress(column_object(record@.boss_progress_json), tunnel@.boss_progress),
        ),
        progress_column(record@.boss_progress_json) == Some(tunnel@.boss_progress) ==> holds_tunnel(
            state@,
            tunnel@,
        ),
        curse_of(column_object(state@.stinger_curse_json)) == tunnel@.stinger_curse,
{
    let mut state = record.clone();
    state.depth = tunnel.depth as i64;
    state.max_depth = tunnel.max_depth as i64;
    state.balance = tunnel.balance;
    state.boss_progress_json = Some(
        merge_boss_progress(borrow_text(&record.boss_progress_json), &tunnel.boss_progress),
    );
    state.stinger_curse_json = merge_stinger_curse(
        borrow_text(&record.stinger_curse_json),
        &tunnel.stinger_curse,
    );
    state.boss_attempts = tunnel.boss_attempts as i64;
    state.last_dig_at = Some(tunnel.last_dig_at);
    state.luminosity = tunnel.luminosity as i64;
    state
}

/// How a fight is recorded.
#[derive(Debug, PartialEq, Eq)]
pub struct BossAuditRecord {
    pub boss_id: String,
    pub boundary: i32,
    pub won: bool,
    pub jc_delta: i64,
    pub depth_after: i32,
}

/// What a [`BossAuditRecord`] holds.
#[verifier::ext_equal]
pub struct BossAuditView {
    pub boss_id: Seq<char>,
    pub boundary: i32,
    pub won: bool,
    pub jc_delta: i64,
    pub depth_after: i32,
}

impl View for BossAuditRecord {
    type V = BossAuditView;

    open spec fn view(&self) -> BossAuditView {
        BossAuditView {
            boss_id: self.boss_id@,
            boundary: self.boundary,
            won: self.won,
            jc_delta: self.jc_delta,
            depth_after: self.depth_after,
        }
    }
}

impl Clone for BossAuditRecord {
    fn clone(&self) -> (copy: BossAuditRecord)
        ensures
            copy == *self,
    {
        BossAuditRecord {
            boss_id: self.boss_id.clone(),
            boundary: self.boundary,
            won: self.won,
            jc_delta: self.jc_delta,
            depth_after: self.depth_after,
        }
    }
}

/// The detail that is recorded of a fight.
pub open spec fn audit_detail(audit: BossAuditView, vanity_tax: i64) -> JsonView {
    object().with("boss_id"@, JsonView::Text(audit.boss_id)).with(
        "boundary"@,
        JsonView::Int(audit.boundary as i64),
    ).with("won"@, JsonView::Bool(audit.won)).with("jc_delta"@, JsonView::Int(audit.jc_delta)).with(
        "depth_after"@,
        JsonView::Int(audit.depth_after as i64),
    ).with("vanity_tax"@, JsonView::Int(vanity_tax))
}

/// Writes the detail that is recorded of a fight.
pub fn boss_audit_detail(audit: &BossAuditRecord, vanity_tax: i64) -> (detail: String)
    ensures
        detail@ == text_of_json(audit_detail(audit@, vanity_tax)),
{
    let mut detail = Json::empty_object();
    detail.set("boss_id", Json::from_text(audit.boss_id.as_str()));
    detail.set("boundary", Json::from_i64(audit.boundary as i64));
    detail.set("won", Json::Bool(audit.won));
    detail.set("jc_delta", Json::from_i64(audit.jc_delta));
    detail.set("depth_after", Json::from_i64(audit.depth_after as i64));
    detail.set("vanity_tax", Json::from_i64(vanity_tax));
    render_json(detail)
}

/// An echo that a beaten boss leaves to weaken it for others.
#[derive(Debug, PartialEq, Eq)]
pub struct EchoRecord {
    pub boss_id: String,
    pub boundary: i32,
    pub killer_id: i64,
    pub weakened_until: i64,
}

/// What an [`EchoRecord`] holds.
#[verifier::ext_equal]
pub struct EchoView {
    pub boss_id: Seq<char>,
    pub boundary: i32,
    pub killer_id: i64,
    pub weakened_until: i64,
}

impl View for EchoRecord {
    type V = EchoView;

    open spec fn view(&self) -> EchoView {
        EchoView {
            boss_id: self.boss_id@,
            boundary: self.boundary,
            killer_id: self.killer_id,
            weakened_until: self.weakened_until,
        }
    }
}

/// An echo as the store keeps it.
#[derive(Debug, PartialEq, Eq)]
pub struct StoredEcho {
    pub boss_id: String,
    pub depth: i64,
    pub killer_id: i64,
    pub weakened_until: i64,
}

/// What a [`StoredEcho`] holds.
#[verifier::ext_equal]
pub struct StoredEchoView {
    pub boss_id: Seq<char>,
    pub depth: i64,
    pub killer_id: i64,
    pub weakened_until: i64,
}

impl View for StoredEcho {
    type V = StoredEchoView;

    open spec fn view(&self) -> StoredEchoView {
        StoredEchoView {
            boss_id: self.boss_id@,
            depth: self.depth,
            killer_id: self.killer_id,
            weakened_until: self.weakened_until,
        }
    }
}

/// An echo as the store is to keep it.
pub open spec fn stored_echo(echo: EchoView) -> StoredEchoView {
    StoredEchoView {
        boss_id: echo.boss_id,
        depth: echo.boundary as i64,
        killer_id: echo.killer_id,
        weakened_until: echo.weakened_until,
    }
}

/// The echo that the store keeps. A depth out of range counts as the deepest.
pub open spec fn echo_of(stored: StoredEchoView) -> EchoView {
    EchoView {
        boss_id: stored.boss_id,
        boundary: if fits(stored.depth) {
            stored.depth as i32
        } else {
            i32::MAX
        },
        killer_id: stored.killer_id,
        weakened_until: stored.weakened_until,
    }
}

/// Reads an echo that the store keeps.
pub fn echo_from_store(stored: StoredEcho) -> (echo: EchoRecord)
    ensures
        echo@ == echo_of(stored@),
{
    let boundary: i32 = if stored.depth < -2_147_483_648 || stored.depth > 2_147_483_647 {
        i32::MAX
    } else {
        stored.depth as i32
    };
    EchoRecord {
        boss_id: stored.boss_id,
        boundary,
        killer_id: stored.killer_id,
        weakened_until: stored.weakened_until,
    }
}

/// An echo reads back as it was stored.
pub proof fn law_echo_reads_back(echo: EchoView)
    ensures
        echo_of(stored_echo(echo)) == echo,
{
    assert(echo_of(stored_echo(echo)) =~= echo);
}

/// What a fight asks of the store.
pub struct FightCommit {
    pub next_tunnel: TunnelFight,
    pub preparation_mutation: BossPreparationMutation,
    pub audit: Option<BossAuditRecord>,
    pub echo: Option<EchoRecord>,
    pub vanity_tax: i64,
}

/// What the store is asked to write.
pub struct FightPlan {
    pub proposed: DigBossRuntimeSnapshot,
    /// The detail to record, when the fight is recorded.
    pub detail: Option<String>,
    /// The echo to keep.
    pub echo: Option<StoredEcho>,
    /// The lantern row that was used up.
    pub spent_lantern: Option<i64>,
}

/// Why nothing can be written for a fight.
#[derive(Debug, PartialEq, Eq)]
pub enum FightPlanError {
    /// Nobody remembers the record that the fight decided on.
    Conflict,
    /// A column could not be read, for the reason given.
    Broken(String),
}

/// Why a commit did not happen.
#[derive(Clone, Copy, Debug, PartialEq, Eq, Structural)]
pub enum RepositoryError {
    Conflict,
    MissingTunnel,
    /// A column could not be read.
    InjectedFailure,
}

/// Whether a fight beats a boss that was not beaten before.
pub open spec fn first_clear(
    record: BossRecordView,
    next: FightView,
    audit: Option<BossAuditView>,
) -> bool {
    match audit {
        Some(audit) => audit.won && status_at(next.boss_progress, audit.boundary)
            == BossStatus::Defeated && (match progress_column(record.boss_progress_json) {
            Some(progress) => status_at(progress, audit.boundary),
            None => BossStatus::Active,
        }) != BossStatus::Defeated,
        None => false,
    }
}

/// The view of an optional audit.
pub open spec fn audit_view(audit: Option<BossAuditRecord>) -> Option<BossAuditView> {
    match audit {
        Some(audit) => Some(audit@),
        None => None,
    }
}

/// The lantern row that a fight used up: the first one, where it leaves fewer
/// lanterns than there were and no great lantern spares them.
pub open spec fn lantern_spent(loaded: LoadedView, lanterns: u32) -> Option<i64> {
    if loaded.lantern_ids.len() > lanterns && !loaded.has_great_lantern {
        Some(loaded.lantern_ids[0])
    } else {
        None
    }
}

/// Whether a plan is the one for a commit.
pub open spec fn is_fight_plan(loaded: LoadedView, commit: FightCommit, plan: FightPlan) -> bool {
    let base = record_of(loaded.snapshot, commit.next_tunnel@);
    let audit = audit_view(commit.audit);
    let fights = audit is Some;
    let awards = first_clear(loaded.snapshot, commit.next_tunnel@, audit) && !awards_boss(
        loaded.snapshot.stat_boss_awards_json,
        loaded.snapshot.prestige_level,
        audit->0.boundary as i64,
    );
    &&& prepared_column(base.boss_progress_json, commit.preparation_mutation) == Some(
        plan.proposed@.boss_progress_json,
    )
    &&& plan.proposed@ == (BossRecordView {
        boss_progress_json: plan.proposed@.boss_progress_json,
        cheer_data_json: if fights {
            None
        } else {
            base.cheer_data_json
        },
        stat_points: plan.proposed@.stat_points,
        stat_boss_awards_json: plan.proposed@.stat_boss_awards_json,
        ..base
    })
    &&& awards ==> exists|award: StatAward|
        {
            &&& #[trigger] is_award(
                loaded.snapshot.stat_points,
                loaded.snapshot.prestige_level,
                loaded.snapshot.stat_boss_awards_json,
                audit->0.boundary,
                award,
            )
            &&& plan.proposed@.stat_points == award.stat_points
            &&& plan.proposed@.stat_boss_awards_json == Some(award.ledger@)
        }
    &&& !awards ==> plan.proposed@.stat_points == base.stat_points
        && plan.proposed@.stat_boss_awards_json == base.stat_boss_awards_json
    &&& text_view(plan.detail) == (match audit {
        Some(audit) => Some(text_of_json(audit_detail(audit, commit.vanity_tax))),
        None => None,
    })
    &&& match commit.echo {
        Some(echo) => plan.echo matches Some(stored) && stored@ == stored_echo(echo@),
        None => plan.echo is None,
    }
    &&& plan.spent_lantern == lantern_spent(loaded, commit.next_tunnel.lanterns)
}

/// Plans what the store is asked to write for a fight. `loaded` is the record
/// that the revision of the fight stands for; without one the fight decided on
/// a record that nobody remembers. Only a first clear over a ledger that is not
/// JSON cannot be planned.
pub fn plan_commit(loaded: Option<&LoadedBossSnapshot>, commit: &FightCommit) -> (plan: Result<
    FightPlan,
    FightPlanError,
>)
    ensures
        match loaded {
            None => plan matches Err(error) && error == FightPlanError::Conflict,
            Some(loaded) => {
                let ledger = loaded@.snapshot.stat_boss_awards_json;
                let broken = first_clear(
                    loaded@.snapshot,
                    commit.next_tunnel@,
                    audit_view(commit.audit),
                ) && ledger_broken(ledger);
                match plan {
                    Ok(plan) => is_fight_plan(loaded@, *commit, plan) && !broken,
                    Err(FightPlanError::Broken(words)) => broken && words@ == json_complaint(
                        ledger->0,
                    ),
                    Err(FightPlanError::Conflict) => false,
                }
            },
        },
{
    let loaded = match loaded {
        Some(loaded) => loaded,
        None => {
            return Err(FightPlanError::Conflict);
        },
    };
    let record = &loaded.snapshot;
    let mut proposed = state_from_tunnel(record, &commit.next_tunnel);
    let ghost base = proposed@;
    let column = proposed.boss_progress_json.take();
    match apply_preparation_mutation(column, commit.preparation_mutation) {
        Ok(column) => {
            proposed.boss_progress_json = column;
        },
        Err(message) => {
            return Err(FightPlanError::Broken(message));
        },
    }
    let mut detail: Option<String> = None;
    let ghost mut given: Option<StatAward> = None;
    match &commit.audit {
        Some(audit) => {
            proposed.cheer_data_json = None;
            if audit.won && status_for_boundary(&commit.next_tunnel.boss_progress, audit.boundary)
                == BossStatus::Defeated && status_for_boundary_raw(
                borrow_text(&record.boss_progress_json),
                audit.boundary,
            ) != BossStatus::Defeated {
                match first_clear_award(
                    record.stat_points,
                    record.prestige_level,
                    borrow_text(&record.stat_boss_awards_json),
                    audit.boundary,
                ) {
                    Ok(Some(award)) => {
                        proof {
                            given = Some(award);
                        }
                        proposed.stat_points = award.stat_points;
                        proposed.stat_boss_awards_json = Some(award.ledger);
                    },
                    Ok(None) => {},
                    Err(words) => {
                        return Err(FightPlanError::Broken(words));
                    },
                }
            }
            detail = Some(boss_audit_detail(audit, commit.vanity_tax));
        },
        None => {},
    }
    let lanterns = commit.next_tunnel.lanterns;
    let spent_lantern = if loaded.lantern_ids.len() as u64 > lanterns as u64
        && !loaded.has_great_lantern {
        Some(loaded.lantern_ids[0])
    } else {
        None
    };
    proof {
        if given is Some {
            assert(is_award(
                loaded@.snapshot.stat_points,
                loaded@.snapshot.prestige_level,
                loaded@.snapshot.stat_boss_awards_json,
                commit.audit->0.boundary,
                given->0,
            ));
        }
    }
    let echo = match &commit.echo {
        Some(echo) => Some(
            StoredEcho {
                boss_id: echo.boss_id.clone(),
                depth: echo.boundary as i64,
                killer_id: echo.killer_id,
                weakened_until: echo.weakened_until,
            },
        ),
        None => None,
    };
    Ok(FightPlan { proposed, detail, echo, spent_lantern })
}

/// How the store answered a commit.
#[derive(Clone, Copy, Debug, PartialEq, Eq, Structural)]
pub enum CommitOutcome {
    Applied,
    Conflict,
    MissingPlayer,
    MissingTunnel,
}

/// Decides what the answer to a commit means, once a spent lantern row was
/// taken from the inventory or found gone.
pub fn after_commit(outcome: CommitOutcome, spent_lantern: Option<i64>, lantern_taken: bool)
    -> (answer: Result<(), RepositoryError>)
    ensures
        answer == (match outcome {
            CommitOutcome::Applied => if spent_lantern is Some && !lantern_taken {
                Err::<(), RepositoryError>(RepositoryError::Conflict)
            } else {
                Ok::<(), RepositoryError>(())
            },
            CommitOutcome::Conflict => Err::<(), RepositoryError>(RepositoryError::Conflict),
            _ => Err::<(), RepositoryError>(RepositoryError::MissingTunnel),
        }),
{
    match outcome {
        CommitOutcome::Applied => {
            if spent_lantern.is_some() && !lantern_taken {
                Err(RepositoryError::Conflict)
            } else {
                Ok(())
            }
        },
        CommitOutcome::Conflict => Err(RepositoryError::Conflict),
        CommitOutcome::MissingPlayer => Err(RepositoryError::MissingTunnel),
        CommitOutcome::MissingTunnel => Err(RepositoryError::MissingTunnel),
    }
}

/// A tunnel that is read from a record and written back unchanged changes none
/// of its numbers.
pub proof fn law_unchanged_tunnel_keeps_the_numbers(loaded: LoadedView, revision: u64)
    requires
        tunnel_obstacle(loaded.snapshot) is None,
    ensures
        ({
            let before = loaded.snapshot;
            let after = record_of(before, fight_of(loaded, revision));
            &&& after.depth == before.depth
            &&& after.max_depth == before.max_depth
            &&& after.prestige_level == before.prestige_level
            &&& after.balance == before.balance
            &&& after.boss_attempts == before.boss_attempts
            &&& after.luminosity == before.luminosity
            &&& before.last_dig_at is Some ==> after.last_dig_at == before.last_dig_at
            &&& after.stat_points == before.stat_points
            &&& after.cheer_data_json == before.cheer_data_json
            &&& after.pinnacle_phase == before.pinnacle_phase
            &&& after.pinnacle_boss_id == before.pinnacle_boss_id
        }),
{
}

/// A tunnel that is read from a record and written back reads again as the same
/// tunnel, once the record that was written holds its progress and its curses.
pub proof fn law_written_tunnel_reads_again(loaded: LoadedView, written: LoadedView, revision: u64)
    requires
        tunnel_obstacle(loaded.snapshot) is None,
        written == (LoadedView {
            snapshot: record_of(loaded.snapshot, fight_of(loaded, revision)),
            ..loaded
        }),
        holds_tunnel(written.snapshot, fight_of(loaded, revision)),
    ensures
        tunnel_obstacle(written.snapshot) is None,
        fight_of(written, revision) == fight_of(loaded, revision),
{
    assert(fight_of(written, revision) =~= fight_of(loaded, revision));
}

/// A fight never changes the prestige or the pinnacle of a record, and its
/// stat points grow at most by the one point of a first clear.
pub proof fn law_fight_changes_only_its_own(loaded: LoadedView, commit: FightCommit, plan: FightPlan)
    requires
        is_fight_plan(loaded, commit, plan),
    ensures
        plan.proposed@.prestige_level == loaded.snapshot.prestige_level,
        plan.proposed@.pinnacle_boss_id == loaded.snapshot.pinnacle_boss_id,
        plan.proposed@.pinnacle_phase == loaded.snapshot.pinnacle_phase,
        !first_clear(loaded.snapshot, commit.next_tunnel@, audit_view(commit.audit))
            ==> plan.proposed@.stat_points == loaded.snapshot.stat_points,
{
}

} // verus!
