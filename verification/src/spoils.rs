//! What a regular fight leaves behind once it is settled: gear that broke, gear
//! and relics that dropped, and what failed on the way.

use crate::boss_service::{
    drops_loot, BrokenGearView, CatalogueArtifact, CatalogueArtifactView, DigBossBrokenGear,
    DigBossGearDrop, DigBossPrestigeRelicDrop, DigBossRuntimeResult, GearDropView,
    PrestigeRelicView,
};
use crate::combat::GearSlot;
use crate::text::{join2, texts};
use vstd::prelude::*;

verus! {

/// What the spoils of a fight are.
#[verifier::ext_equal]
pub struct SpoilsView {
    pub gear_drop: Option<GearDropView>,
    pub relic_drop: Option<PrestigeRelicView>,
    pub broken_gear: Seq<BrokenGearView>,
    pub warnings: Seq<Seq<char>>,
}

/// What a list of broken gear holds.
pub open spec fn broken_views(broken: Seq<DigBossBrokenGear>) -> Seq<BrokenGearView> {
    broken.map_values(|x: DigBossBrokenGear| x@)
}

/// The spoils that a result holds.
pub open spec fn spoils_of<T>(result: DigBossRuntimeResult<T>) -> SpoilsView {
    SpoilsView {
        gear_drop: match result.gear_drop {
            Some(drop) => Some(drop@),
            None => None,
        },
        relic_drop: match result.prestige_relic_drop {
            Some(drop) => Some(drop@),
            None => None,
        },
        broken_gear: broken_views(result.broken_gear@),
        warnings: texts(result.warnings@),
    }
}

/// Whether two results differ in their spoils only.
pub open spec fn same_but_spoils<T>(a: DigBossRuntimeResult<T>, b: DigBossRuntimeResult<T>)
    -> bool {
    &&& a.outcome == b.outcome
    &&& a.action_id == b.action_id
    &&& a.abandoned_action_id == b.abandoned_action_id
    &&& a.abandoned_wager_forfeit == b.abandoned_wager_forfeit
    &&& a.abandoned_gear_wear == b.abandoned_gear_wear
    &&& a.notices == b.notices
}

/// Spoils with one more warning.
pub open spec fn warned(spoils: SpoilsView, warning: Seq<char>) -> SpoilsView {
    SpoilsView { warnings: spoils.warnings.push(warning), ..spoils }
}

fn warn<T>(result: &mut DigBossRuntimeResult<T>, warning: String)
    ensures
        spoils_of(*final(result)) == warned(spoils_of(*old(result)), warning@),
        same_but_spoils(*final(result), *old(result)),
{
    let ghost before = spoils_of(*result);
    let ghost text = warning@;
    result.warnings.push(warning);
    assert(texts(result.warnings@) =~= before.warnings.push(text));
    assert(spoils_of(*result) =~= warned(before, text));
}

/// What the names of broken gear came back as.
#[derive(Debug)]
pub enum BrokenGearAnswer {
    Named(Vec<DigBossBrokenGear>),
    Failed(String),
}

/// Spoils once broken gear was asked about.
pub open spec fn with_broken(spoils: SpoilsView, answer: BrokenGearAnswer) -> SpoilsView {
    match answer {
        BrokenGearAnswer::Named(broken) => SpoilsView {
            broken_gear: spoils.broken_gear + broken_views(broken@),
            ..spoils
        },
        BrokenGearAnswer::Failed(error) => warned(
            spoils,
            "boss broken-gear projection failed: "@ + error@,
        ),
    }
}

/// Notes gear that broke.
pub fn note_broken_gear<T>(result: &mut DigBossRuntimeResult<T>, answer: BrokenGearAnswer)
    ensures
        spoils_of(*final(result)) == with_broken(spoils_of(*old(result)), answer),
        same_but_spoils(*final(result), *old(result)),
{
    let ghost before = spoils_of(*result);
    match answer {
        BrokenGearAnswer::Named(broken) => {
            let ghost added = broken_views(broken@);
            let mut i: usize = 0;
            assert(before.broken_gear + added.subrange(0, 0) =~= before.broken_gear);
            while i < broken.len()
                invariant
                    i <= broken.len(),
                    added == broken_views(broken@),
                    spoils_of(*result) == (SpoilsView {
                        broken_gear: before.broken_gear + added.subrange(0, i as int),
                        ..before
                    }),
                    same_but_spoils(*result, *old(result)),
                decreases broken.len() - i,
            {
                let ghost so_far = broken_views(result.broken_gear@);
                result.broken_gear.push(broken[i].clone());
                proof {
                    assert(broken_views(result.broken_gear@) =~= so_far.push(added[i as int]));
                    assert(added.subrange(0, i + 1) =~= added.subrange(0, i as int).push(
                        added[i as int],
                    ));
                    assert(before.broken_gear + added.subrange(0, i + 1) =~= so_far.push(
                        added[i as int],
                    ));
                }
                i = i + 1;
            }
            assert(added.subrange(0, i as int) =~= added);
        },
        BrokenGearAnswer::Failed(error) => {
            warn(result, join2("boss broken-gear projection failed: ", error.as_str()));
        },
    }
}

/// A piece of gear that was granted, or the failure to grant it.
#[derive(Debug)]
pub struct GearGrant {
    pub slot: GearSlot,
    pub tier: u8,
    pub name: String,
    /// The row that the store made.
    pub answer: Result<i64, String>,
}

/// Spoils once a piece of gear was to be granted.
pub open spec fn with_gear(spoils: SpoilsView, grant: GearGrant) -> SpoilsView {
    match grant.answer {
        Ok(gear_id) => SpoilsView {
            gear_drop: Some(
                GearDropView { gear_id, slot: grant.slot, tier: grant.tier, name: grant.name@ },
            ),
            ..spoils
        },
        Err(error) => warned(spoils, "boss gear drop failed: "@ + error@),
    }
}

/// Notes a piece of gear that dropped.
pub fn note_gear_drop<T>(result: &mut DigBossRuntimeResult<T>, grant: GearGrant)
    ensures
        spoils_of(*final(result)) == with_gear(spoils_of(*old(result)), grant),
        same_but_spoils(*final(result), *old(result)),
{
    match grant.answer {
        Ok(gear_id) => {
            result.gear_drop = Some(
                DigBossGearDrop { gear_id, slot: grant.slot, tier: grant.tier, name: grant.name },
            );
        },
        Err(error) => {
            warn(result, join2("boss gear drop failed: ", error.as_str()));
        },
    }
}

/// What became of the relic of a fight.
#[derive(Debug)]
pub enum RelicAnswer {
    /// None can drop, or the roll missed.
    Missed,
    /// The record of the player is gone.
    LostRecord,
    /// The record of the player cannot be read.
    RecordFailed(String),
    /// What the player owns cannot be read.
    OwnershipFailed(String),
    /// The relic was to be granted. The row is missing where somebody else
    /// granted it first.
    Granted { relic: CatalogueArtifact, answer: Result<Option<i64>, String> },
}

/// The drop of a relic that was granted a row.
pub open spec fn relic_drop_of(relic: CatalogueArtifactView, database_id: i64) -> PrestigeRelicView {
    PrestigeRelicView {
        database_id,
        artifact_id: relic.id,
        name: relic.name,
        rarity: relic.rarity,
    }
}

/// Spoils once a relic was to be granted.
pub open spec fn with_relic(spoils: SpoilsView, answer: RelicAnswer) -> SpoilsView {
    match answer {
        RelicAnswer::Missed => spoils,
        RelicAnswer::LostRecord => warned(
            spoils,
            "boss prestige-relic drop lost its tunnel snapshot"@,
        ),
        RelicAnswer::RecordFailed(error) => warned(
            spoils,
            "boss prestige-relic snapshot failed: "@ + error@,
        ),
        RelicAnswer::OwnershipFailed(error) => warned(
            spoils,
            "boss prestige-relic ownership failed: "@ + error@,
        ),
        RelicAnswer::Granted { relic, answer } => match answer {
            Ok(Some(database_id)) => SpoilsView {
                relic_drop: Some(relic_drop_of(relic@, database_id)),
                ..spoils
            },
            Ok(None) => spoils,
            Err(error) => warned(spoils, "boss prestige-relic drop failed: "@ + error@),
        },
    }
}

/// Notes a relic that dropped.
pub fn note_relic_drop<T>(result: &mut DigBossRuntimeResult<T>, answer: RelicAnswer)
    ensures
        spoils_of(*final(result)) == with_relic(spoils_of(*old(result)), answer),
        same_but_spoils(*final(result), *old(result)),
{
    match answer {
        RelicAnswer::Missed => {},
        RelicAnswer::LostRecord => {
            warn(result, "boss prestige-relic drop lost its tunnel snapshot".to_owned());
        },
        RelicAnswer::RecordFailed(error) => {
            warn(result, join2("boss prestige-relic snapshot failed: ", error.as_str()));
        },
        RelicAnswer::OwnershipFailed(error) => {
            warn(result, join2("boss prestige-relic ownership failed: ", error.as_str()));
        },
        RelicAnswer::Granted { relic, answer } => match answer {
            Ok(Some(database_id)) => {
                result.prestige_relic_drop = Some(
                    DigBossPrestigeRelicDrop {
                        database_id,
                        artifact_id: relic.id,
                        name: relic.name,
                        rarity: relic.rarity,
                    },
                );
            },
            Ok(None) => {},
            Err(error) => {
                warn(result, join2("boss prestige-relic drop failed: ", error.as_str()));
            },
        },
    }
}

/// How a regular fight ended, as far as its spoils go.
#[derive(Clone, Copy, Debug, PartialEq, Eq, Structural)]
pub struct FightEnd {
    pub committed: bool,
    pub won: bool,
    pub phase_changed: bool,
}

/// Whether a fight can drop something.
pub open spec fn leaves_loot(end: FightEnd) -> bool {
    end.committed && end.won && !end.phase_changed
}

/// The spoils of a fight: gear that broke in any case, and for a fight that is
/// stored and won for good the gear that was granted and then the relic.
pub open spec fn enriched(
    spoils: SpoilsView,
    end: FightEnd,
    broken: BrokenGearAnswer,
    gear: Option<GearGrant>,
    relic: RelicAnswer,
) -> SpoilsView {
    let worn = with_broken(spoils, broken);
    if leaves_loot(end) {
        with_relic(
            match gear {
                Some(grant) => with_gear(worn, grant),
                None => worn,
            },
            relic,
        )
    } else {
        worn
    }
}

/// Notes the spoils of a regular fight. `gear` is none where none dropped.
pub fn enrich_regular_resolution<T>(
    result: &mut DigBossRuntimeResult<T>,
    end: FightEnd,
    broken: BrokenGearAnswer,
    gear: Option<GearGrant>,
    relic: RelicAnswer,
)
    ensures
        spoils_of(*final(result)) == enriched(spoils_of(*old(result)), end, broken, gear, relic),
        same_but_spoils(*final(result), *old(result)),
{
    note_broken_gear(result, broken);
    if drops_loot(end.committed, end.won, end.phase_changed) {
        match gear {
            Some(grant) => {
                note_gear_drop(result, grant);
            },
            None => {},
        }
        note_relic_drop(result, relic);
    }
}

/// A lost fight, one that was not stored and one that only changed its phase
/// drop nothing.
pub proof fn law_only_victories_drop(
    spoils: SpoilsView,
    end: FightEnd,
    broken: BrokenGearAnswer,
    gear: Option<GearGrant>,
    relic: RelicAnswer,
)
    requires
        !end.committed || !end.won || end.phase_changed,
    ensures
        enriched(spoils, end, broken, gear, relic).gear_drop == spoils.gear_drop,
        enriched(spoils, end, broken, gear, relic).relic_drop == spoils.relic_drop,
{
}

/// A warning that was given is never taken back, whatever a store answers.
pub proof fn law_warnings_stay(
    spoils: SpoilsView,
    end: FightEnd,
    broken: BrokenGearAnswer,
    gear: Option<GearGrant>,
    relic: RelicAnswer,
)
    ensures
        spoils.warnings.is_prefix_of(enriched(spoils, end, broken, gear, relic).warnings),
{
}

} // verus!
