//! The record of a player at the bosses, and the revisions of it that a fight
//! has read.


use crate::text::{copy_text, same_text, text_view};
use vstd::prelude::*;

verus! {

/// Whose record it is.
#[derive(Clone, Copy, Debug, PartialEq, Eq, Structural)]
pub struct PlayerKey {
    pub player_id: i64,
    pub guild_id: i64,
}

/// The columns of a player that boss fights read and write.
#[derive(Debug, PartialEq, Eq)]
pub struct DigBossRuntimeSnapshot {
    pub balance: i64,
    pub depth: i64,
    pub max_depth: i64,
    pub prestige_level: i64,
    pub luminosity: i64,
    pub last_lum_update_at: Option<i64>,
    pub last_dig_at: Option<i64>,
    pub boss_attempts: i64,
    pub boss_progress_json: Option<String>,
    pub stinger_curse_json: Option<String>,
    pub cheer_data_json: Option<String>,
    pub stat_points: i64,
    pub stat_boss_awards_json: Option<String>,
    pub pinnacle_boss_id: Option<String>,
    pub pinnacle_phase: i64,
    pub pinnacle_hp_remaining: Option<i64>,
    pub pinnacle_last_engaged_at: Option<i64>,
}

/// What a [`DigBossRuntimeSnapshot`] holds.
#[verifier::ext_equal]
pub struct BossRecordView {
    pub balance: i64,
    pub depth: i64,
    pub max_depth: i64,
    pub prestige_level: i64,
    pub luminosity: i64,
    pub last_lum_update_at: Option<i64>,
    pub last_dig_at: Option<i64>,
    pub boss_attempts: i64,
    pub boss_progress_json: Option<Seq<char>>,
    pub stinger_curse_json: Option<Seq<char>>,
    pub cheer_data_json: Option<Seq<char>>,
    pub stat_points: i64,
    pub stat_boss_awards_json: Option<Seq<char>>,
    pub pinnacle_boss_id: Option<Seq<char>>,
    pub pinnacle_phase: i64,
    pub pinnacle_hp_remaining: Option<i64>,
    pub pinnacle_last_engaged_at: Option<i64>,
}

impl View for DigBossRuntimeSnapshot {
    type V = BossRecordView;

    open spec fn view(&self) -> BossRecordView {
        BossRecordView {
            balance: self.balance,
            depth: self.depth,
            max_depth: self.max_depth,
            prestige_level: self.prestige_level,
            luminosity: self.luminosity,
            last_lum_update_at: self.last_lum_update_at,
            last_dig_at: self.last_dig_at,
            boss_attempts: self.boss_attempts,
            boss_progress_json: text_view(self.boss_progress_json),
            stinger_curse_json: text_view(self.stinger_curse_json),
            cheer_data_json: text_view(self.cheer_data_json),
            stat_points: self.stat_points,
            stat_boss_awards_json: text_view(self.stat_boss_awards_json),
            pinnacle_boss_id: text_view(self.pinnacle_boss_id),
            pinnacle_phase: self.pinnacle_phase,
            pinnacle_hp_remaining: self.pinnacle_hp_remaining,
            pinnacle_last_engaged_at: self.pinnacle_last_engaged_at,
        }
    }
}

impl Clone for DigBossRuntimeSnapshot {
    fn clone(&self) -> (copy: DigBossRuntimeSnapshot)
        ensures
            copy == *self,
    {
        DigBossRuntimeSnapshot {
            balance: self.balance,
            depth: self.depth,
            max_depth: self.max_depth,
            prestige_level: self.prestige_level,
            luminosity: self.luminosity,
            last_lum_update_at: self.last_lum_update_at,
            last_dig_at: self.last_dig_at,
            boss_attempts: self.boss_attempts,
            boss_progress_json: copy_text(&self.boss_progress_json),
            stinger_curse_json: copy_text(&self.stinger_curse_json),
            cheer_data_json: copy_text(&self.cheer_data_json),
            stat_points: self.stat_points,
            stat_boss_awards_json: copy_text(&self.stat_boss_awards_json),
            pinnacle_boss_id: copy_text(&self.pinnacle_boss_id),
            pinnacle_phase: self.pinnacle_phase,
            pinnacle_hp_remaining: self.pinnacle_hp_remaining,
            pinnacle_last_engaged_at: self.pinnacle_last_engaged_at,
        }
    }
}

/// A record together with the lanterns in the inventory.
#[derive(Debug, PartialEq, Eq)]
pub struct LoadedBossSnapshot {
    pub snapshot: DigBossRuntimeSnapshot,
    pub lantern_ids: Vec<i64>,
    pub has_great_lantern: bool,
}

/// What a [`LoadedBossSnapshot`] holds.
#[verifier::ext_equal]
pub struct LoadedView {
    pub snapshot: BossRecordView,
    pub lantern_ids: Seq<i64>,
    pub has_great_lantern: bool,
}

impl View for LoadedBossSnapshot {
    type V = LoadedView;

    open spec fn view(&self) -> LoadedView {
        LoadedView {
            snapshot: self.snapshot@,
            lantern_ids: self.lantern_ids@,
            has_great_lantern: self.has_great_lantern,
        }
    }
}

impl Clone for LoadedBossSnapshot {
    fn clone(&self) -> (copy: LoadedBossSnapshot)
        ensures
            copy@ == self@,
    {
        let copy = LoadedBossSnapshot {
            snapshot: self.snapshot.clone(),
            lantern_ids: self.lantern_ids.clone(),
            has_great_lantern: self.has_great_lantern,
        };
        assert(copy@ =~= self@);
        copy
    }
}

fn same_optional(a: &Option<String>, b: &Option<String>) -> (same: bool)
    ensures
        same == (text_view(*a) == text_view(*b)),
{
    match (a, b) {
        (Some(a), Some(b)) => same_text(a.as_str(), b.as_str()),
        (None, None) => true,
        _ => false,
    }
}

/// Tells whether two records hold the same.
pub fn same_record(a: &DigBossRuntimeSnapshot, b: &DigBossRuntimeSnapshot) -> (same: bool)
    ensures
        same == (a@ == b@),
{
    a.balance == b.balance
        && a.depth == b.depth
        && a.max_depth == b.max_depth
        && a.prestige_level == b.prestige_level
        && a.luminosity == b.luminosity
        && a.last_lum_update_at == b.last_lum_update_at
        && a.last_dig_at == b.last_dig_at
        && a.boss_attempts == b.boss_attempts
        && same_optional(&a.boss_progress_json, &b.boss_progress_json)
        && same_optional(&a.stinger_curse_json, &b.stinger_curse_json)
        && same_optional(&a.cheer_data_json, &b.cheer_data_json)
        && a.stat_points == b.stat_points
        && same_optional(&a.stat_boss_awards_json, &b.stat_boss_awards_json)
        && same_optional(&a.pinnacle_boss_id, &b.pinnacle_boss_id)
        && a.pinnacle_phase == b.pinnacle_phase
        && a.pinnacle_hp_remaining == b.pinnacle_hp_remaining
        && a.pinnacle_last_engaged_at == b.pinnacle_last_engaged_at
}

fn same_ids(a: &Vec<i64>, b: &Vec<i64>) -> (same: bool)
    ensures
        same == (a@ == b@),
{
    if a.len() != b.len() {
        return false;
    }
    let mut i: usize = 0;
    while i < a.len()
        invariant
            i <= a.len(),
            a.len() == b.len(),
            forall|j: int| 0 <= j < i ==> #[trigger] a@[j] == b@[j],
        decreases a.len() - i,
    {
        if a[i] != b[i] {
            assert(a@[i as int] != b@[i as int]);
            return false;
        }
        i = i + 1;
    }
    assert(a@ =~= b@);
    true
}

/// Tells whether two loaded records hold the same.
pub fn same_loaded(a: &LoadedBossSnapshot, b: &LoadedBossSnapshot) -> (same: bool)
    ensures
        same == (a@ == b@),
{
    same_record(&a.snapshot, &b.snapshot) && same_ids(&a.lantern_ids, &b.lantern_ids)
        && a.has_great_lantern == b.has_great_lantern
}

/// The latest record that was read of a player.
#[derive(Debug)]
struct Latest {
    key: PlayerKey,
    loaded: LoadedBossSnapshot,
    revision: u64,
}

/// A record as it was read at a revision.
#[derive(Debug)]
struct Kept {
    key: PlayerKey,
    revision: u64,
    loaded: LoadedBossSnapshot,
}

spec fn latest_map(list: Seq<Latest>) -> Map<PlayerKey, (LoadedView, u64)>
    decreases list.len(),
{
    if list.len() == 0 {
        Map::empty()
    } else {
        latest_map(list.drop_last()).insert(
            list.last().key,
            (list.last().loaded@, list.last().revision),
        )
    }
}

spec fn kept_map(list: Seq<Kept>) -> Map<(PlayerKey, u64), LoadedView>
    decreases list.len(),
{
    if list.len() == 0 {
        Map::empty()
    } else {
        kept_map(list.drop_last()).insert(
            (list.last().key, list.last().revision),
            list.last().loaded@,
        )
    }
}

/// Remembers which record a revision stands for. A revision is the token by
/// which a fight names the record that it decided on.
#[derive(Debug)]
pub struct BossSnapshotCache {
    next_revision: u64,
    latest: Vec<Latest>,
    revisions: Vec<Kept>,
}

/// What a [`BossSnapshotCache`] remembers.
#[verifier::ext_equal]
pub struct CacheView {
    /// The revision that was given out last.
    pub next_revision: u64,
    pub latest: Map<PlayerKey, (LoadedView, u64)>,
    pub revisions: Map<(PlayerKey, u64), LoadedView>,
}

impl View for BossSnapshotCache {
    type V = CacheView;

    closed spec fn view(&self) -> CacheView {
        CacheView {
            next_revision: self.next_revision,
            latest: latest_map(self.latest@),
            revisions: kept_map(self.revisions@),
        }
    }
}

impl CacheView {
    /// The revision that a newly seen record gets.
    pub open spec fn fresh(self) -> u64 {
        if self.next_revision == u64::MAX {
            u64::MAX
        } else {
            (self.next_revision + 1) as u64
        }
    }

    /// Whether the latest record of a player holds the same.
    pub open spec fn knows(self, key: PlayerKey, loaded: LoadedView) -> bool {
        self.latest.dom().contains(key) && self.latest[key].0 == loaded
    }

    /// The revision of a record that is remembered.
    pub open spec fn revision_for(self, key: PlayerKey, loaded: LoadedView) -> u64 {
        if self.knows(key, loaded) {
            self.latest[key].1
        } else {
            self.fresh()
        }
    }

    /// The cache once the latest record of a player is forgotten.
    pub open spec fn forgetting(self, key: PlayerKey) -> CacheView {
        CacheView { latest: self.latest.remove(key), ..self }
    }

    /// The cache once a record is remembered.
    pub open spec fn remembering(self, key: PlayerKey, loaded: LoadedView) -> CacheView {
        if self.knows(key, loaded) {
            self
        } else {
            CacheView {
                next_revision: self.fresh(),
                latest: self.latest.insert(key, (loaded, self.fresh())),
                revisions: self.revisions.insert((key, self.fresh()), loaded),
            }
        }
    }
}

impl BossSnapshotCache {
    /// Remembers nothing.
    pub fn new() -> (cache: BossSnapshotCache)
        ensures
            cache@ == (CacheView {
                next_revision: 0,
                latest: Map::empty(),
                revisions: Map::empty(),
            }),
    {
        BossSnapshotCache { next_revision: 0, latest: Vec::new(), revisions: Vec::new() }
    }

    fn find_latest(&self, key: PlayerKey) -> (found: Option<usize>)
        ensures
            match found {
                Some(at) => at < self.latest.len() && self.latest@[at as int].key == key
                    && self@.latest.dom().contains(key) && self@.latest[key] == (
                    self.latest@[at as int].loaded@,
                    self.latest@[at as int].revision,
                ),
                None => !self@.latest.dom().contains(key),
            },
    {
        let ghost all = self.latest@;
        let mut i: usize = self.latest.len();
        assert(all.subrange(0, i as int) =~= all);
        while i > 0
            invariant
                i <= self.latest.len(),
                all == self.latest@,
                latest_map(all).dom().contains(key) == latest_map(
                    all.subrange(0, i as int),
                ).dom().contains(key),
                latest_map(all).dom().contains(key) ==> latest_map(all)[key] == latest_map(
                    all.subrange(0, i as int),
                )[key],
            decreases i,
        {
            i = i - 1;
            proof {
                let last = all.subrange(0, i + 1);
                assert(last.drop_last() =~= all.subrange(0, i as int));
                assert(last.last() == all[i as int]);
            }
            if self.latest[i].key == key {
                return Some(i);
            }
        }
        None
    }

    /// Remembers a record and names its revision. A record that holds the same
    /// as the latest one of its player keeps that one's revision.
    pub fn remember(&mut self, key: PlayerKey, loaded: LoadedBossSnapshot) -> (revision: u64)
        ensures
            final(self)@ == old(self)@.remembering(key, loaded@),
            revision == old(self)@.revision_for(key, loaded@),
    {
        match self.find_latest(key) {
            Some(at) => {
                if same_loaded(&self.latest[at].loaded, &loaded) {
                    return self.latest[at].revision;
                }
            },
            None => {},
        }
        let revision: u64 = if self.next_revision == u64::MAX {
            u64::MAX
        } else {
            self.next_revision + 1
        };
        self.next_revision = revision;
        let copy = loaded.clone();
        let ghost latest = self.latest@;
        let ghost kept = self.revisions@;
        self.latest.push(Latest { key, loaded: copy, revision });
        self.revisions.push(Kept { key, revision, loaded });
        proof {
            assert(self.latest@.drop_last() =~= latest);
            assert(self.revisions@.drop_last() =~= kept);
        }
        revision
    }

    /// The record that a revision of a player stands for.
    pub fn expected(&self, key: PlayerKey, revision: u64) -> (loaded: Option<&LoadedBossSnapshot>)
        ensures
            match loaded {
                Some(loaded) => self@.revisions.dom().contains((key, revision))
                    && self@.revisions[(key, revision)] == loaded@,
                None => !self@.revisions.dom().contains((key, revision)),
            },
    {
        let ghost all = self.revisions@;
        let mut i: usize = self.revisions.len();
        assert(all.subrange(0, i as int) =~= all);
        while i > 0
            invariant
                i <= self.revisions.len(),
                all == self.revisions@,
                kept_map(all).dom().contains((key, revision)) == kept_map(
                    all.subrange(0, i as int),
                ).dom().contains((key, revision)),
                kept_map(all).dom().contains((key, revision)) ==> kept_map(all)[(key, revision)]
                    == kept_map(all.subrange(0, i as int))[(key, revision)],
            decreases i,
        {
            i = i - 1;
            proof {
                let last = all.subrange(0, i + 1);
                assert(last.drop_last() =~= all.subrange(0, i as int));
                assert(last.last() == all[i as int]);
            }
            if self.revisions[i].key == key && self.revisions[i].revision == revision {
                return Some(&self.revisions[i].loaded);
            }
        }
        None
    }

    /// Forgets the latest record of a player. Its revisions stay known.
    pub fn invalidate(&mut self, key: PlayerKey)
        ensures
            final(self)@ == old(self)@.forgetting(key),
    {
        let mut taken: Vec<Latest> = Vec::new();
        std::mem::swap(&mut taken, &mut self.latest);
        let ghost before = taken@;
        let mut kept: Vec<Latest> = Vec::new();
        let mut rest: Vec<Latest> = taken;
        assert(before.subrange(0, 0) =~= Seq::empty());
        assert(latest_map(kept@) =~= latest_map(before.subrange(0, 0)).remove(key));
        let ghost mut at: int = 0;
        while rest.len() > 0
            invariant
                0 <= at <= before.len(),
                rest@ == before.subrange(at, before.len() as int),
                latest_map(kept@) == latest_map(before.subrange(0, at)).remove(key),
            decreases rest.len(),
        {
            let entry = rest.remove(0);
            let ghost next = before.subrange(0, at + 1);
            proof {
                assert(next.drop_last() =~= before.subrange(0, at));
                assert(next.last() == entry);
                assert(rest@ =~= before.subrange(at + 1, before.len() as int));
            }
            if entry.key == key {
                assert(latest_map(kept@) =~= latest_map(next).remove(key));
            } else {
                let ghost old_kept = kept@;
                kept.push(entry);
                proof {
                    assert(kept@.drop_last() =~= old_kept);
                    assert(latest_map(kept@) =~= latest_map(next).remove(key));
                }
            }
            proof {
                at = at + 1;
            }
        }
        assert(before.subrange(0, at) =~= before);
        self.latest = kept;
    }
}

/// The revision that a record is remembered under stands for that record.
pub proof fn law_revision_stands_for_its_record(
    cache: CacheView,
    key: PlayerKey,
    loaded: LoadedView,
)
    requires
        cache.latest.dom().contains(key) ==> cache.revisions.dom().contains(
            (key, cache.latest[key].1),
        ) && cache.revisions[(key, cache.latest[key].1)] == cache.latest[key].0,
    ensures
        ({
            let after = cache.remembering(key, loaded);
            let revision = cache.revision_for(key, loaded);
            &&& after.revisions.dom().contains((key, revision))
            &&& after.revisions[(key, revision)] == loaded
            &&& after.latest.dom().contains(key)
            &&& after.revisions.dom().contains((key, after.latest[key].1))
            &&& after.revisions[(key, after.latest[key].1)] == after.latest[key].0
        }),
{
}

/// Remembering the same record again changes nothing and gives the same
/// revision.
pub proof fn law_same_record_keeps_its_revision(
    cache: CacheView,
    key: PlayerKey,
    loaded: LoadedView,
)
    ensures
        ({
            let after = cache.remembering(key, loaded);
            &&& after.remembering(key, loaded) == after
            &&& after.revision_for(key, loaded) == cache.revision_for(key, loaded)
        }),
{
}

/// Until the counter is used up, a record that differs gets a revision that no
/// record had, and the earlier revisions keep their records.
pub proof fn law_changed_record_gets_a_new_revision(
    cache: CacheView,
    key: PlayerKey,
    loaded: LoadedView,
    earlier: (PlayerKey, u64),
)
    requires
        cache.next_revision < u64::MAX,
        !cache.knows(key, loaded),
        forall|r: (PlayerKey, u64)| #[trigger]
            cache.revisions.dom().contains(r) ==> r.1 <= cache.next_revision,
        cache.revisions.dom().contains(earlier),
    ensures
        cache.revision_for(key, loaded) > cache.next_revision,
        cache.remembering(key, loaded).revisions[earlier] == cache.revisions[earlier],
{
}

} // verus!
