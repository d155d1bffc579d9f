//! A staged copy of a snapshot that loot rules read and change. Nothing is
//! stored until the caller commits the staged snapshot.

use crate::arith::{nearest, sat_add};
use crate::condition::{column_tree, injury_is, injury_reduces_advance};
use crate::snapshot::{
    ArtifactView, DigRuntimeArtifact, DigRuntimeInventoryItem, DigRuntimeSnapshot, ItemView,
    SnapshotView, TunnelView,
};
use crate::text::{borrow_text, copy_text, same_text, text_view, texts};
use vstd::prelude::*;

verus! {

/// The part of a tunnel that loot rules read and write.
#[derive(Debug, PartialEq, Eq)]
pub struct TunnelLootState {
    pub depth: i64,
    pub luminosity: i64,
    pub injured: bool,
    pub hard_hat_charges: i64,
    pub reinforced_until: i64,
    pub void_bait_digs: i64,
    pub sonar_skip_pending: bool,
    pub grappling_hook_charges: i64,
    pub temp_buff: Option<String>,
}

/// What a [`TunnelLootState`] holds.
#[verifier::ext_equal]
pub struct LootStateView {
    pub depth: i64,
    pub luminosity: i64,
    pub injured: bool,
    pub hard_hat_charges: i64,
    pub reinforced_until: i64,
    pub void_bait_digs: i64,
    pub sonar_skip_pending: bool,
    pub grappling_hook_charges: i64,
    pub temp_buff: Option<Seq<char>>,
}

impl View for TunnelLootState {
    type V = LootStateView;

    open spec fn view(&self) -> LootStateView {
        LootStateView {
            depth: self.depth,
            luminosity: self.luminosity,
            injured: self.injured,
            hard_hat_charges: self.hard_hat_charges,
            reinforced_until: self.reinforced_until,
            void_bait_digs: self.void_bait_digs,
            sonar_skip_pending: self.sonar_skip_pending,
            grappling_hook_charges: self.grappling_hook_charges,
            temp_buff: text_view(self.temp_buff),
        }
    }
}

impl Clone for TunnelLootState {
    fn clone(&self) -> (copy: TunnelLootState)
        ensures
            copy == *self,
    {
        TunnelLootState {
            depth: self.depth,
            luminosity: self.luminosity,
            injured: self.injured,
            hard_hat_charges: self.hard_hat_charges,
            reinforced_until: self.reinforced_until,
            void_bait_digs: self.void_bait_digs,
            sonar_skip_pending: self.sonar_skip_pending,
            grappling_hook_charges: self.grappling_hook_charges,
            temp_buff: copy_text(&self.temp_buff),
        }
    }
}

/// An inventory row with its owner.
#[derive(Debug, PartialEq, Eq)]
pub struct InventoryItem {
    pub id: i64,
    pub discord_id: i64,
    pub guild_id: i64,
    pub item_type: String,
    pub queued: bool,
}

/// What a [`InventoryItem`] holds.
#[verifier::ext_equal]
pub struct OwnedItemView {
    pub id: i64,
    pub discord_id: i64,
    pub guild_id: i64,
    pub item_type: Seq<char>,
    pub queued: bool,
}

impl View for InventoryItem {
    type V = OwnedItemView;

    open spec fn view(&self) -> OwnedItemView {
        OwnedItemView {
            id: self.id,
            discord_id: self.discord_id,
            guild_id: self.guild_id,
            item_type: self.item_type@,
            queued: self.queued,
        }
    }
}

impl Clone for InventoryItem {
    fn clone(&self) -> (copy: InventoryItem)
        ensures
            copy == *self,
    {
        InventoryItem {
            id: self.id,
            discord_id: self.discord_id,
            guild_id: self.guild_id,
            item_type: self.item_type.clone(),
            queued: self.queued,
        }
    }
}

/// An artifact row with its owner.
#[derive(Debug, PartialEq, Eq)]
pub struct Artifact {
    pub id: i64,
    pub discord_id: i64,
    pub guild_id: i64,
    pub artifact_id: String,
    pub is_relic: bool,
    pub equipped: bool,
}

/// What a [`Artifact`] holds.
#[verifier::ext_equal]
pub struct OwnedArtifactView {
    pub id: i64,
    pub discord_id: i64,
    pub guild_id: i64,
    pub artifact_id: Seq<char>,
    pub is_relic: bool,
    pub equipped: bool,
}

impl View for Artifact {
    type V = OwnedArtifactView;

    open spec fn view(&self) -> OwnedArtifactView {
        OwnedArtifactView {
            id: self.id,
            discord_id: self.discord_id,
            guild_id: self.guild_id,
            artifact_id: self.artifact_id@,
            is_relic: self.is_relic,
            equipped: self.equipped,
        }
    }
}

impl Clone for Artifact {
    fn clone(&self) -> (copy: Artifact)
        ensures
            copy == *self,
    {
        Artifact {
            id: self.id,
            discord_id: self.discord_id,
            guild_id: self.guild_id,
            artifact_id: self.artifact_id.clone(),
            is_relic: self.is_relic,
            equipped: self.equipped,
        }
    }
}

/// Why a staged change was refused.
#[derive(Clone, Copy, Debug, PartialEq, Eq, Structural)]
pub enum RepositoryError {
    InsufficientFunds,
    MissingItem,
    InvalidArtifact,
}

/// The largest identifier of a list.
pub open spec fn largest(ids: Seq<i64>) -> Option<i64>
    decreases ids.len(),
{
    if ids.len() == 0 {
        None
    } else {
        match largest(ids.drop_last()) {
            Some(best) => Some(
                if ids.last() >= best {
                    ids.last()
                } else {
                    best
                },
            ),
            None => Some(ids.last()),
        }
    }
}

/// The identifier after the largest one, counting from one.
pub open spec fn next_id(ids: Seq<i64>) -> i64 {
    match largest(ids) {
        Some(best) => nearest(best + 1),
        None => 1,
    }
}

/// The identifiers of inventory rows.
pub open spec fn item_ids(items: Seq<ItemView>) -> Seq<i64> {
    items.map_values(|item: ItemView| item.id)
}

/// The identifiers of artifact rows.
pub open spec fn artifact_ids(artifacts: Seq<ArtifactView>) -> Seq<i64> {
    artifacts.map_values(|artifact: ArtifactView| artifact.id)
}

/// What a list of inventory rows holds.
pub open spec fn item_views(items: Seq<DigRuntimeInventoryItem>) -> Seq<ItemView> {
    items.map_values(|x: DigRuntimeInventoryItem| x@)
}

/// What a list of artifact rows holds.
pub open spec fn artifact_views(artifacts: Seq<DigRuntimeArtifact>) -> Seq<ArtifactView> {
    artifacts.map_values(|x: DigRuntimeArtifact| x@)
}

/// The place of the first inventory row with an identifier.
pub open spec fn item_place(items: Seq<ItemView>, id: i64) -> Option<int>
    decreases items.len(),
{
    if items.len() == 0 {
        None
    } else {
        match item_place(items.drop_last(), id) {
            Some(place) => Some(place),
            None => if items.last().id == id {
                Some(items.len() - 1)
            } else {
                None
            },
        }
    }
}

/// The place of the first relic with an identifier.
pub open spec fn relic_place(artifacts: Seq<ArtifactView>, id: i64) -> Option<int>
    decreases artifacts.len(),
{
    if artifacts.len() == 0 {
        None
    } else {
        match relic_place(artifacts.drop_last(), id) {
            Some(place) => Some(place),
            None => if artifacts.last().id == id && artifacts.last().is_relic {
                Some(artifacts.len() - 1)
            } else {
                None
            },
        }
    }
}

/// Whether a row of this kind is already queued.
pub open spec fn kind_is_queued(items: Seq<ItemView>, item_type: Seq<char>) -> bool {
    exists|i: int| 0 <= i < items.len() && (#[trigger] items[i]).queued && items[i].item_type == item_type
}

/// Whether the row with this identifier is there and queued.
pub open spec fn is_queued(items: Seq<ItemView>, id: i64) -> bool {
    exists|i: int| 0 <= i < items.len() && (#[trigger] items[i]).id == id && items[i].queued
}

/// The rows whose identifiers are not in a list, in their order.
pub open spec fn rows_without(items: Seq<ItemView>, ids: Seq<i64>) -> Seq<ItemView>
    decreases items.len(),
{
    if items.len() == 0 {
        Seq::empty()
    } else if ids.contains(items.last().id) {
        rows_without(items.drop_last(), ids)
    } else {
        rows_without(items.drop_last(), ids).push(items.last())
    }
}

/// The rows of known kinds with their owner, in their order.
pub open spec fn owned_items(
    items: Seq<ItemView>,
    discord_id: i64,
    guild_id: i64,
    known: Seq<Seq<char>>,
) -> Seq<OwnedItemView>
    decreases items.len(),
{
    if items.len() == 0 {
        Seq::empty()
    } else {
        let rest = owned_items(items.drop_last(), discord_id, guild_id, known);
        let item = items.last();
        if known.contains(item.item_type) {
            rest.push(
                OwnedItemView {
                    id: item.id,
                    discord_id,
                    guild_id,
                    item_type: item.item_type,
                    queued: item.queued,
                },
            )
        } else {
            rest
        }
    }
}

/// A tunnel with the loot part replaced.
pub open spec fn tunnel_with_loot(tunnel: TunnelView, loot: LootStateView) -> TunnelView {
    TunnelView {
        depth: loot.depth,
        luminosity: loot.luminosity,
        hard_hat_charges: loot.hard_hat_charges,
        reinforced_until: loot.reinforced_until,
        void_bait_digs: loot.void_bait_digs,
        sonar_skip_pending: loot.sonar_skip_pending,
        grappling_hook_charges: loot.grappling_hook_charges,
        temp_buffs: loot.temp_buff,
        ..tunnel
    }
}

/// A snapshot with the loot part of its tunnel replaced, where it has one.
pub open spec fn snapshot_with_loot(snapshot: SnapshotView, loot: LootStateView) -> SnapshotView {
    SnapshotView {
        tunnel: match snapshot.tunnel {
            Some(tunnel) => Some(tunnel_with_loot(tunnel, loot)),
            None => None,
        },
        ..snapshot
    }
}

/// The loot part of a tunnel.
pub open spec fn loot_of(tunnel: TunnelView) -> LootStateView {
    LootStateView {
        depth: tunnel.depth,
        luminosity: tunnel.luminosity,
        injured: injury_is(column_tree(tunnel.injury_state), "reduced_advance"@),
        hard_hat_charges: tunnel.hard_hat_charges,
        reinforced_until: tunnel.reinforced_until,
        void_bait_digs: tunnel.void_bait_digs,
        sonar_skip_pending: tunnel.sonar_skip_pending,
        grappling_hook_charges: tunnel.grappling_hook_charges,
        temp_buff: tunnel.temp_buffs,
    }
}

/// A snapshot after buying one row of a kind.
pub open spec fn after_purchase(
    snapshot: SnapshotView,
    item_type: Seq<char>,
    cost: i64,
    queued: bool,
) -> SnapshotView {
    SnapshotView {
        balance: (snapshot.balance - cost) as i64,
        inventory: snapshot.inventory.push(
            ItemView { id: next_id(item_ids(snapshot.inventory)), item_type, queued },
        ),
        ..snapshot
    }
}

/// A snapshot once a row is queued, where there is one and none of its kind is
/// queued yet.
pub open spec fn after_queueing(snapshot: SnapshotView, item_id: i64) -> Option<SnapshotView> {
    match item_place(snapshot.inventory, item_id) {
        Some(place) => if kind_is_queued(snapshot.inventory, snapshot.inventory[place].item_type) {
            None
        } else {
            Some(
                SnapshotView {
                    inventory: snapshot.inventory.update(
                        place,
                        ItemView { queued: true, ..snapshot.inventory[place] },
                    ),
                    ..snapshot
                },
            )
        },
        None => None,
    }
}

/// A snapshot once rows are used up and the tunnel shows what they did.
pub open spec fn after_use(snapshot: SnapshotView, loot: LootStateView, ids: Seq<i64>)
    -> SnapshotView {
    snapshot_with_loot(
        SnapshotView { inventory: rows_without(snapshot.inventory, ids), ..snapshot },
        loot,
    )
}

/// A snapshot once an artifact is found.
pub open spec fn with_artifact(snapshot: SnapshotView, artifact_id: Seq<char>, is_relic: bool)
    -> SnapshotView {
    SnapshotView {
        artifacts: snapshot.artifacts.push(
            ArtifactView {
                id: next_id(artifact_ids(snapshot.artifacts)),
                artifact_id,
                is_relic,
                equipped: false,
            },
        ),
        ..snapshot
    }
}

/// A snapshot once a relic is taken off to be given away, where there is such a relic.
pub open spec fn after_gift(snapshot: SnapshotView, id: i64) -> Option<SnapshotView> {
    match relic_place(snapshot.artifacts, id) {
        Some(place) => Some(
            SnapshotView {
                artifacts: snapshot.artifacts.update(
                    place,
                    ArtifactView { equipped: false, ..snapshot.artifacts[place] },
                ),
                ..snapshot
            },
        ),
        None => None,
    }
}

/// A deterministic stage over one snapshot.
#[derive(Debug)]
pub struct DigRuntimeLootRepository {
    snapshot: DigRuntimeSnapshot,
}

impl View for DigRuntimeLootRepository {
    type V = SnapshotView;

    closed spec fn view(&self) -> SnapshotView {
        self.snapshot@
    }
}

fn largest_item_id(items: &Vec<DigRuntimeInventoryItem>) -> (best: Option<i64>)
    ensures
        best == largest(item_ids(item_views(items@))),
{
    let ghost ids = item_ids(item_views(items@));
    let mut best: Option<i64> = None;
    let mut i: usize = 0;
    while i < items.len()
        invariant
            i <= items.len(),
            ids == item_ids(item_views(items@)),
            best == largest(ids.subrange(0, i as int)),
        decreases items.len() - i,
    {
        let id = items[i].id;
        proof {
            let next = ids.subrange(0, i + 1);
            assert(next.drop_last() =~= ids.subrange(0, i as int));
            assert(next.last() == id);
        }
        best = match best {
            Some(found) => Some(
                if id >= found {
                    id
                } else {
                    found
                },
            ),
            None => Some(id),
        };
        i = i + 1;
    }
    assert(ids.subrange(0, i as int) =~= ids);
    best
}

fn largest_artifact_id(artifacts: &Vec<DigRuntimeArtifact>) -> (best: Option<i64>)
    ensures
        best == largest(artifact_ids(artifact_views(artifacts@))),
{
    let ghost ids = artifact_ids(artifact_views(artifacts@));
    let mut best: Option<i64> = None;
    let mut i: usize = 0;
    while i < artifacts.len()
        invariant
            i <= artifacts.len(),
            ids == artifact_ids(artifact_views(artifacts@)),
            best == largest(ids.subrange(0, i as int)),
        decreases artifacts.len() - i,
    {
        let id = artifacts[i].id;
        proof {
            let next = ids.subrange(0, i + 1);
            assert(next.drop_last() =~= ids.subrange(0, i as int));
            assert(next.last() == id);
        }
        best = match best {
            Some(found) => Some(
                if id >= found {
                    id
                } else {
                    found
                },
            ),
            None => Some(id),
        };
        i = i + 1;
    }
    assert(ids.subrange(0, i as int) =~= ids);
    best
}

/// Whether a list of texts holds one.
pub fn list_has(list: &Vec<String>, wanted: &str) -> (answer: bool)
    ensures
        answer == texts(list@).contains(wanted@),
{
    let mut i: usize = 0;
    while i < list.len()
        invariant
            i <= list.len(),
            forall|j: int| 0 <= j < i ==> (#[trigger] list@[j])@ != wanted@,
        decreases list.len() - i,
    {
        if same_text(list[i].as_str(), wanted) {
            assert(texts(list@)[i as int] == wanted@);
            return true;
        }
        i = i + 1;
    }
    proof {
        if texts(list@).contains(wanted@) {
            let j = choose|j: int| 0 <= j < texts(list@).len() && texts(list@)[j] == wanted@;
            assert(list@[j]@ == wanted@);
        }
    }
    false
}

/// Whether a list of identifiers holds one.
pub fn has_id(ids: &Vec<i64>, wanted: i64) -> (answer: bool)
    ensures
        answer == ids@.contains(wanted),
{
    let mut i: usize = 0;
    while i < ids.len()
        invariant
            i <= ids.len(),
            forall|j: int| 0 <= j < i ==> #[trigger] ids@[j] != wanted,
        decreases ids.len() - i,
    {
        if ids[i] == wanted {
            assert(ids@[i as int] == wanted);
            return true;
        }
        i = i + 1;
    }
    false
}

fn find_item(items: &Vec<DigRuntimeInventoryItem>, id: i64) -> (place: Option<usize>)
    ensures
        match place {
            Some(place) => place < items.len() && item_place(item_views(items@), id) == Some(
                place as int,
            ) && items@[place as int].id == id,
            None => item_place(item_views(items@), id) is None,
        },
{
    let ghost views = item_views(items@);
    let mut i: usize = 0;
    while i < items.len()
        invariant
            i <= items.len(),
            views == item_views(items@),
            item_place(views.subrange(0, i as int), id) is None,
        decreases items.len() - i,
    {
        proof {
            let next = views.subrange(0, i + 1);
            assert(next.drop_last() =~= views.subrange(0, i as int));
            assert(next.last() == items@[i as int]@);
        }
        if items[i].id == id {
            proof {
                lemma_place_prefix(views, id, i + 1);
            }
            return Some(i);
        }
        i = i + 1;
    }
    assert(views.subrange(0, i as int) =~= views);
    None
}

proof fn lemma_place_prefix(items: Seq<ItemView>, id: i64, n: int)
    requires
        0 <= n <= items.len(),
        item_place(items.subrange(0, n), id) is Some,
    ensures
        item_place(items, id) == item_place(items.subrange(0, n), id),
    decreases items.len(),
{
    if n == items.len() {
        assert(items.subrange(0, n) =~= items);
    } else {
        assert(items.drop_last().subrange(0, n) =~= items.subrange(0, n));
        lemma_place_prefix(items.drop_last(), id, n);
    }
}

fn find_relic(artifacts: &Vec<DigRuntimeArtifact>, id: i64) -> (place: Option<usize>)
    ensures
        match place {
            Some(place) => place < artifacts.len() && relic_place(
                artifact_views(artifacts@),
                id,
            ) == Some(place as int),
            None => relic_place(artifact_views(artifacts@), id) is None,
        },
{
    let ghost views = artifact_views(artifacts@);
    let mut i: usize = 0;
    while i < artifacts.len()
        invariant
            i <= artifacts.len(),
            views == artifact_views(artifacts@),
            relic_place(views.subrange(0, i as int), id) is None,
        decreases artifacts.len() - i,
    {
        proof {
            let next = views.subrange(0, i + 1);
            assert(next.drop_last() =~= views.subrange(0, i as int));
            assert(next.last() == artifacts@[i as int]@);
        }
        if artifacts[i].id == id && artifacts[i].is_relic {
            proof {
                lemma_relic_prefix(views, id, i + 1);
            }
            return Some(i);
        }
        i = i + 1;
    }
    assert(views.subrange(0, i as int) =~= views);
    None
}

proof fn lemma_relic_prefix(artifacts: Seq<ArtifactView>, id: i64, n: int)
    requires
        0 <= n <= artifacts.len(),
        relic_place(artifacts.subrange(0, n), id) is Some,
    ensures
        relic_place(artifacts, id) == relic_place(artifacts.subrange(0, n), id),
    decreases artifacts.len(),
{
    if n == artifacts.len() {
        assert(artifacts.subrange(0, n) =~= artifacts);
    } else {
        assert(artifacts.drop_last().subrange(0, n) =~= artifacts.subrange(0, n));
        lemma_relic_prefix(artifacts.drop_last(), id, n);
    }
}

/// Tells whether a row of this kind is already queued.
pub fn any_queued_kind(items: &Vec<DigRuntimeInventoryItem>, item_type: &str) -> (answer: bool)
    ensures
        answer == kind_is_queued(item_views(items@), item_type@),
{
    let ghost views = item_views(items@);
    let mut i: usize = 0;
    while i < items.len()
        invariant
            i <= items.len(),
            views == item_views(items@),
            forall|j: int|
                0 <= j < i ==> !((#[trigger] views[j]).queued && views[j].item_type == item_type@),
        decreases items.len() - i,
    {
        assert(views[i as int] == items@[i as int]@);
        if items[i].queued && same_text(items[i].item_type.as_str(), item_type) {
            return true;
        }
        i = i + 1;
    }
    false
}

fn queued_row(items: &Vec<DigRuntimeInventoryItem>, id: i64) -> (answer: bool)
    ensures
        answer == is_queued(item_views(items@), id),
{
    let ghost views = item_views(items@);
    let mut i: usize = 0;
    while i < items.len()
        invariant
            i <= items.len(),
            views == item_views(items@),
            forall|j: int| 0 <= j < i ==> !((#[trigger] views[j]).id == id && views[j].queued),
        decreases items.len() - i,
    {
        assert(views[i as int] == items@[i as int]@);
        if items[i].id == id && items[i].queued {
            return true;
        }
        i = i + 1;
    }
    false
}

fn keep_rows(items: &Vec<DigRuntimeInventoryItem>, ids: &Vec<i64>) -> (kept: Vec<
    DigRuntimeInventoryItem,
>)
    ensures
        item_views(kept@) == rows_without(item_views(items@), ids@),
{
    let ghost views = item_views(items@);
    let mut kept: Vec<DigRuntimeInventoryItem> = Vec::new();
    assert(item_views(kept@) =~= Seq::empty());
    let mut i: usize = 0;
    while i < items.len()
        invariant
            i <= items.len(),
            views == item_views(items@),
            item_views(kept@) == rows_without(views.subrange(0, i as int), ids@),
        decreases items.len() - i,
    {
        proof {
            let next = views.subrange(0, i + 1);
            assert(next.drop_last() =~= views.subrange(0, i as int));
            assert(next.last() == items@[i as int]@);
        }
        if !has_id(ids, items[i].id) {
            let ghost before = item_views(kept@);
            kept.push(items[i].clone());
            assert(item_views(kept@) =~= before.push(items@[i as int]@));
        }
        i = i + 1;
    }
    assert(views.subrange(0, i as int) =~= views);
    kept
}

impl DigRuntimeLootRepository {
    /// Stages a snapshot.
    pub fn new(snapshot: DigRuntimeSnapshot) -> (repository: DigRuntimeLootRepository)
        ensures
            repository@ == snapshot@,
    {
        DigRuntimeLootRepository { snapshot }
    }

    /// The staged snapshot.
    pub fn snapshot(&self) -> (snapshot: &DigRuntimeSnapshot)
        ensures
            snapshot@ == self@,
    {
        &self.snapshot
    }

    /// Gives the staged snapshot up.
    pub fn into_snapshot(self) -> (snapshot: DigRuntimeSnapshot)
        ensures
            snapshot@ == self@,
    {
        self.snapshot
    }

    /// Whether the player has a tunnel.
    pub fn has_tunnel(&self) -> (answer: bool)
        ensures
            answer == self@.tunnel is Some,
    {
        self.snapshot.tunnel.is_some()
    }

    /// The loot part of the tunnel.
    pub fn tunnel(&self) -> (loot: Option<TunnelLootState>)
        ensures
            match self@.tunnel {
                Some(tunnel) => loot is Some && loot->0@ == loot_of(tunnel),
                None => loot is None,
            },
    {
        match &self.snapshot.tunnel {
            Some(tunnel) => Some(
                TunnelLootState {
                    depth: tunnel.depth,
                    luminosity: tunnel.luminosity,
                    injured: injury_reduces_advance(borrow_text(&tunnel.injury_state)),
                    hard_hat_charges: tunnel.hard_hat_charges,
                    reinforced_until: tunnel.reinforced_until,
                    void_bait_digs: tunnel.void_bait_digs,
                    sonar_skip_pending: tunnel.sonar_skip_pending,
                    grappling_hook_charges: tunnel.grappling_hook_charges,
                    temp_buff: copy_text(&tunnel.temp_buffs),
                },
            ),
            None => None,
        }
    }

    /// Writes the loot part of the tunnel back.
    pub fn set_tunnel(&mut self, loot: TunnelLootState)
        ensures
            final(self)@ == snapshot_with_loot(old(self)@, loot@),
    {
        let ghost before = self@;
        match self.snapshot.tunnel.take() {
            Some(taken) => {
                let mut tunnel = taken;
                tunnel.depth = loot.depth;
                tunnel.luminosity = loot.luminosity;
                tunnel.hard_hat_charges = loot.hard_hat_charges;
                tunnel.reinforced_until = loot.reinforced_until;
                tunnel.void_bait_digs = loot.void_bait_digs;
                tunnel.sonar_skip_pending = loot.sonar_skip_pending;
                tunnel.grappling_hook_charges = loot.grappling_hook_charges;
                tunnel.temp_buffs = loot.temp_buff;
                assert(tunnel@ =~= tunnel_with_loot(taken@, loot@));
                self.snapshot.tunnel = Some(tunnel);
            },
            None => {},
        }
        assert(self@ =~= snapshot_with_loot(before, loot@));
    }

    /// The wallet.
    pub fn balance(&self) -> (balance: i64)
        ensures
            balance == self@.balance,
    {
        self.snapshot.balance
    }

    /// The inventory rows whose kinds are in the catalogue.
    pub fn inventory(&self, discord_id: i64, guild_id: i64, known: &Vec<String>) -> (items: Vec<
        InventoryItem,
    >)
        ensures
            items@.map_values(|x: InventoryItem| x@) == owned_items(
                self@.inventory,
                discord_id,
                guild_id,
                texts(known@),
            ),
    {
        let rows = &self.snapshot.inventory;
        let ghost views = item_views(rows@);
        let mut items: Vec<InventoryItem> = Vec::new();
        assert(items@.map_values(|x: InventoryItem| x@) =~= Seq::empty());
        let mut i: usize = 0;
        while i < rows.len()
            invariant
                i <= rows.len(),
                views == item_views(rows@),
                items@.map_values(|x: InventoryItem| x@) == owned_items(
                    views.subrange(0, i as int),
                    discord_id,
                    guild_id,
                    texts(known@),
                ),
            decreases rows.len() - i,
        {
            proof {
                let next = views.subrange(0, i + 1);
                assert(next.drop_last() =~= views.subrange(0, i as int));
                assert(next.last() == rows@[i as int]@);
            }
            if list_has(known, rows[i].item_type.as_str()) {
                let ghost before = items@;
                let item = InventoryItem {
                    id: rows[i].id,
                    discord_id,
                    guild_id,
                    item_type: rows[i].item_type.clone(),
                    queued: rows[i].queued,
                };
                items.push(item);
                assert(items@.map_values(|x: InventoryItem| x@) =~= before.map_values(
                    |x: InventoryItem| x@,
                ).push(item@));
            }
            i = i + 1;
        }
        assert(views.subrange(0, i as int) =~= views);
        items
    }

    /// Buys one row: the wallet pays `cost` and the row gets a new identifier.
    pub fn atomic_buy_item(&mut self, item_type: &str, cost: i64, queued: bool) -> (bought: Result<
        i64,
        RepositoryError,
    >)
        requires
            old(self)@.balance >= cost ==> old(self)@.balance - cost <= i64::MAX,
        ensures
            match bought {
                Ok(id) => {
                    &&& old(self)@.balance >= cost
                    &&& id == next_id(item_ids(old(self)@.inventory))
                    &&& final(self)@ == after_purchase(old(self)@, item_type@, cost, queued)
                },
                Err(error) => {
                    &&& old(self)@.balance < cost
                    &&& error == RepositoryError::InsufficientFunds
                    &&& final(self)@ == old(self)@
                },
            },
    {
        let ghost before = self@;
        if self.snapshot.balance < cost {
            return Err(RepositoryError::InsufficientFunds);
        }
        let id = match largest_item_id(&self.snapshot.inventory) {
            Some(best) => sat_add(best, 1),
            None => 1,
        };
        let row = DigRuntimeInventoryItem { id, item_type: item_type.to_owned(), queued };
        self.snapshot.balance = self.snapshot.balance - cost;
        self.snapshot.inventory.push(row);
        proof {
            assert(self@.inventory =~= before.inventory.push(row@));
            assert(self@ =~= after_purchase(before, item_type@, cost, queued));
        }
        Ok(id)
    }

    /// Queues the first row with an identifier, unless a row of its kind is
    /// queued already.
    pub fn queue_item(&mut self, item_id: i64) -> (queued: Result<(), RepositoryError>)
        ensures
            ({
                match queued {
                    Ok(_) => after_queueing(old(self)@, item_id) == Some(final(self)@),
                    Err(error) => {
                        &&& error == RepositoryError::MissingItem
                        &&& after_queueing(old(self)@, item_id) is None
                        &&& final(self)@ == old(self)@
                    },
                }
            }),
    {
        let ghost before = self@;
        let place = match find_item(&self.snapshot.inventory, item_id) {
            Some(place) => place,
            None => {
                return Err(RepositoryError::MissingItem);
            },
        };
        if any_queued_kind(
            &self.snapshot.inventory,
            self.snapshot.inventory[place].item_type.as_str(),
        ) {
            return Err(RepositoryError::MissingItem);
        }
        let mut row = self.snapshot.inventory[place].clone();
        row.queued = true;
        self.snapshot.inventory.set(place, row);
        proof {
            assert(self@.inventory =~= before.inventory.update(
                place as int,
                ItemView { queued: true, ..before.inventory[place as int] },
            ));
        }
        Ok(())
    }

    /// Burns queued rows and writes the loot part of the tunnel, or does
    /// neither when one of the rows is not queued.
    pub fn atomic_commit_dig(&mut self, loot: TunnelLootState, consumed_item_ids: &Vec<i64>)
        -> (committed: Result<(), RepositoryError>)
        ensures
            ({
                let all_queued = forall|i: int|
                    0 <= i < consumed_item_ids.len() ==> is_queued(
                        old(self)@.inventory,
                        #[trigger] consumed_item_ids@[i],
                    );
                match committed {
                    Ok(_) => {
                        &&& all_queued
                        &&& final(self)@ == after_use(old(self)@, loot@, consumed_item_ids@)
                    },
                    Err(error) => {
                        &&& !all_queued
                        &&& error == RepositoryError::MissingItem
                        &&& final(self)@ == old(self)@
                    },
                }
            }),
    {
        let ghost before = self@;
        let mut i: usize = 0;
        while i < consumed_item_ids.len()
            invariant
                i <= consumed_item_ids.len(),
                self@ == before,
                before == old(self)@,
                forall|j: int|
                    0 <= j < i ==> is_queued(before.inventory, #[trigger] consumed_item_ids@[j]),
            decreases consumed_item_ids.len() - i,
        {
            if !queued_row(&self.snapshot.inventory, consumed_item_ids[i]) {
                return Err(RepositoryError::MissingItem);
            }
            i = i + 1;
        }
        self.snapshot.inventory = keep_rows(&self.snapshot.inventory, consumed_item_ids);
        assert(self@ =~= (SnapshotView {
            inventory: rows_without(before.inventory, consumed_item_ids@),
            ..before
        }));
        self.set_tunnel(loot);
        Ok(())
    }

    /// Adds an artifact that is not equipped, under a new identifier.
    pub fn add_artifact(&mut self, artifact_id: &str, is_relic: bool) -> (id: i64)
        ensures
            id == next_id(artifact_ids(old(self)@.artifacts)),
            final(self)@ == with_artifact(old(self)@, artifact_id@, is_relic),
    {
        let ghost before = self@;
        let id = next_artifact_id(&self.snapshot.artifacts);
        let row = DigRuntimeArtifact {
            id,
            artifact_id: artifact_id.to_owned(),
            is_relic,
            equipped: false,
        };
        self.snapshot.artifacts.push(row);
        assert(self@.artifacts =~= before.artifacts.push(row@));
        id
    }

    /// The artifacts with their owner.
    pub fn artifacts(&self, discord_id: i64, guild_id: i64) -> (owned: Vec<Artifact>)
        ensures
            owned.len() == self@.artifacts.len(),
            forall|i: int|
                0 <= i < owned.len() ==> (#[trigger] owned@[i])@ == (OwnedArtifactView {
                    id: self@.artifacts[i].id,
                    discord_id,
                    guild_id,
                    artifact_id: self@.artifacts[i].artifact_id,
                    is_relic: self@.artifacts[i].is_relic,
                    equipped: self@.artifacts[i].equipped,
                }),
    {
        let rows = &self.snapshot.artifacts;
        let mut owned: Vec<Artifact> = Vec::new();
        let mut i: usize = 0;
        while i < rows.len()
            invariant
                i <= rows.len(),
                owned.len() == i,
                self@.artifacts == artifact_views(rows@),
                forall|j: int|
                    0 <= j < i ==> (#[trigger] owned@[j])@ == (OwnedArtifactView {
                        id: self@.artifacts[j].id,
                        discord_id,
                        guild_id,
                        artifact_id: self@.artifacts[j].artifact_id,
                        is_relic: self@.artifacts[j].is_relic,
                        equipped: self@.artifacts[j].equipped,
                    }),
            decreases rows.len() - i,
        {
            owned.push(
                Artifact {
                    id: rows[i].id,
                    discord_id,
                    guild_id,
                    artifact_id: rows[i].artifact_id.clone(),
                    is_relic: rows[i].is_relic,
                    equipped: rows[i].equipped,
                },
            );
            i = i + 1;
        }
        owned
    }

    /// Takes the first relic with an identifier off, as a gift leaves its giver.
    pub fn atomic_gift_relic(&mut self, artifact_db_id: i64) -> (gifted: Result<(), RepositoryError>)
        ensures
            ({
                match gifted {
                    Ok(_) => after_gift(old(self)@, artifact_db_id) == Some(final(self)@),
                    Err(error) => {
                        &&& after_gift(old(self)@, artifact_db_id) is None
                        &&& error == RepositoryError::InvalidArtifact
                        &&& final(self)@ == old(self)@
                    },
                }
            }),
    {
        let ghost before = self@;
        let place = match find_relic(&self.snapshot.artifacts, artifact_db_id) {
            Some(place) => place,
            None => {
                return Err(RepositoryError::InvalidArtifact);
            },
        };
        let mut row = self.snapshot.artifacts[place].clone();
        row.equipped = false;
        self.snapshot.artifacts.set(place, row);
        assert(self@.artifacts =~= before.artifacts.update(
            place as int,
            ArtifactView { equipped: false, ..before.artifacts[place as int] },
        ));
        Ok(())
    }
}

/// The identifier that the next artifact row of a snapshot gets.
pub fn next_artifact_id(artifacts: &Vec<DigRuntimeArtifact>) -> (id: i64)
    ensures
        id == next_id(artifact_ids(artifact_views(artifacts@))),
{
    match largest_artifact_id(artifacts) {
        Some(best) => sat_add(best, 1),
        None => 1,
    }
}

proof fn lemma_largest_bounds(ids: Seq<i64>)
    ensures
        ids.len() == 0 <==> largest(ids) is None,
        forall|i: int| 0 <= i < ids.len() ==> #[trigger] ids[i] <= largest(ids)->0,
    decreases ids.len(),
{
    if ids.len() > 0 {
        lemma_largest_bounds(ids.drop_last());
        assert forall|i: int| 0 <= i < ids.len() implies #[trigger] ids[i] <= largest(ids)->0 by {
            if i < ids.len() - 1 {
                assert(ids.drop_last()[i] == ids[i]);
            }
        }
    }
}

/// A new identifier belongs to no row yet, as long as identifiers last.
pub proof fn law_next_id_is_new(ids: Seq<i64>)
    requires
        !ids.contains(i64::MAX),
    ensures
        !ids.contains(next_id(ids)),
{
    lemma_largest_bounds(ids);
    if ids.contains(next_id(ids)) {
        let i = choose|i: int| 0 <= i < ids.len() && ids[i] == next_id(ids);
        assert(ids[i] <= largest(ids)->0);
        lemma_largest_member(ids);
    }
}

proof fn lemma_largest_member(ids: Seq<i64>)
    requires
        ids.len() > 0,
    ensures
        ids.contains(largest(ids)->0),
    decreases ids.len(),
{
    if ids.len() > 1 && largest(ids) != Some(ids.last()) {
        lemma_largest_member(ids.drop_last());
        let i = choose|i: int|
            0 <= i < ids.drop_last().len() && ids.drop_last()[i] == largest(ids.drop_last())->0;
        assert(ids[i] == largest(ids)->0);
    } else {
        assert(ids[ids.len() - 1] == largest(ids)->0);
    }
}

/// A purchase costs the wallet exactly its price and adds exactly one row.
pub proof fn law_purchase_moves_price_for_row(
    snapshot: SnapshotView,
    item_type: Seq<char>,
    cost: i64,
    queued: bool,
)
    requires
        i64::MIN <= snapshot.balance - cost <= i64::MAX,
    ensures
        after_purchase(snapshot, item_type, cost, queued).balance + cost == snapshot.balance,
        after_purchase(snapshot, item_type, cost, queued).inventory.len()
            == snapshot.inventory.len() + 1,
        after_purchase(snapshot, item_type, cost, queued).inventory.drop_last()
            == snapshot.inventory,
{
    assert(after_purchase(snapshot, item_type, cost, queued).inventory.drop_last()
        =~= snapshot.inventory);
}

/// Burning rows removes exactly the rows with those identifiers: the others
/// stay, and none of the burnt ones does.
pub proof fn law_burnt_rows_are_gone(items: Seq<ItemView>, ids: Seq<i64>, item: ItemView)
    ensures
        rows_without(items, ids).contains(item) <==> items.contains(item) && !ids.contains(item.id),
    decreases items.len(),
{
    if items.len() > 0 {
        let rest = items.drop_last();
        let kept = rows_without(rest, ids);
        law_burnt_rows_are_gone(rest, ids, item);
        if items.contains(item) {
            let i = choose|i: int| 0 <= i < items.len() && items[i] == item;
            if i < rest.len() {
                assert(rest[i] == item);
            }
        }
        if rest.contains(item) {
            let i = choose|i: int| 0 <= i < rest.len() && rest[i] == item;
            assert(items[i] == item);
        }
        assert(items[items.len() - 1] == items.last());
        if !ids.contains(items.last().id) {
            let all = kept.push(items.last());
            if kept.contains(item) {
                let i = choose|i: int| 0 <= i < kept.len() && kept[i] == item;
                assert(all[i] == item);
            }
            assert(all[all.len() - 1] == items.last());
            if all.contains(item) {
                let i = choose|i: int| 0 <= i < all.len() && all[i] == item;
                if i < kept.len() {
                    assert(kept[i] == item);
                }
            }
        }
    }
}

/// Reading the loot part of a tunnel and writing it back changes nothing.
pub proof fn law_loot_round_trip(tunnel: TunnelView)
    ensures
        tunnel_with_loot(tunnel, loot_of(tunnel)) == tunnel,
{
    assert(tunnel_with_loot(tunnel, loot_of(tunnel)) =~= tunnel);
}

} // verus!
