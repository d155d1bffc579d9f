//! Settling an admitted dig: the reward, the taxes on it, and the snapshot that
//! the commit stores.

use crate::arith::{larger, max_of, min_of, nearest, sat_add, sat_sub, smaller};
use crate::condition::{tick_effect, ticked_effect};
use crate::json::{json_of_text, parse_json, tree_option, Json, JsonView};
use crate::loot::{artifact_ids, artifact_views, item_views, list_has, next_artifact_id, next_id};
use crate::snapshot::{
    ArtifactView, DigRuntimeArtifact, DigRuntimeInventoryItem, DigRuntimeSnapshot, DigRuntimeTunnel,
    ItemView, MinerAllocation, SnapshotView, TunnelView,
};
use crate::sorted::{insert_ascending, is_ascending};
use crate::text::{borrow_text, i64_value, read_i64, same_text, str_view, text_is, text_view, texts};
use vstd::prelude::*;

verus! {

/// What the outcome rules report of one dig.
#[derive(Clone, Copy, Debug, PartialEq, Eq, Structural)]
pub struct DigOutcome {
    pub depth_after: i64,
    pub advance: i64,
    pub jc_earned: i64,
    pub cave_in: bool,
    pub boss_encounter: Option<i64>,
    pub milestone_bonus: i64,
    pub streak_bonus: i64,
    pub bankruptcy_penalty: i64,
    pub gross_jc: i64,
    pub economy_adjusted_jc: i64,
    pub mana_yield_tax: i64,
    pub vanity_tax: i64,
    pub low_priority_tax: i64,
}

/// An artifact that a dig found.
#[derive(Debug, PartialEq, Eq)]
pub struct ArtifactDrop {
    pub artifact_id: String,
    pub is_relic: bool,
    pub current_run_artifacts_delta: i64,
}

/// The state that the outcome rules work on.
#[derive(Debug)]
pub struct TunnelState {
    pub depth: i64,
    pub max_depth: i64,
    pub balance: i64,
    pub total_digs: i64,
    pub last_dig_at: Option<i64>,
    pub luminosity: i64,
    pub stats: MinerAllocation,
    pub paid_digs_today: i64,
    pub queued_consumables: Vec<String>,
    pub artifacts: Vec<String>,
    /// Boundaries of defeated bosses, ascending.
    pub defeated_bosses: Vec<i64>,
}

/// What a [`TunnelState`] holds.
#[verifier::ext_equal]
pub struct StateView {
    pub depth: i64,
    pub max_depth: i64,
    pub balance: i64,
    pub total_digs: i64,
    pub last_dig_at: Option<i64>,
    pub luminosity: i64,
    pub stats: MinerAllocation,
    pub paid_digs_today: i64,
    pub queued_consumables: Seq<Seq<char>>,
    pub artifacts: Seq<Seq<char>>,
    pub defeated_bosses: Seq<i64>,
}

impl View for TunnelState {
    type V = StateView;

    open spec fn view(&self) -> StateView {
        StateView {
            depth: self.depth,
            max_depth: self.max_depth,
            balance: self.balance,
            total_digs: self.total_digs,
            last_dig_at: self.last_dig_at,
            luminosity: self.luminosity,
            stats: self.stats,
            paid_digs_today: self.paid_digs_today,
            queued_consumables: texts(self.queued_consumables@),
            artifacts: texts(self.artifacts@),
            defeated_bosses: self.defeated_bosses@,
        }
    }
}

impl Clone for TunnelState {
    fn clone(&self) -> (copy: TunnelState)
        ensures
            copy@ == self@,
    {
        let copy = TunnelState {
            depth: self.depth,
            max_depth: self.max_depth,
            balance: self.balance,
            total_digs: self.total_digs,
            last_dig_at: self.last_dig_at,
            luminosity: self.luminosity,
            stats: self.stats,
            paid_digs_today: self.paid_digs_today,
            queued_consumables: self.queued_consumables.clone(),
            artifacts: self.artifacts.clone(),
            defeated_bosses: self.defeated_bosses.clone(),
        };
        assert(copy@ =~= self@);
        copy
    }
}

/// The kinds of the queued rows that the catalogue knows, in their order.
pub open spec fn queued_kinds(items: Seq<ItemView>, known: Seq<Seq<char>>) -> Seq<Seq<char>>
    decreases items.len(),
{
    if items.len() == 0 {
        Seq::empty()
    } else {
        let rest = queued_kinds(items.drop_last(), known);
        if items.last().queued && known.contains(items.last().item_type) {
            rest.push(items.last().item_type)
        } else {
            rest
        }
    }
}

/// The relics that the catalogue knows, in their order.
pub open spec fn known_relics(artifacts: Seq<ArtifactView>, known: Seq<Seq<char>>) -> Seq<Seq<char>>
    decreases artifacts.len(),
{
    if artifacts.len() == 0 {
        Seq::empty()
    } else {
        let rest = known_relics(artifacts.drop_last(), known);
        if artifacts.last().is_relic && known.contains(artifacts.last().artifact_id) {
            rest.push(artifacts.last().artifact_id)
        } else {
            rest
        }
    }
}

/// Whether a progress entry marks its boss as defeated: the text "defeated", or
/// an object with that status.
pub open spec fn marks_defeated(entry: JsonView) -> bool {
    entry == JsonView::Text("defeated"@) || entry.text_at("status"@) == Some("defeated"@)
}

fn is_marked_defeated(entry: &Json) -> (answer: bool)
    ensures
        answer == marks_defeated(entry@),
{
    match entry.as_text() {
        Some(status) => same_text(status, "defeated"),
        None => match entry.text_at("status") {
            Some(status) => same_text(status, "defeated"),
            None => false,
        },
    }
}

/// Whether a progress tree marks the boss at a boundary as defeated.
pub open spec fn boss_defeated(progress: Option<JsonView>, boundary: i64) -> bool {
    match progress {
        Some(JsonView::Object(map)) => exists|key: Seq<char>| #[trigger]
            map.dom().contains(key) && i64_value(key) == Some(boundary) && marks_defeated(map[key]),
        _ => false,
    }
}

/// Whether an entry keeps in an object the status that another keeps bare.
pub open spec fn nests_status(flat: JsonView, nested: JsonView) -> bool {
    ||| flat == nested
    ||| flat matches JsonView::Text(status) && nested is Object && nested.text_at("status"@) == Some(
        status,
    )
}

/// Bare statuses and statuses kept in objects mark the same bosses as defeated.
pub proof fn law_flat_and_nested_agree(
    flat: Map<Seq<char>, JsonView>,
    nested: Map<Seq<char>, JsonView>,
    boundary: i64,
)
    requires
        flat.dom() == nested.dom(),
        forall|key: Seq<char>| #[trigger]
            flat.dom().contains(key) ==> nests_status(flat[key], nested[key]),
    ensures
        boss_defeated(Some(JsonView::Object(flat)), boundary) == boss_defeated(
            Some(JsonView::Object(nested)),
            boundary,
        ),
{
    if boss_defeated(Some(JsonView::Object(flat)), boundary) {
        let key = choose|key: Seq<char>| #[trigger]
            flat.dom().contains(key) && i64_value(key) == Some(boundary) && marks_defeated(flat[key]);
        assert(nests_status(flat[key], nested[key]));
        assert(marks_defeated(nested[key]));
        assert(nested.dom().contains(key));
        assert(boss_defeated(Some(JsonView::Object(nested)), boundary));
    }
    if boss_defeated(Some(JsonView::Object(nested)), boundary) {
        let key = choose|key: Seq<char>| #[trigger]
            nested.dom().contains(key) && i64_value(key) == Some(boundary) && marks_defeated(
                nested[key],
            );
        assert(flat.dom().contains(key));
        assert(nests_status(flat[key], nested[key]));
        assert(marks_defeated(flat[key]));
        assert(i64_value(key) == Some(boundary));
        let tree = JsonView::Object(flat);
        assert(tree->Object_0.dom().contains(key) && marks_defeated(tree->Object_0[key]));
        assert(boss_defeated(Some(tree), boundary));
    }
}

/// Whether a list holds, in ascending order, exactly the defeated boundaries.
pub open spec fn lists_defeated(list: Seq<i64>, progress: Option<JsonView>) -> bool {
    &&& is_ascending(list)
    &&& forall|boundary: i64| #[trigger] list.contains(boundary) <==> boss_defeated(
        progress,
        boundary,
    )
}

/// Lists the defeated boundaries of a parsed progress column.
pub fn defeated_boundaries(progress: &Option<Json>) -> (list: Vec<i64>)
    ensures
        lists_defeated(list@, tree_option(*progress)),
{
    let mut list: Vec<i64> = Vec::new();
    match progress {
        Some(tree) => match tree {
            Json::Object(entries) => {
                let ghost map = crate::json::entry_map(entries@);
                let mut i: usize = 0;
                while i < entries.len()
                    invariant
                        i <= entries.len(),
                        *tree == Json::Object(*entries),
                        map == crate::json::entry_map(entries@),
                        is_ascending(list@),
                        forall|b: i64| #[trigger]
                            list@.contains(b) ==> boss_defeated(Some(tree@), b),
                        forall|j: int, b: i64|
                            0 <= j < i && i64_value(entries@[j].0@) == Some(b)
                                && marks_defeated(map[entries@[j].0@]) ==> list@.contains(b),
                    decreases entries.len() - i,
                {
                    let ghost key = entries@[i as int].0@;
                    proof {
                        crate::json::lemma_entries_absent(entries@, key);
                        assert(entries@[i as int].0@ == key);
                        assert(map.dom().contains(key));
                    }
                    let defeated = match tree.get(entries[i].0.as_str()) {
                        Some(value) => is_marked_defeated(value),
                        None => false,
                    };
                    if defeated {
                        match read_i64(entries[i].0.as_str()) {
                            Some(boundary) => {
                                insert_ascending(&mut list, boundary);
                                assert(boss_defeated(Some(tree@), boundary));
                            },
                            None => {},
                        }
                    }
                    i = i + 1;
                }
                proof {
                    assert forall|b: i64| boss_defeated(
                        Some(tree@),
                        b,
                    ) implies #[trigger] list@.contains(b) by {
                        let key = choose|key: Seq<char>| #[trigger]
                            map.dom().contains(key) && i64_value(key) == Some(b)
                                && marks_defeated(map[key]);
                        crate::json::lemma_entries_absent(entries@, key);
                        let j = choose|j: int|
                            0 <= j < entries@.len() && #[trigger] entries@[j].0@ == key;
                        assert(list@.contains(b));
                    }
                }
            },
            _ => {},
        },
        None => {},
    }
    list
}

/// The state of a snapshot before the outcome rules run, with the price of a
/// paid dig already taken from the wallet.
pub open spec fn is_state_of(
    state: StateView,
    snapshot: SnapshotView,
    paid_cost: Option<i64>,
    known_items: Seq<Seq<char>>,
    known_artifacts: Seq<Seq<char>>,
) -> bool {
    let tunnel = snapshot.tunnel->0;
    &&& state.depth == tunnel.depth
    &&& state.max_depth == tunnel.max_depth
    &&& state.balance == nearest(
        snapshot.balance - (match paid_cost {
            Some(cost) => cost,
            None => 0,
        }),
    )
    &&& state.total_digs == tunnel.total_digs
    &&& state.last_dig_at == tunnel.last_dig_at
    &&& state.luminosity == tunnel.luminosity
    &&& state.stats == (MinerAllocation {
        strength: larger(tunnel.stat_strength, 0),
        smarts: larger(tunnel.stat_smarts, 0),
        stamina: larger(tunnel.stat_stamina, 0),
        stat_points: larger(tunnel.stat_points, 0),
    })
    &&& state.paid_digs_today == larger(tunnel.paid_digs_today, 0)
    &&& state.queued_consumables == queued_kinds(snapshot.inventory, known_items)
    &&& state.artifacts == known_relics(snapshot.artifacts, known_artifacts)
    &&& lists_defeated(state.defeated_bosses, json_of_text(tunnel.boss_progress))
}

fn queued_list(items: &Vec<DigRuntimeInventoryItem>, known: &Vec<String>) -> (list: Vec<String>)
    ensures
        texts(list@) == queued_kinds(item_views(items@), texts(known@)),
{
    let ghost views = item_views(items@);
    let mut list: Vec<String> = Vec::new();
    assert(texts(list@) =~= Seq::empty());
    let mut i: usize = 0;
    while i < items.len()
        invariant
            i <= items.len(),
            views == item_views(items@),
            texts(list@) == queued_kinds(views.subrange(0, i as int), texts(known@)),
        decreases items.len() - i,
    {
        proof {
            let next = views.subrange(0, i + 1);
            assert(next.drop_last() =~= views.subrange(0, i as int));
            assert(next.last() == items@[i as int]@);
        }
        if items[i].queued && list_has(known, items[i].item_type.as_str()) {
            let ghost before = texts(list@);
            list.push(items[i].item_type.clone());
            assert(texts(list@) =~= before.push(items@[i as int].item_type@));
        }
        i = i + 1;
    }
    assert(views.subrange(0, i as int) =~= views);
    list
}

fn relic_list(artifacts: &Vec<DigRuntimeArtifact>, known: &Vec<String>) -> (list: Vec<String>)
    ensures
        texts(list@) == known_relics(artifact_views(artifacts@), texts(known@)),
{
    let ghost views = artifact_views(artifacts@);
    let mut list: Vec<String> = Vec::new();
    assert(texts(list@) =~= Seq::empty());
    let mut i: usize = 0;
    while i < artifacts.len()
        invariant
            i <= artifacts.len(),
            views == artifact_views(artifacts@),
            texts(list@) == known_relics(views.subrange(0, i as int), texts(known@)),
        decreases artifacts.len() - i,
    {
        proof {
            let next = views.subrange(0, i + 1);
            assert(next.drop_last() =~= views.subrange(0, i as int));
            assert(next.last() == artifacts@[i as int]@);
        }
        if artifacts[i].is_relic && list_has(known, artifacts[i].artifact_id.as_str()) {
            let ghost before = texts(list@);
            list.push(artifacts[i].artifact_id.clone());
            assert(texts(list@) =~= before.push(artifacts@[i as int].artifact_id@));
        }
        i = i + 1;
    }
    assert(views.subrange(0, i as int) =~= views);
    list
}

/// Reads the state that the outcome rules work on.
pub fn tunnel_state(
    snapshot: &DigRuntimeSnapshot,
    paid_cost: Option<i64>,
    known_items: &Vec<String>,
    known_artifacts: &Vec<String>,
) -> (state: TunnelState)
    requires
        snapshot@.tunnel is Some,
    ensures
        is_state_of(state@, snapshot@, paid_cost, texts(known_items@), texts(known_artifacts@)),
{
    let tunnel = snapshot.tunnel.as_ref().unwrap();
    let cost = match paid_cost {
        Some(cost) => cost,
        None => 0,
    };
    TunnelState {
        depth: tunnel.depth,
        max_depth: tunnel.max_depth,
        balance: sat_sub(snapshot.balance, cost),
        total_digs: tunnel.total_digs,
        last_dig_at: tunnel.last_dig_at,
        luminosity: tunnel.luminosity,
        stats: tunnel.stats(),
        paid_digs_today: max_of(tunnel.paid_digs_today, 0),
        queued_consumables: queued_list(&snapshot.inventory, known_items),
        artifacts: relic_list(&snapshot.artifacts, known_artifacts),
        defeated_bosses: defeated_boundaries(&parse_json(tunnel.boss_progress.as_str())),
    }
}

/// A tunnel after the outcome rules ran.
pub open spec fn tunnel_applied(
    tunnel: TunnelView,
    state: StateView,
    today: Seq<char>,
    paid: bool,
    total_jc_increment: i64,
) -> TunnelView {
    TunnelView {
        depth: state.depth,
        max_depth: state.max_depth,
        total_digs: state.total_digs,
        last_dig_at: state.last_dig_at,
        luminosity: state.luminosity,
        total_jc_earned: nearest(
            larger(tunnel.total_jc_earned, 0) + larger(total_jc_increment, 0),
        ),
        paid_digs_today: if paid {
            if tunnel.paid_dig_date == Some(today) {
                nearest(tunnel.paid_digs_today + 1)
            } else {
                1
            }
        } else {
            tunnel.paid_digs_today
        },
        paid_dig_date: if paid {
            Some(today)
        } else {
            tunnel.paid_dig_date
        },
        ..tunnel
    }
}

/// A snapshot after the outcome rules ran.
pub open spec fn state_applied(
    snapshot: SnapshotView,
    state: StateView,
    today: Seq<char>,
    paid: bool,
    total_jc_increment: i64,
) -> SnapshotView {
    SnapshotView {
        balance: state.balance,
        tunnel: match snapshot.tunnel {
            Some(tunnel) => Some(tunnel_applied(tunnel, state, today, paid, total_jc_increment)),
            None => None,
        },
        ..snapshot
    }
}

/// Writes the state of the outcome rules back into a snapshot.
pub fn apply_state(
    snapshot: &mut DigRuntimeSnapshot,
    state: &TunnelState,
    today: &str,
    paid: bool,
    total_jc_increment: i64,
)
    ensures
        final(snapshot)@ == state_applied(
            old(snapshot)@,
            state@,
            today@,
            paid,
            total_jc_increment,
        ),
{
    let ghost before = snapshot@;
    snapshot.balance = state.balance;
    match snapshot.tunnel.take() {
        Some(taken) => {
            let mut tunnel = taken;
            tunnel.depth = state.depth;
            tunnel.max_depth = state.max_depth;
            tunnel.total_digs = state.total_digs;
            tunnel.last_dig_at = state.last_dig_at;
            tunnel.luminosity = state.luminosity;
            tunnel.total_jc_earned = sat_add(
                max_of(tunnel.total_jc_earned, 0),
                max_of(total_jc_increment, 0),
            );
            if paid {
                tunnel.paid_digs_today = if text_is(&tunnel.paid_dig_date, today) {
                    sat_add(tunnel.paid_digs_today, 1)
                } else {
                    1
                };
                tunnel.paid_dig_date = Some(today.to_owned());
            }
            assert(tunnel@ =~= tunnel_applied(taken@, state@, today@, paid, total_jc_increment));
            snapshot.tunnel = Some(tunnel);
        },
        None => {},
    }
    assert(snapshot@ =~= state_applied(before, state@, today@, paid, total_jc_increment));
}

/// How corruption distorts a reward.
#[derive(Clone, Copy, Debug, PartialEq, Eq, Structural)]
pub enum JcCorruption {
    /// The reward is this amount.
    Fixed(i64),
    /// An odd coin is lost.
    DoubleHalf,
    /// This much is lost.
    Penalty(i64),
}

/// Picks the corruption that distorts a reward: a fixed amount before the loss of
/// an odd coin, and that before a penalty. A negative penalty takes nothing.
pub fn jc_corruption(fixed: Option<i64>, double_half: bool, penalty: i64) -> (corruption:
    JcCorruption)
    ensures
        corruption == (match fixed {
            Some(amount) => JcCorruption::Fixed(amount),
            None => if double_half {
                JcCorruption::DoubleHalf
            } else {
                JcCorruption::Penalty(larger(penalty, 0))
            },
        }),
{
    match fixed {
        Some(amount) => JcCorruption::Fixed(amount),
        None => if double_half {
            JcCorruption::DoubleHalf
        } else {
            JcCorruption::Penalty(max_of(penalty, 0))
        },
    }
}

/// A reward after its flat additions and corruption. A roll that voids the
/// reward leaves nothing, and no reward is negative.
pub open spec fn composed_jc(
    scaled: i64,
    policy_bonus: i64,
    magma_heart: bool,
    perk_bonus: i64,
    corruption: JcCorruption,
    voided: bool,
) -> i64 {
    let flat = nearest(
        nearest(
            nearest(scaled + policy_bonus) + (if magma_heart {
                1int
            } else {
                0
            }),
        ) + perk_bonus,
    );
    let distorted = match corruption {
        JcCorruption::Fixed(amount) => amount,
        JcCorruption::DoubleHalf => nearest(flat - flat % 2),
        JcCorruption::Penalty(amount) => nearest(flat - amount),
    };
    if voided {
        0
    } else {
        larger(distorted, 0)
    }
}

/// Composes a reward from its scaled roll.
pub fn compose_jc(
    scaled: i64,
    policy_bonus: i64,
    magma_heart: bool,
    perk_bonus: i64,
    corruption: JcCorruption,
    voided: bool,
) -> (reward: i64)
    ensures
        reward == composed_jc(scaled, policy_bonus, magma_heart, perk_bonus, corruption, voided),
{
    let flat = sat_add(
        sat_add(
            sat_add(scaled, policy_bonus),
            if magma_heart {
                1
            } else {
                0
            },
        ),
        perk_bonus,
    );
    let distorted = match corruption {
        JcCorruption::Fixed(amount) => amount,
        JcCorruption::DoubleHalf => {
            let odd = if flat % 2 == 0 {
                0
            } else {
                1
            };
            sat_sub(flat, odd)
        },
        JcCorruption::Penalty(amount) => sat_sub(flat, amount),
    };
    if voided {
        0
    } else {
        max_of(distorted, 0)
    }
}

/// The run of digs without a cave-in, this one counted.
pub open spec fn next_free_run(cavein_free_streak: i64) -> i64 {
    nearest(larger(cavein_free_streak, 0) + 1)
}

/// Counts a dig without a cave-in.
pub fn next_cavein_free_streak(cavein_free_streak: i64) -> (run: i64)
    ensures
        run == next_free_run(cavein_free_streak),
{
    sat_add(max_of(cavein_free_streak, 0), 1)
}

/// Adds what Prospector's Streak pays: one coin for each dig of the run, up to
/// twenty.
pub fn add_prospectors_streak(reward: i64, owned: bool, free_run: i64) -> (total: i64)
    ensures
        total == (if owned {
            nearest(reward + smaller(free_run, 20))
        } else {
            reward
        }),
{
    if owned {
        sat_add(reward, min_of(free_run, 20))
    } else {
        reward
    }
}

/// What is left of a reward after a tithe of which `credited` reached the fund.
pub open spec fn tithed_reward(reward: i64, credited: i64) -> i64 {
    nearest(reward - smaller(larger(credited, 0), reward))
}

/// Takes a tithe of which `credited` reached the fund off a reward.
pub fn after_tithe(reward: i64, credited: i64) -> (left: i64)
    ensures
        left == tithed_reward(reward, credited),
        reward >= 0 ==> 0 <= left <= reward,
{
    sat_sub(reward, min_of(max_of(credited, 0), reward))
}

/// Where mana stands with a reward: what is asked next, of how much.
#[derive(Clone, Copy, Debug, PartialEq, Eq, Structural)]
pub enum ManaStep {
    /// How much of the tithe on this reward reached the fund.
    Tithe(i64),
    /// What the blue tax takes of this reward.
    BlueTax(i64),
    /// What is left of the reward.
    Settled(i64),
}

/// Which rates mana has on a reward.
#[derive(Clone, Copy, Debug, PartialEq, Eq, Structural)]
pub struct ManaRates {
    pub tithe: bool,
    pub blue_tax: bool,
}

/// The blue tax on what a tithe left.
pub open spec fn mana_taxed(left: i64, rates: ManaRates) -> ManaStep {
    if rates.blue_tax && left > 0 {
        ManaStep::BlueTax(left)
    } else {
        ManaStep::Settled(left)
    }
}

/// The first question on a reward: the tithe comes before the blue tax, and of
/// nothing nothing is taken.
pub open spec fn mana_begun(reward: i64, rates: ManaRates) -> ManaStep {
    if rates.tithe && reward > 0 {
        ManaStep::Tithe(reward)
    } else {
        mana_taxed(reward, rates)
    }
}

/// The question after an answer.
pub open spec fn mana_answered(step: ManaStep, rates: ManaRates, taken: i64) -> ManaStep {
    match step {
        ManaStep::Tithe(reward) => mana_taxed(tithed_reward(reward, taken), rates),
        ManaStep::BlueTax(left) => ManaStep::Settled(nearest(left - taken)),
        ManaStep::Settled(left) => ManaStep::Settled(left),
    }
}

/// Begins with what mana takes of a reward.
pub fn begin_mana(reward: i64, rates: ManaRates) -> (step: ManaStep)
    ensures
        step == mana_begun(reward, rates),
{
    if rates.tithe && reward > 0 {
        ManaStep::Tithe(reward)
    } else if rates.blue_tax && reward > 0 {
        ManaStep::BlueTax(reward)
    } else {
        ManaStep::Settled(reward)
    }
}

/// Goes on with what mana takes of a reward.
pub fn answer_mana(step: ManaStep, rates: ManaRates, taken: i64) -> (next: ManaStep)
    ensures
        next == mana_answered(step, rates, taken),
{
    match step {
        ManaStep::Tithe(reward) => {
            let left = after_tithe(reward, taken);
            if rates.blue_tax && left > 0 {
                ManaStep::BlueTax(left)
            } else {
                ManaStep::Settled(left)
            }
        },
        ManaStep::BlueTax(left) => ManaStep::Settled(sat_sub(left, taken)),
        ManaStep::Settled(left) => ManaStep::Settled(left),
    }
}

/// Mana asks at most twice, the tithe first, and takes the blue tax of what the
/// tithe left. Where the tax is no more than that, something between nothing and
/// the whole reward is left.
pub proof fn law_tithe_before_blue_tax(reward: i64, rates: ManaRates, credited: i64, tax: i64)
    requires
        reward >= 0,
        0 <= tax,
        tax <= (if rates.tithe {
            tithed_reward(reward, credited)
        } else {
            reward
        }),
    ensures
        ({
            let first = mana_begun(reward, rates);
            let answer = if first is Tithe {
                credited
            } else {
                tax
            };
            let second = mana_answered(first, rates, answer);
            let last = mana_answered(second, rates, tax);
            &&& rates.tithe && reward > 0 <==> first == ManaStep::Tithe(reward)
            &&& !(second is Tithe)
            &&& second is BlueTax ==> second == ManaStep::BlueTax(tithed_reward(reward, credited))
            &&& last matches ManaStep::Settled(left) && 0 <= left <= reward
        }),
{
}

/// The part of a medical bill that the wallet can pay.
pub open spec fn payable_bill(requested: i64, balance: i64) -> i64 {
    smaller(requested, larger(balance, 0))
}

/// A state and an outcome after the medical bill of a cave-in.
pub open spec fn billed(state: StateView, outcome: DigOutcome, requested: i64) -> (
    StateView,
    DigOutcome,
) {
    let cost = payable_bill(requested, state.balance);
    if cost > 0 {
        (
            StateView { balance: (state.balance - cost) as i64, ..state },
            DigOutcome { jc_earned: nearest(outcome.jc_earned - cost), ..outcome },
        )
    } else {
        (state, outcome)
    }
}

/// Pays the medical bill of a cave-in as far as the wallet goes, and returns
/// what was paid.
pub fn pay_medical_bill(state: &mut TunnelState, outcome: &mut DigOutcome, requested: i64) -> (cost:
    i64)
    ensures
        cost == payable_bill(requested, old(state)@.balance),
        (final(state)@, *final(outcome)) == billed(old(state)@, *old(outcome), requested),
{
    let cost = min_of(requested, max_of(state.balance, 0));
    if cost > 0 {
        state.balance = state.balance - cost;
        outcome.jc_earned = sat_sub(outcome.jc_earned, cost);
    }
    assert((state@, *outcome) =~= billed(old(state)@, *old(outcome), requested));
    cost
}

/// The pet blocks of a dig: the first candidate that meets a boss, or the last
/// one. `candidates` holds the outcome with one pet block, with two, and so on.
pub open spec fn pet_choice(candidates: Seq<DigOutcome>) -> Option<int>
    decreases candidates.len(),
{
    if candidates.len() == 0 {
        None
    } else {
        match pet_choice(candidates.drop_last()) {
            Some(place) => if candidates[place].boss_encounter is Some {
                Some(place)
            } else {
                Some(candidates.len() - 1)
            },
            None => Some(candidates.len() - 1),
        }
    }
}

proof fn lemma_pet_choice_stops(candidates: Seq<DigOutcome>, place: int, n: int)
    requires
        0 <= place < n <= candidates.len(),
        pet_choice(candidates.subrange(0, n)) == Some(place),
        candidates[place].boss_encounter is Some,
    ensures
        pet_choice(candidates) == Some(place),
    decreases candidates.len(),
{
    if n == candidates.len() {
        assert(candidates.subrange(0, n) =~= candidates);
    } else {
        assert(candidates.drop_last().subrange(0, n) =~= candidates.subrange(0, n));
        lemma_pet_choice_stops(candidates.drop_last(), place, n);
    }
}

/// Chooses among the outcomes with pet blocks. A cave-in, and a base outcome
/// that already met a boss, use none.
pub fn choose_pet_blocks(base: &DigOutcome, candidates: &Vec<DigOutcome>) -> (choice: Option<usize>)
    ensures
        match choice {
            Some(place) => !base.cave_in && base.boss_encounter is None && place < candidates.len()
                && pet_choice(candidates@) == Some(place as int),
            None => base.cave_in || base.boss_encounter is Some || candidates.len() == 0,
        },
{
    if base.cave_in || base.boss_encounter.is_some() {
        return None;
    }
    let mut i: usize = 0;
    while i < candidates.len()
        invariant
            i <= candidates.len(),
            !base.cave_in,
            base.boss_encounter is None,
            i == 0 ==> pet_choice(candidates@.subrange(0, 0)) is None,
            i > 0 ==> pet_choice(candidates@.subrange(0, i as int)) == Some(i - 1)
                && candidates@[i - 1].boss_encounter is None,
        decreases candidates.len() - i,
    {
        proof {
            let next = candidates@.subrange(0, i + 1);
            assert(next.drop_last() =~= candidates@.subrange(0, i as int));
            if i > 0 {
                assert(next.drop_last()[i - 1] == candidates@[i - 1]);
                assert(next[i - 1] == candidates@[i - 1]);
            }
            assert(pet_choice(next) == Some(i as int));
        }
        if candidates[i].boss_encounter.is_some() {
            proof {
                lemma_pet_choice_stops(candidates@, i as int, i + 1);
            }
            return Some(i);
        }
        i = i + 1;
    }
    if i == 0 {
        None
    } else {
        assert(candidates@.subrange(0, i as int) =~= candidates@);
        Some(i - 1)
    }
}

/// The reward that both taxes are computed on: what was earned, with what the
/// bankruptcy penalty withheld.
pub open spec fn tax_basis(jc_earned: i64, bankruptcy_penalty: i64) -> i64 {
    larger(nearest(jc_earned + bankruptcy_penalty), 0)
}

/// What the two taxes withhold of a reward.
#[derive(Clone, Copy, Debug, PartialEq, Eq, Structural)]
pub struct Withholding {
    pub vanity_tax: i64,
    pub low_priority_tax: i64,
}

/// What the two taxes withhold when they ask for these amounts. Both come out
/// of the reward in hand, the low-priority tax out of what vanity left.
pub open spec fn withheld(
    jc_earned: i64,
    bankruptcy_penalty: i64,
    vanity_quote: i64,
    low_priority_quote: i64,
) -> Withholding {
    let in_hand = larger(jc_earned, 0);
    let vanity_tax = smaller(
        smaller(larger(vanity_quote, 0), tax_basis(jc_earned, bankruptcy_penalty)),
        in_hand,
    );
    Withholding {
        vanity_tax,
        low_priority_tax: smaller(
            larger(low_priority_quote, 0),
            larger(nearest(in_hand - vanity_tax), 0),
        ),
    }
}

/// Computes what the two taxes withhold when they ask for these amounts.
pub fn withhold(
    jc_earned: i64,
    bankruptcy_penalty: i64,
    vanity_quote: i64,
    low_priority_quote: i64,
) -> (withholding: Withholding)
    ensures
        withholding == withheld(jc_earned, bankruptcy_penalty, vanity_quote, low_priority_quote),
{
    let in_hand = max_of(jc_earned, 0);
    let basis = max_of(sat_add(jc_earned, bankruptcy_penalty), 0);
    let vanity_tax = min_of(min_of(max_of(vanity_quote, 0), basis), in_hand);
    Withholding {
        vanity_tax,
        low_priority_tax: min_of(
            max_of(low_priority_quote, 0),
            max_of(sat_sub(in_hand, vanity_tax), 0),
        ),
    }
}

/// A policy that says how much vanity tax a reward owes.
pub trait DigRuntimeVanityTaxPort {
    fn calculate_tax(&self, discord_id: i64, guild_id: i64, gross_profit: i64) -> i64;
}

/// A policy that says how much low-priority tax a reward owes.
pub trait DigRuntimeLowPriorityTaxPort {
    fn calculate_tax(&self, discord_id: i64, guild_id: i64, gross_profit: i64) -> i64;
}

/// No vanity tax.
#[derive(Clone, Copy, Debug, Default)]
pub struct NoDigRuntimeVanityTax;

impl DigRuntimeVanityTaxPort for NoDigRuntimeVanityTax {
    fn calculate_tax(&self, _discord_id: i64, _guild_id: i64, _gross_profit: i64) -> (tax: i64)
        ensures
            tax == 0,
    {
        0
    }
}

/// No low-priority tax.
#[derive(Clone, Copy, Debug, Default)]
pub struct NoDigRuntimeLowPriorityTax;

impl DigRuntimeLowPriorityTaxPort for NoDigRuntimeLowPriorityTax {
    fn calculate_tax(&self, _discord_id: i64, _guild_id: i64, _gross_profit: i64) -> (tax: i64)
        ensures
            tax == 0,
    {
        0
    }
}

/// A state and an outcome after the taxes.
pub open spec fn taxed(state: StateView, outcome: DigOutcome, withholding: Withholding) -> (
    StateView,
    DigOutcome,
) {
    let total = nearest(withholding.vanity_tax + withholding.low_priority_tax);
    if total > 0 {
        (
            StateView { balance: nearest(state.balance - total), ..state },
            DigOutcome {
                jc_earned: nearest(outcome.jc_earned - total),
                vanity_tax: withholding.vanity_tax,
                low_priority_tax: withholding.low_priority_tax,
                ..outcome
            },
        )
    } else {
        (state, outcome)
    }
}

/// Takes a withholding out of a settled dig.
pub fn apply_withholding(state: &mut TunnelState, outcome: &mut DigOutcome, withholding: Withholding)
    ensures
        (final(state)@, *final(outcome)) == taxed(old(state)@, *old(outcome), withholding),
{
    let total = sat_add(withholding.vanity_tax, withholding.low_priority_tax);
    if total > 0 {
        state.balance = sat_sub(state.balance, total);
        outcome.jc_earned = sat_sub(outcome.jc_earned, total);
        outcome.vanity_tax = withholding.vanity_tax;
        outcome.low_priority_tax = withholding.low_priority_tax;
    }
    assert((state@, *outcome) =~= taxed(old(state)@, *old(outcome), withholding));
}

/// Whether a policy quotes this vanity tax on a basis.
pub open spec fn quotes_vanity<V: DigRuntimeVanityTaxPort>(
    vanity: &V,
    discord_id: i64,
    guild_id: i64,
    basis: i64,
    quote: i64,
) -> bool {
    call_ensures(V::calculate_tax, (vanity, discord_id, guild_id, basis), quote)
}

/// Whether a policy quotes this low-priority tax on a basis.
pub open spec fn quotes_low_priority<L: DigRuntimeLowPriorityTaxPort>(
    low_priority: &L,
    discord_id: i64,
    guild_id: i64,
    basis: i64,
    quote: i64,
) -> bool {
    call_ensures(L::calculate_tax, (low_priority, discord_id, guild_id, basis), quote)
}

/// Whether the second of two settled digs is the first one taxed. A cave-in is
/// not taxed; else both policies are asked about the same basis.
pub open spec fn taxed_at_quotes<V: DigRuntimeVanityTaxPort, L: DigRuntimeLowPriorityTaxPort>(
    vanity: &V,
    low_priority: &L,
    discord_id: i64,
    guild_id: i64,
    before: (StateView, DigOutcome),
    after: (StateView, DigOutcome),
) -> bool {
    let basis = tax_basis(before.1.jc_earned, before.1.bankruptcy_penalty);
    if before.1.cave_in {
        after == before
    } else {
        exists|vanity_quote: i64, low_priority_quote: i64|
            {
                &&& #[trigger] quotes_vanity(vanity, discord_id, guild_id, basis, vanity_quote)
                &&& #[trigger] quotes_low_priority(
                    low_priority,
                    discord_id,
                    guild_id,
                    basis,
                    low_priority_quote,
                )
                &&& after == taxed(
                    before.0,
                    before.1,
                    withheld(
                        before.1.jc_earned,
                        before.1.bankruptcy_penalty,
                        vanity_quote,
                        low_priority_quote,
                    ),
                )
            }
    }
}

/// Asks both policies about a settled dig and takes what they may withhold. A
/// cave-in is not taxed. Both are asked about the same [`tax_basis`], and what is
/// taken is what is [`withheld`] at their quotes.
pub fn tax_dig<V: DigRuntimeVanityTaxPort, L: DigRuntimeLowPriorityTaxPort>(
    vanity: &V,
    low_priority: &L,
    discord_id: i64,
    guild_id: i64,
    state: &mut TunnelState,
    outcome: &mut DigOutcome,
)
    ensures
        taxed_at_quotes::<V, L>(
            vanity,
            low_priority,
            discord_id,
            guild_id,
            (old(state)@, *old(outcome)),
            (final(state)@, *final(outcome)),
        ),
{
    if !outcome.cave_in {
        let basis = max_of(sat_add(outcome.jc_earned, outcome.bankruptcy_penalty), 0);
        let vanity_quote = vanity.calculate_tax(discord_id, guild_id, basis);
        let low_priority_quote = low_priority.calculate_tax(discord_id, guild_id, basis);
        assert(quotes_vanity(vanity, discord_id, guild_id, basis, vanity_quote));
        assert(quotes_low_priority(
            low_priority,
            discord_id,
            guild_id,
            basis,
            low_priority_quote,
        ));
        let withholding = withhold(
            outcome.jc_earned,
            outcome.bankruptcy_penalty,
            vanity_quote,
            low_priority_quote,
        );
        apply_withholding(state, outcome, withholding);
    }
}

/// A tunnel whose run counters took a dig in.
pub open spec fn with_run(tunnel: TunnelView, outcome: DigOutcome, free_run: i64) -> TunnelView {
    if outcome.cave_in {
        TunnelView { cavein_free_streak: 0, ..tunnel }
    } else {
        TunnelView {
            cavein_free_streak: free_run,
            current_run_jc: nearest(tunnel.current_run_jc + larger(outcome.jc_earned, 0)),
            ..tunnel
        }
    }
}

/// A snapshot that holds an artifact it found.
pub open spec fn with_artifact(
    snapshot: SnapshotView,
    artifact_id: Seq<char>,
    is_relic: bool,
    delta: i64,
) -> SnapshotView {
    SnapshotView {
        artifacts: snapshot.artifacts.push(
            ArtifactView {
                id: next_id(artifact_ids(snapshot.artifacts)),
                artifact_id,
                is_relic,
                equipped: false,
            },
        ),
        tunnel: match snapshot.tunnel {
            Some(tunnel) => Some(
                TunnelView {
                    current_run_artifacts: nearest(tunnel.current_run_artifacts + delta),
                    ..tunnel
                },
            ),
            None => None,
        },
        ..snapshot
    }
}

/// Stages an artifact under the next identifier and counts it for the run.
pub fn stage_artifact(snapshot: &mut DigRuntimeSnapshot, found: &ArtifactDrop)
    ensures
        final(snapshot)@ == with_artifact(
            old(snapshot)@,
            found.artifact_id@,
            found.is_relic,
            found.current_run_artifacts_delta,
        ),
{
    let ghost before = snapshot@;
    let row = DigRuntimeArtifact {
        id: next_artifact_id(&snapshot.artifacts),
        artifact_id: found.artifact_id.clone(),
        is_relic: found.is_relic,
        equipped: false,
    };
    snapshot.artifacts.push(row);
    assert(snapshot@.artifacts =~= before.artifacts.push(row@));
    match snapshot.tunnel.take() {
        Some(taken) => {
            let mut tunnel = taken;
            tunnel.current_run_artifacts = sat_add(
                tunnel.current_run_artifacts,
                found.current_run_artifacts_delta,
            );
            snapshot.tunnel = Some(tunnel);
        },
        None => {},
    }
    assert(snapshot@ =~= with_artifact(
        before,
        found.artifact_id@,
        found.is_relic,
        found.current_run_artifacts_delta,
    ));
}

/// A tunnel whose streak and timed effects took a dig in. The effects count
/// down from the columns that the dig started with; a catastrophic cave-in has
/// already cleared the buffs.
pub open spec fn with_countdowns(
    tunnel: TunnelView,
    streak_days: i64,
    today: Seq<char>,
    curses: Option<Seq<char>>,
    curse_remaining: Option<i64>,
    buffs: Option<Seq<char>>,
    buff_remaining: i64,
    catastrophic: bool,
) -> TunnelView {
    TunnelView {
        streak_days,
        streak_last_date: Some(today),
        temp_curses: match curse_remaining {
            Some(remaining) => ticked_effect(curses, remaining),
            None => tunnel.temp_curses,
        },
        temp_buffs: if !catastrophic && buff_remaining > 0 {
            ticked_effect(buffs, buff_remaining)
        } else {
            tunnel.temp_buffs
        },
        ..tunnel
    }
}

fn count_down(
    tunnel: &mut DigRuntimeTunnel,
    streak_days: i64,
    today: &str,
    curses: Option<&str>,
    curse_remaining: Option<i64>,
    buffs: Option<&str>,
    buff_remaining: i64,
    catastrophic: bool,
)
    ensures
        final(tunnel)@ == with_countdowns(
            old(tunnel)@,
            streak_days,
            today@,
            str_view(curses),
            curse_remaining,
            str_view(buffs),
            buff_remaining,
            catastrophic,
        ),
{
    tunnel.streak_days = streak_days;
    tunnel.streak_last_date = Some(today.to_owned());
    match curse_remaining {
        Some(remaining) => {
            tunnel.temp_curses = tick_effect(curses, remaining);
        },
        None => {},
    }
    if !catastrophic && buff_remaining > 0 {
        tunnel.temp_buffs = tick_effect(buffs, buff_remaining);
    }
    assert(tunnel@ =~= with_countdowns(
        old(tunnel)@,
        streak_days,
        today@,
        str_view(curses),
        curse_remaining,
        str_view(buffs),
        buff_remaining,
        catastrophic,
    ));
}

/// What a dig carries over from its roll into the stored snapshot.
#[derive(Debug)]
pub struct DigCarry {
    pub today: String,
    /// Whether the dig paid to bypass a cooldown.
    pub paid: bool,
    pub streak_days: i64,
    /// The run of digs without a cave-in, this one counted.
    pub free_run: i64,
    pub found: Option<ArtifactDrop>,
    /// The curse and buff columns that the dig started with.
    pub curses: Option<String>,
    pub buffs: Option<String>,
    /// Digs left on an active curse.
    pub curse_remaining: Option<i64>,
    /// Digs left on the active buff, zero without one.
    pub buff_remaining: i64,
    pub catastrophic: bool,
}

/// The stored snapshot of a settled dig, before any event.
pub open spec fn settled_snapshot(
    staged: SnapshotView,
    state: StateView,
    outcome: DigOutcome,
    carry: DigCarry,
) -> SnapshotView {
    let applied = state_applied(
        staged,
        state,
        carry.today@,
        carry.paid,
        if outcome.cave_in {
            0
        } else {
            larger(outcome.jc_earned, 0)
        },
    );
    let run = SnapshotView {
        tunnel: match applied.tunnel {
            Some(tunnel) => Some(with_run(tunnel, outcome, carry.free_run)),
            None => None,
        },
        ..applied
    };
    let stocked = match carry.found {
        Some(found) => with_artifact(
            run,
            found.artifact_id@,
            found.is_relic,
            found.current_run_artifacts_delta,
        ),
        None => run,
    };
    SnapshotView {
        tunnel: match stocked.tunnel {
            Some(tunnel) => Some(
                with_countdowns(
                    tunnel,
                    carry.streak_days,
                    carry.today@,
                    text_view(carry.curses),
                    carry.curse_remaining,
                    text_view(carry.buffs),
                    carry.buff_remaining,
                    carry.catastrophic,
                ),
            ),
            None => None,
        },
        ..stocked
    }
}

/// Builds the snapshot that a settled dig stores, before any event.
pub fn settle_snapshot(
    staged: DigRuntimeSnapshot,
    state: &TunnelState,
    outcome: &DigOutcome,
    carry: &DigCarry,
) -> (next: DigRuntimeSnapshot)
    ensures
        next@ == settled_snapshot(staged@, state@, *outcome, *carry),
{
    let mut next = staged;
    let ghost start = next@;
    let increment = if outcome.cave_in {
        0
    } else {
        max_of(outcome.jc_earned, 0)
    };
    apply_state(&mut next, state, carry.today.as_str(), carry.paid, increment);
    let ghost applied = next@;
    match next.tunnel.take() {
        Some(taken) => {
            let mut tunnel = taken;
            if outcome.cave_in {
                tunnel.cavein_free_streak = 0;
            } else {
                tunnel.cavein_free_streak = carry.free_run;
                tunnel.current_run_jc = sat_add(
                    tunnel.current_run_jc,
                    max_of(outcome.jc_earned, 0),
                );
            }
            assert(tunnel@ =~= with_run(taken@, *outcome, carry.free_run));
            next.tunnel = Some(tunnel);
        },
        None => {},
    }
    let ghost run = SnapshotView {
        tunnel: match applied.tunnel {
            Some(tunnel) => Some(with_run(tunnel, *outcome, carry.free_run)),
            None => None,
        },
        ..applied
    };
    assert(next@ =~= run);
    match &carry.found {
        Some(found) => {
            stage_artifact(&mut next, found);
        },
        None => {},
    }
    let ghost stocked = next@;
    match next.tunnel.take() {
        Some(taken) => {
            let mut tunnel = taken;
            count_down(
                &mut tunnel,
                carry.streak_days,
                carry.today.as_str(),
                borrow_text(&carry.curses),
                carry.curse_remaining,
                borrow_text(&carry.buffs),
                carry.buff_remaining,
                carry.catastrophic,
            );
            next.tunnel = Some(tunnel);
        },
        None => {},
    }
    assert(next@ =~= settled_snapshot(start, state@, *outcome, *carry));
    next
}

/// Neither tax, nor both together, ever takes more than the reward in hand, so
/// a taxed reward may fall to zero but never becomes a debit.
pub proof fn law_taxes_never_exceed_the_reward(
    jc_earned: i64,
    bankruptcy_penalty: i64,
    vanity_quote: i64,
    low_priority_quote: i64,
)
    requires
        bankruptcy_penalty >= 0,
    ensures
        ({
            let taken = withheld(jc_earned, bankruptcy_penalty, vanity_quote, low_priority_quote);
            &&& 0 <= taken.vanity_tax
            &&& 0 <= taken.low_priority_tax
            &&& taken.vanity_tax + taken.low_priority_tax <= larger(jc_earned, 0)
        }),
{
}

/// The taxes move the same amount out of the wallet and out of the reward.
pub proof fn law_taxes_balance(
    state: StateView,
    outcome: DigOutcome,
    vanity_quote: i64,
    low_priority_quote: i64,
)
    requires
        outcome.bankruptcy_penalty >= 0,
        state.balance - larger(outcome.jc_earned, 0) >= i64::MIN,
    ensures
        ({
            let (after, told) = taxed(
                state,
                outcome,
                withheld(
                    outcome.jc_earned,
                    outcome.bankruptcy_penalty,
                    vanity_quote,
                    low_priority_quote,
                ),
            );
            &&& state.balance - after.balance == outcome.jc_earned - told.jc_earned
            &&& outcome.jc_earned >= 0 ==> told.jc_earned >= 0
        }),
{
}

/// A medical bill never takes a wallet below zero, and never pays anyone.
pub proof fn law_medical_bill_is_covered(state: StateView, outcome: DigOutcome, requested: i64)
    ensures
        state.balance >= 0 ==> billed(state, outcome, requested).0.balance >= 0,
        billed(state, outcome, requested).0.balance <= state.balance,
        state.balance <= 0 ==> billed(state, outcome, requested) == (state, outcome),
{
}

/// A cave-in adds nothing to the lifetime reward, to the reward of the run, to
/// the run without cave-ins, or, where none was found, to the artifacts.
pub proof fn law_cave_in_earns_nothing(
    staged: SnapshotView,
    state: StateView,
    outcome: DigOutcome,
    carry: DigCarry,
)
    requires
        outcome.cave_in,
        staged.tunnel is Some,
        staged.tunnel->0.total_jc_earned >= 0,
    ensures
        ({
            let tunnel = settled_snapshot(staged, state, outcome, carry).tunnel->0;
            &&& tunnel.total_jc_earned == staged.tunnel->0.total_jc_earned
            &&& tunnel.current_run_jc == staged.tunnel->0.current_run_jc
            &&& tunnel.cavein_free_streak == 0
        }),
        carry.found is None ==> ({
            let settled = settled_snapshot(staged, state, outcome, carry);
            &&& settled.artifacts == staged.artifacts
            &&& settled.tunnel->0.current_run_artifacts == staged.tunnel->0.current_run_artifacts
        }),
{
}

} // verus!
