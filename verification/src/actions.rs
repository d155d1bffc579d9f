//! The other actions on a tunnel: routes, items, statistics and admin changes.

use crate::arith::{larger, max_of, min_of, nearest, sat_add, smaller};
use crate::json::{
    json_of_text, object, optional_int, optional_text, parse_json, render_json, text_of_json,
    tree_option, Json, JsonView,
};
use crate::outcome::{snapshot_depth, DigRuntimeRequest};
use crate::snapshot::{DigRuntimeSnapshot, DigRuntimeTunnel, SnapshotView, TunnelView};
use crate::store::{CommitView, DigRuntimeCommit, DigRuntimeCommitReceipt, DigRuntimeStoreError};
use crate::text::{
    borrow_text, copy_text, int_text, integer_text, join3, join5, same_text, text_view, texts,
};
use crate::version::{version_of, DigRuntimeVersion};
use vstd::prelude::*;
use vstd::string::*;

verus! {

/// Typed result of a route or item action.
#[derive(Debug, PartialEq, Eq)]
pub struct DigRuntimeActionResult {
    pub success: bool,
    pub error: Option<String>,
    pub item: Option<String>,
    pub item_id: Option<i64>,
    pub route_id: Option<String>,
    pub cost: i64,
    pub queued: bool,
    pub balance_after: i64,
    pub action_id: Option<i64>,
}

/// What a [`DigRuntimeActionResult`] holds.
#[verifier::ext_equal]
pub struct ActionView {
    pub success: bool,
    pub error: Option<Seq<char>>,
    pub item: Option<Seq<char>>,
    pub item_id: Option<i64>,
    pub route_id: Option<Seq<char>>,
    pub cost: i64,
    pub queued: bool,
    pub balance_after: i64,
    pub action_id: Option<i64>,
}

impl View for DigRuntimeActionResult {
    type V = ActionView;

    open spec fn view(&self) -> ActionView {
        ActionView {
            success: self.success,
            error: text_view(self.error),
            item: text_view(self.item),
            item_id: self.item_id,
            route_id: text_view(self.route_id),
            cost: self.cost,
            queued: self.queued,
            balance_after: self.balance_after,
            action_id: self.action_id,
        }
    }
}

impl Clone for DigRuntimeActionResult {
    fn clone(&self) -> (copy: DigRuntimeActionResult)
        ensures
            copy == *self,
    {
        DigRuntimeActionResult {
            success: self.success,
            error: copy_text(&self.error),
            item: copy_text(&self.item),
            item_id: self.item_id,
            route_id: copy_text(&self.route_id),
            cost: self.cost,
            queued: self.queued,
            balance_after: self.balance_after,
            action_id: self.action_id,
        }
    }
}

/// What a staged loot action reports.
#[derive(Debug, PartialEq, Eq)]
pub struct LootActionResult {
    pub success: bool,
    pub error: Option<String>,
    pub item: Option<String>,
    pub item_id: Option<i64>,
    pub cost: i64,
    pub queued: bool,
}

/// What a [`LootActionResult`] holds.
#[verifier::ext_equal]
pub struct LootActionView {
    pub success: bool,
    pub error: Option<Seq<char>>,
    pub item: Option<Seq<char>>,
    pub item_id: Option<i64>,
    pub cost: i64,
    pub queued: bool,
}

impl View for LootActionResult {
    type V = LootActionView;

    open spec fn view(&self) -> LootActionView {
        LootActionView {
            success: self.success,
            error: text_view(self.error),
            item: text_view(self.item),
            item_id: self.item_id,
            cost: self.cost,
            queued: self.queued,
        }
    }
}

impl Clone for LootActionResult {
    fn clone(&self) -> (copy: LootActionResult)
        ensures
            copy == *self,
    {
        LootActionResult {
            success: self.success,
            error: copy_text(&self.error),
            item: copy_text(&self.item),
            item_id: self.item_id,
            cost: self.cost,
            queued: self.queued,
        }
    }
}

/// The summary of a tunnel that is shown to its owner.
#[derive(Debug, PartialEq, Eq)]
pub struct DigRuntimeTunnelInfo {
    pub depth: i64,
    pub total_digs: i64,
    pub total_jc_earned: i64,
    pub last_dig_at: Option<i64>,
    pub pickaxe_tier: i64,
    pub prestige_level: i64,
    pub luminosity: i64,
    pub hard_hat_charges: i64,
    pub tunnel_name: String,
    pub route_state: Option<String>,
}

/// What a [`DigRuntimeTunnelInfo`] holds.
#[verifier::ext_equal]
pub struct TunnelInfoView {
    pub depth: i64,
    pub total_digs: i64,
    pub total_jc_earned: i64,
    pub last_dig_at: Option<i64>,
    pub pickaxe_tier: i64,
    pub prestige_level: i64,
    pub luminosity: i64,
    pub hard_hat_charges: i64,
    pub tunnel_name: Seq<char>,
    pub route_state: Option<Seq<char>>,
}

impl View for DigRuntimeTunnelInfo {
    type V = TunnelInfoView;

    open spec fn view(&self) -> TunnelInfoView {
        TunnelInfoView {
            depth: self.depth,
            total_digs: self.total_digs,
            total_jc_earned: self.total_jc_earned,
            last_dig_at: self.last_dig_at,
            pickaxe_tier: self.pickaxe_tier,
            prestige_level: self.prestige_level,
            luminosity: self.luminosity,
            hard_hat_charges: self.hard_hat_charges,
            tunnel_name: self.tunnel_name@,
            route_state: text_view(self.route_state),
        }
    }
}

impl Clone for DigRuntimeTunnelInfo {
    fn clone(&self) -> (copy: DigRuntimeTunnelInfo)
        ensures
            copy == *self,
    {
        DigRuntimeTunnelInfo {
            depth: self.depth,
            total_digs: self.total_digs,
            total_jc_earned: self.total_jc_earned,
            last_dig_at: self.last_dig_at,
            pickaxe_tier: self.pickaxe_tier,
            prestige_level: self.prestige_level,
            luminosity: self.luminosity,
            hard_hat_charges: self.hard_hat_charges,
            tunnel_name: self.tunnel_name.clone(),
            route_state: copy_text(&self.route_state),
        }
    }
}

/// The boast of a miner.
#[derive(Debug, PartialEq, Eq)]
pub struct DigRuntimeFlexData {
    pub tunnel_name: String,
    pub depth: i64,
    pub total_digs: i64,
    pub total_jc_earned: i64,
    pub prestige_level: i64,
    pub prestige_emoji: String,
    pub titles: Vec<String>,
    pub streak: i64,
    pub layer: String,
}

/// What a [`DigRuntimeFlexData`] holds.
#[verifier::ext_equal]
pub struct FlexView {
    pub tunnel_name: Seq<char>,
    pub depth: i64,
    pub total_digs: i64,
    pub total_jc_earned: i64,
    pub prestige_level: i64,
    pub prestige_emoji: Seq<char>,
    pub titles: Seq<Seq<char>>,
    pub streak: i64,
    pub layer: Seq<char>,
}

impl View for DigRuntimeFlexData {
    type V = FlexView;

    open spec fn view(&self) -> FlexView {
        FlexView {
            tunnel_name: self.tunnel_name@,
            depth: self.depth,
            total_digs: self.total_digs,
            total_jc_earned: self.total_jc_earned,
            prestige_level: self.prestige_level,
            prestige_emoji: self.prestige_emoji@,
            titles: texts(self.titles@),
            streak: self.streak,
            layer: self.layer@,
        }
    }
}

/// Rotates a word to the left.
pub open spec fn rotated(value: u64, by: u64) -> u64 {
    (value << by) | (value >> ((64 - by) as u64))
}

/// The seed of a request under a secret.
pub open spec fn seed_value(request: DigRuntimeRequest, secret: u64) -> u64 {
    let owner = rotated(request.discord_id as u64, 17) ^ (request.guild_id as u64);
    let timed = rotated(owner, 23) ^ (request.now as u64);
    let flags = (if request.paid {
        1u64
    } else {
        0u64
    }) ^ (if request.forced_event {
        2u64
    } else {
        0u64
    });
    timed ^ flags ^ secret
}

/// Derives the seed of a request: the owner, the time and the flags, mixed with
/// a secret.
pub fn seed_for(request: DigRuntimeRequest, secret: u64) -> (seed: u64)
    ensures
        seed == seed_value(request, secret),
{
    let actor = request.discord_id as u64;
    let owner = ((actor << 17u64) | (actor >> 47u64)) ^ (request.guild_id as u64);
    let timed = ((owner << 23u64) | (owner >> 41u64)) ^ (request.now as u64);
    let paid: u64 = if request.paid {
        1
    } else {
        0
    };
    let forced: u64 = if request.forced_event {
        2
    } else {
        0
    };
    timed ^ (paid ^ forced) ^ secret
}

/// A secret of zero leaves the seed as the request alone gives it, and any
/// other secret can be taken off again.
pub proof fn law_secret_masks_the_seed(request: DigRuntimeRequest, secret: u64)
    ensures
        seed_value(request, secret) ^ secret == seed_value(request, 0),
{
    let bare = seed_value(request, 0);
    let owner = rotated(request.discord_id as u64, 17) ^ (request.guild_id as u64);
    let timed = rotated(owner, 23) ^ (request.now as u64);
    let flags = (if request.paid {
        1u64
    } else {
        0u64
    }) ^ (if request.forced_event {
        2u64
    } else {
        0u64
    });
    assert((timed ^ flags ^ secret) ^ secret == timed ^ flags ^ 0u64) by (bit_vector);
}

/// Two requests that differ in nothing but the paid flag have different seeds.
pub proof fn law_paid_flag_changes_the_seed(request: DigRuntimeRequest, secret: u64)
    ensures
        seed_value(DigRuntimeRequest { paid: true, ..request }, secret) != seed_value(
            DigRuntimeRequest { paid: false, ..request },
            secret,
        ),
{
    let owner = rotated(request.discord_id as u64, 17) ^ (request.guild_id as u64);
    let timed = rotated(owner, 23) ^ (request.now as u64);
    let forced = if request.forced_event {
        2u64
    } else {
        0u64
    };
    assert(timed ^ (1u64 ^ forced) ^ secret != timed ^ (0u64 ^ forced) ^ secret) by (bit_vector);
}

/// An action that was turned away.
pub open spec fn refused(snapshot: SnapshotView, message: Seq<char>) -> ActionView {
    ActionView {
        success: false,
        error: Some(message),
        item: None,
        item_id: None,
        route_id: None,
        cost: 0,
        queued: false,
        balance_after: snapshot.balance,
        action_id: None,
    }
}

/// A route that is selected.
pub open spec fn route_selected(route_id: Seq<char>, balance_after: i64, action_id: Option<i64>)
    -> ActionView {
    ActionView {
        success: true,
        error: None,
        item: None,
        item_id: None,
        route_id: Some(route_id),
        cost: 0,
        queued: false,
        balance_after,
        action_id,
    }
}

/// A loot action that was staged, or refused by the loot rules.
pub open spec fn loot_told(result: LootActionView, balance_after: i64, action_id: Option<i64>)
    -> ActionView {
    ActionView {
        success: result.success,
        error: result.error,
        item: result.item,
        item_id: result.item_id,
        route_id: None,
        cost: result.cost,
        queued: result.queued,
        balance_after,
        action_id,
    }
}

impl DigRuntimeActionResult {
    /// Turns an action away with a message.
    pub fn error(snapshot: &DigRuntimeSnapshot, message: String) -> (result: DigRuntimeActionResult)
        ensures
            result@ == refused(snapshot@, message@),
    {
        DigRuntimeActionResult {
            success: false,
            error: Some(message),
            item: None,
            item_id: None,
            route_id: None,
            cost: 0,
            queued: false,
            balance_after: snapshot.balance,
            action_id: None,
        }
    }

    /// Reports a loot action that was not committed.
    pub fn from_loot(snapshot: &DigRuntimeSnapshot, result: LootActionResult) -> (told:
        DigRuntimeActionResult)
        ensures
            told@ == loot_told(result@, snapshot@.balance, None),
    {
        DigRuntimeActionResult {
            success: result.success,
            error: result.error,
            item: result.item,
            item_id: result.item_id,
            route_id: None,
            cost: result.cost,
            queued: result.queued,
            balance_after: snapshot.balance,
            action_id: None,
        }
    }
}

/// How the route rules judge a choice.
#[derive(Debug)]
pub enum RouteChoice {
    /// The route is taken and the column becomes this text.
    Select(String),
    /// The route was taken before.
    AlreadySelected,
    /// The choice is not on offer.
    Rejected(String),
}

/// What an action asks of the store.
#[derive(Debug)]
pub enum ActionPlan {
    /// The action ends here.
    Answer(DigRuntimeActionResult),
    /// This is to be committed.
    Commit(DigRuntimeCommit),
}

/// A commit that moves no block and burns no row.
pub open spec fn still_commit(
    snapshot: SnapshotView,
    next: SnapshotView,
    jc_delta: i64,
    action_type: Seq<char>,
    detail: Seq<char>,
    now: i64,
) -> CommitView {
    CommitView {
        expected: version_of(snapshot),
        next,
        consumed_item_ids: Seq::empty(),
        pet_work_claim: None,
        consume_overgrowth: false,
        depth_before: snapshot_depth(snapshot),
        depth_after: snapshot_depth(snapshot),
        jc_delta,
        vanity_tax: 0,
        low_priority_tax: 0,
        balance_cost: 0,
        action_type,
        detail,
        now,
    }
}

fn commit_in_place(
    snapshot: &DigRuntimeSnapshot,
    next: DigRuntimeSnapshot,
    jc_delta: i64,
    action_type: &str,
    detail: String,
    now: i64,
) -> (commit: DigRuntimeCommit)
    ensures
        commit@ == still_commit(snapshot@, next@, jc_delta, action_type@, detail@, now),
{
    let depth = match &snapshot.tunnel {
        Some(tunnel) => tunnel.depth,
        None => 0,
    };
    let commit = DigRuntimeCommit {
        expected: DigRuntimeVersion::of(snapshot),
        next,
        consumed_item_ids: Vec::new(),
        pet_work_claim: None,
        consume_overgrowth: false,
        depth_before: depth,
        depth_after: depth,
        jc_delta,
        vanity_tax: 0,
        low_priority_tax: 0,
        balance_cost: 0,
        action_type: action_type.to_owned(),
        detail,
        now,
    };
    assert(commit@ =~= still_commit(snapshot@, next@, jc_delta, action_type@, detail@, now));
    commit
}

/// A snapshot on a route.
pub open spec fn on_route(snapshot: SnapshotView, route_state: Seq<char>) -> SnapshotView {
    SnapshotView {
        tunnel: match snapshot.tunnel {
            Some(tunnel) => Some(TunnelView { route_state: Some(route_state), ..tunnel }),
            None => None,
        },
        ..snapshot
    }
}

/// Plans a route choice: without a tunnel, with a rejected choice, and with a
/// route that was taken before, there is nothing to commit.
pub fn plan_route_choice(
    snapshot: &DigRuntimeSnapshot,
    choice: RouteChoice,
    route_id: &str,
    now: i64,
) -> (plan: ActionPlan)
    ensures
        match plan {
            ActionPlan::Answer(result) => {
                ||| snapshot@.tunnel is None && result@ == refused(
                    snapshot@,
                    "You don't have a tunnel."@,
                )
                ||| snapshot@.tunnel is Some && choice is AlreadySelected && result@
                    == route_selected(route_id@, snapshot@.balance, None)
                ||| snapshot@.tunnel is Some && (choice matches RouteChoice::Rejected(message)
                    && result@ == refused(snapshot@, message@))
            },
            ActionPlan::Commit(commit) => {
                &&& snapshot@.tunnel is Some
                &&& choice matches RouteChoice::Select(route_state)
                &&& commit@ == still_commit(
                    snapshot@,
                    on_route(snapshot@, route_state@),
                    0,
                    "route_choice"@,
                    text_of_json(object().with("route_id"@, JsonView::Text(route_id@))),
                    now,
                )
            },
        },
{
    if snapshot.tunnel.is_none() {
        return ActionPlan::Answer(
            DigRuntimeActionResult::error(snapshot, "You don't have a tunnel.".to_owned()),
        );
    }
    match choice {
        RouteChoice::Rejected(message) => ActionPlan::Answer(
            DigRuntimeActionResult::error(snapshot, message),
        ),
        RouteChoice::AlreadySelected => ActionPlan::Answer(
            DigRuntimeActionResult {
                success: true,
                error: None,
                item: None,
                item_id: None,
                route_id: Some(route_id.to_owned()),
                cost: 0,
                queued: false,
                balance_after: snapshot.balance,
                action_id: None,
            },
        ),
        RouteChoice::Select(route_state) => {
            let mut next = snapshot.clone();
            match next.tunnel.take() {
                Some(taken) => {
                    let mut tunnel = taken;
                    tunnel.route_state = Some(route_state);
                    next.tunnel = Some(tunnel);
                },
                None => {},
            }
            assert(next@ =~= on_route(snapshot@, route_state@));
            let mut detail = Json::empty_object();
            detail.set("route_id", Json::from_text(route_id));
            ActionPlan::Commit(
                commit_in_place(snapshot, next, 0, "route_choice", render_json(detail), now),
            )
        },
    }
}

/// Reports a route choice that was committed.
pub fn confirm_route(route_id: &str, receipt: &DigRuntimeCommitReceipt) -> (result:
    DigRuntimeActionResult)
    ensures
        result@ == route_selected(
            route_id@,
            receipt@.balance_after,
            Some(receipt@.action_id),
        ),
{
    DigRuntimeActionResult {
        success: true,
        error: None,
        item: None,
        item_id: None,
        route_id: Some(route_id.to_owned()),
        cost: 0,
        queued: false,
        balance_after: receipt.balance_after,
        action_id: Some(receipt.action_id),
    }
}

/// Whether a player can take a loot action: registered, with a tunnel.
pub fn check_loot_action(snapshot: &DigRuntimeSnapshot) -> (answer: Option<DigRuntimeActionResult>)
    ensures
        match answer {
            Some(result) => (!snapshot@.registered || snapshot@.tunnel is None) && result@
                == refused(snapshot@, "You don't have a tunnel."@),
            None => snapshot@.registered && snapshot@.tunnel is Some,
        },
{
    if !snapshot.registered || snapshot.tunnel.is_none() {
        Some(DigRuntimeActionResult::error(snapshot, "You don't have a tunnel.".to_owned()))
    } else {
        None
    }
}

/// How a loot action is audited.
pub open spec fn loot_tree(result: LootActionView) -> JsonView {
    object().with("item"@, optional_text(result.item)).with("item_id"@, optional_int(result.item_id))
}

/// Plans a loot action from what the loot rules staged. Only a success is
/// committed, at its price.
pub fn plan_loot_action(
    snapshot: &DigRuntimeSnapshot,
    staged: DigRuntimeSnapshot,
    result: &LootActionResult,
    action_type: &str,
    now: i64,
) -> (plan: ActionPlan)
    requires
        result.cost > i64::MIN,
    ensures
        match plan {
            ActionPlan::Answer(told) => !result.success && told@ == loot_told(
                result@,
                snapshot@.balance,
                None,
            ),
            ActionPlan::Commit(commit) => result.success && commit@ == still_commit(
                snapshot@,
                staged@,
                (-result.cost) as i64,
                action_type@,
                text_of_json(loot_tree(result@)),
                now,
            ),
        },
{
    if !result.success {
        return ActionPlan::Answer(DigRuntimeActionResult::from_loot(snapshot, result.clone()));
    }
    let mut detail = Json::empty_object();
    detail.set("item", Json::from_optional_text(borrow_text(&result.item)));
    detail.set("item_id", Json::from_optional_i64(result.item_id));
    ActionPlan::Commit(
        commit_in_place(snapshot, staged, -result.cost, action_type, render_json(detail), now),
    )
}

/// Reports a loot action that was committed.
pub fn confirm_loot_action(result: LootActionResult, receipt: &DigRuntimeCommitReceipt) -> (told:
    DigRuntimeActionResult)
    ensures
        told@ == (ActionView {
            success: true,
            error: None,
            ..loot_told(result@, receipt@.balance_after, Some(receipt@.action_id))
        }),
{
    DigRuntimeActionResult {
        success: true,
        error: None,
        item: result.item,
        item_id: result.item_id,
        route_id: None,
        cost: result.cost,
        queued: result.queued,
        balance_after: receipt.balance_after,
        action_id: Some(receipt.action_id),
    }
}

/// Summarises a tunnel.
pub fn tunnel_info(tunnel: &DigRuntimeTunnel) -> (info: DigRuntimeTunnelInfo)
    ensures
        info@ == (TunnelInfoView {
            depth: tunnel@.depth,
            total_digs: tunnel@.total_digs,
            total_jc_earned: tunnel@.total_jc_earned,
            last_dig_at: tunnel@.last_dig_at,
            pickaxe_tier: tunnel@.pickaxe_tier,
            prestige_level: tunnel@.prestige_level,
            luminosity: tunnel@.luminosity,
            hard_hat_charges: tunnel@.hard_hat_charges,
            tunnel_name: tunnel@.tunnel_name,
            route_state: tunnel@.route_state,
        }),
{
    DigRuntimeTunnelInfo {
        depth: tunnel.depth,
        total_digs: tunnel.total_digs,
        total_jc_earned: tunnel.total_jc_earned,
        last_dig_at: tunnel.last_dig_at,
        pickaxe_tier: tunnel.pickaxe_tier,
        prestige_level: tunnel.prestige_level,
        luminosity: tunnel.luminosity,
        hard_hat_charges: tunnel.hard_hat_charges,
        tunnel_name: tunnel.tunnel_name.clone(),
        route_state: copy_text(&tunnel.route_state),
    }
}

/// The status that a progress entry names: a text is the status, an object
/// holds it, and anything else counts as active.
pub open spec fn entry_status(entry: JsonView) -> Seq<char> {
    match entry {
        JsonView::Text(status) => status,
        JsonView::Object(_) => match entry.text_at("status"@) {
            Some(status) => status,
            None => "active"@,
        },
        _ => "active"@,
    }
}

/// Whether every boss is defeated: every one on the list, and every other one
/// that the progress column mentions.
pub open spec fn all_bosses_defeated(progress: Option<JsonView>, boundaries: Seq<i64>) -> bool {
    match progress {
        Some(JsonView::Object(map)) => {
            &&& forall|i: int|
                0 <= i < boundaries.len() ==> map.dom().contains(
                    int_text(#[trigger] boundaries[i] as int),
                )
            &&& forall|key: Seq<char>| #[trigger]
                map.dom().contains(key) ==> entry_status(map[key]) == "defeated"@
        },
        _ => boundaries.len() == 0,
    }
}

fn entry_is_defeated(entry: &Json) -> (answer: bool)
    ensures
        answer == (entry_status(entry@) == "defeated"@),
{
    proof {
        reveal_strlit("active");
        reveal_strlit("defeated");
        assert("active"@.len() != "defeated"@.len());
    }
    match entry {
        Json::Text(status) => same_text(status.as_str(), "defeated"),
        Json::Object(_) => match entry.text_at("status") {
            Some(status) => same_text(status, "defeated"),
            None => false,
        },
        _ => false,
    }
}

/// Whether a parsed progress column shows every boss defeated.
pub fn bosses_defeated(progress: &Option<Json>, boundaries: &Vec<i64>) -> (answer: bool)
    ensures
        answer == all_bosses_defeated(tree_option(*progress), boundaries@),
{
    match progress {
        Some(tree) => match tree {
            Json::Object(entries) => {
                let ghost map = crate::json::entry_map(entries@);
                let mut i: usize = 0;
                while i < boundaries.len()
                    invariant
                        i <= boundaries.len(),
                        *tree == Json::Object(*entries),
                        map == crate::json::entry_map(entries@),
                        tree_option(*progress) == Some(JsonView::Object(map)),
                        forall|j: int|
                            0 <= j < i ==> map.dom().contains(
                                int_text(#[trigger] boundaries@[j] as int),
                            ),
                    decreases boundaries.len() - i,
                {
                    if tree.get(integer_text(boundaries[i]).as_str()).is_none() {
                        assert(!map.dom().contains(int_text(boundaries@[i as int] as int)));
                        return false;
                    }
                    i = i + 1;
                }
                let mut k: usize = 0;
                while k < entries.len()
                    invariant
                        k <= entries.len(),
                        *tree == Json::Object(*entries),
                        map == crate::json::entry_map(entries@),
                        tree_option(*progress) == Some(JsonView::Object(map)),
                        forall|j: int|
                            0 <= j < boundaries.len() ==> map.dom().contains(
                                int_text(#[trigger] boundaries@[j] as int),
                            ),
                        forall|j: int|
                            0 <= j < k ==> entry_status(map[(#[trigger] entries@[j]).0@])
                                == "defeated"@,
                    decreases entries.len() - k,
                {
                    proof {
                        crate::json::lemma_entries_absent(entries@, entries@[k as int].0@);
                        assert(entries@[k as int].0@ == entries@[k as int].0@);
                        assert(map.dom().contains(entries@[k as int].0@));
                    }
                    match tree.get(entries[k].0.as_str()) {
                        Some(entry) => {
                            if !entry_is_defeated(entry) {
                                return false;
                            }
                        },
                        None => {},
                    }
                    k = k + 1;
                }
                proof {
                    assert forall|key: Seq<char>| #[trigger] map.dom().contains(
                        key,
                    ) implies entry_status(map[key]) == "defeated"@ by {
                        crate::json::lemma_entries_absent(entries@, key);
                        let j = choose|j: int|
                            0 <= j < entries@.len() && #[trigger] entries@[j].0@ == key;
                        assert(entry_status(map[entries@[j].0@]) == "defeated"@);
                    }
                }
                true
            },
            _ => boundaries.len() == 0,
        },
        None => boundaries.len() == 0,
    }
}

/// Stars, one for each of at most five prestige levels.
pub open spec fn star_text(count: nat) -> Seq<char>
    decreases count,
{
    if count == 0 {
        Seq::empty()
    } else {
        star_text((count - 1) as nat) + "⭐"@
    }
}

fn stars(count: i64) -> (text: String)
    requires
        0 <= count,
    ensures
        text@ == star_text(count as nat),
{
    let mut text = String::new();
    let mut i: i64 = 0;
    while i < count
        invariant
            0 <= i <= count,
            text@ == star_text(i as nat),
        decreases count - i,
    {
        text.append("⭐");
        i = i + 1;
    }
    text
}

/// The boast of a tunnel.
pub open spec fn flex_of(tunnel: TunnelView, boundaries: Seq<i64>, layer: Seq<char>) -> FlexView {
    let level = larger(tunnel.prestige_level, 0);
    FlexView {
        tunnel_name: tunnel.tunnel_name,
        depth: tunnel.depth,
        total_digs: tunnel.total_digs,
        total_jc_earned: tunnel.total_jc_earned,
        prestige_level: level,
        prestige_emoji: star_text(smaller(level, 5) as nat),
        titles: if all_bosses_defeated(json_of_text(tunnel.boss_progress), boundaries) {
            seq!["Boss Slayer"@]
        } else {
            Seq::empty()
        },
        streak: tunnel.streak_days,
        layer,
    }
}

/// Boasts about a tunnel.
pub fn flex_data(tunnel: &DigRuntimeTunnel, boundaries: &Vec<i64>, layer: &str) -> (flex:
    DigRuntimeFlexData)
    ensures
        flex@ == flex_of(tunnel@, boundaries@, layer@),
{
    let level = max_of(tunnel.prestige_level, 0);
    let mut titles: Vec<String> = Vec::new();
    if bosses_defeated(&parse_json(tunnel.boss_progress.as_str()), boundaries) {
        titles.push("Boss Slayer".to_owned());
    }
    let flex = DigRuntimeFlexData {
        tunnel_name: tunnel.tunnel_name.clone(),
        depth: tunnel.depth,
        total_digs: tunnel.total_digs,
        total_jc_earned: tunnel.total_jc_earned,
        prestige_level: level,
        prestige_emoji: stars(min_of(level, 5)),
        titles,
        streak: tunnel.streak_days,
        layer: layer.to_owned(),
    };
    assert(flex@ =~= flex_of(tunnel@, boundaries@, layer@));
    flex
}

/// What helping a tunnel does.
#[derive(Debug, PartialEq, Eq)]
pub struct HelpPlan {
    /// Depth and greatest depth to store, where there is a tunnel to help.
    pub depths: Option<(i64, i64)>,
    pub message: String,
}

/// Plans helping the tunnel of another miner by one block.
pub fn plan_help(target: Option<(i64, i64)>, target_id: i64) -> (plan: HelpPlan)
    ensures
        match target {
            Some((depth, max_depth)) => {
                let after = nearest(depth + 1);
                &&& plan.depths == Some((after, larger(max_depth, after)))
                &&& plan.message@ == "You steadied <@"@ + int_text(target_id as int)
                    + ">'s tunnel and helped them reach depth **"@ + int_text(after as int)
                    + "**."@
            },
            None => {
                &&& plan.depths is None
                &&& plan.message@ == "That miner has not started a tunnel yet."@
            },
        },
{
    match target {
        Some((depth, max_depth)) => {
            let after = sat_add(depth, 1);
            HelpPlan {
                depths: Some((after, max_of(max_depth, after))),
                message: join5(
                    "You steadied <@",
                    integer_text(target_id).as_str(),
                    ">'s tunnel and helped them reach depth **",
                    integer_text(after).as_str(),
                    "**.",
                ),
            }
        },
        None => HelpPlan {
            depths: None,
            message: "That miner has not started a tunnel yet.".to_owned(),
        },
    }
}

/// What a statistics reset costs.
pub const RESPEC_COST: i64 = 50;

/// What a statistics reset asks of the store.
#[derive(Debug, PartialEq, Eq)]
pub enum RespecPlan {
    /// The request ends here with this message.
    Answer(String),
    /// The wallet is to be debited and the points returned, under this detail.
    Reset { returned_points: i64, detail: String },
}

/// The points that a statistics reset returns.
pub open spec fn points_back(strength: i64, smarts: i64, stamina: i64) -> i64 {
    nearest(nearest(strength + smarts) + stamina)
}

/// What a miner reads who cannot pay a reset.
pub open spec fn respec_price_text(emote: Seq<char>, balance: i64) -> Seq<char> {
    "Respec costs "@ + int_text(RESPEC_COST as int) + " "@ + emote + "; your balance is "@
        + int_text(balance as int) + "."@
}

/// How a statistics reset is audited.
pub open spec fn respec_tree(strength: i64, smarts: i64, stamina: i64) -> JsonView {
    object().with("cost"@, JsonView::Int(RESPEC_COST)).with(
        "returned_points"@,
        JsonView::Int(points_back(strength, smarts, stamina)),
    ).with(
        "previous_stats"@,
        object().with("strength"@, JsonView::Int(strength)).with(
            "smarts"@,
            JsonView::Int(smarts),
        ).with("stamina"@, JsonView::Int(stamina)),
    )
}

/// Tells a miner that a reset costs more than the wallet holds.
pub fn respec_price_message(emote: &str, balance: i64) -> (message: String)
    ensures
        message@ == respec_price_text(emote@, balance),
{
    let start = join5(
        "Respec costs ",
        integer_text(RESPEC_COST).as_str(),
        " ",
        emote,
        "; your balance is ",
    );
    join3(start.as_str(), integer_text(balance).as_str(), ".")
}

/// Tells a miner that the reset is done.
pub fn respec_done_message(emote: &str) -> (message: String)
    ensures
        message@ == "Respec complete. Spent "@ + int_text(RESPEC_COST as int) + " "@ + emote@
            + "."@,
{
    join5("Respec complete. Spent ", integer_text(RESPEC_COST).as_str(), " ", emote, ".")
}

/// Plans a statistics reset: the player must be registered, have allocated
/// points, and be able to pay, in this order.
pub fn plan_respec(balance: Option<i64>, stats: Option<(i64, i64, i64)>, emote: &str) -> (plan:
    RespecPlan)
    ensures
        match (balance, stats) {
            (None, _) => plan matches RespecPlan::Answer(message) && message@
                == "You must be registered first."@,
            (Some(_), None) => plan matches RespecPlan::Answer(message) && message@
                == "You don't have any allocated S points to reset."@,
            (Some(balance), Some((strength, smarts, stamina))) => {
                let returned = points_back(strength, smarts, stamina);
                if returned <= 0 {
                    plan matches RespecPlan::Answer(message) && message@
                        == "You don't have any allocated S points to reset."@
                } else if balance < RESPEC_COST {
                    plan matches RespecPlan::Answer(message) && message@ == respec_price_text(
                        emote@,
                        balance,
                    )
                } else {
                    plan matches RespecPlan::Reset { returned_points, detail } && returned_points
                        == returned && detail@ == text_of_json(
                        respec_tree(strength, smarts, stamina),
                    )
                }
            },
        },
{
    let balance = match balance {
        Some(balance) => balance,
        None => {
            return RespecPlan::Answer("You must be registered first.".to_owned());
        },
    };
    let (strength, smarts, stamina) = match stats {
        Some(stats) => stats,
        None => {
            return RespecPlan::Answer(
                "You don't have any allocated S points to reset.".to_owned(),
            );
        },
    };
    let returned = sat_add(sat_add(strength, smarts), stamina);
    if returned <= 0 {
        return RespecPlan::Answer("You don't have any allocated S points to reset.".to_owned());
    }
    if balance < RESPEC_COST {
        return RespecPlan::Answer(respec_price_message(emote, balance));
    }
    let mut previous = Json::empty_object();
    previous.set("strength", Json::from_i64(strength));
    previous.set("smarts", Json::from_i64(smarts));
    previous.set("stamina", Json::from_i64(stamina));
    let mut detail = Json::empty_object();
    detail.set("cost", Json::from_i64(RESPEC_COST));
    detail.set("returned_points", Json::from_i64(returned));
    detail.set("previous_stats", previous);
    RespecPlan::Reset { returned_points: returned, detail: render_json(detail) }
}

/// Which automatic purchases a setting switches.
#[derive(Clone, Copy, Debug, PartialEq, Eq, Structural)]
pub struct AutoBuySwitch {
    pub torch: bool,
    pub hard_hat: bool,
}

/// Reads which automatic purchases an item name stands for.
pub fn auto_buy_switch(item: &str) -> (switch: Result<AutoBuySwitch, DigRuntimeStoreError>)
    ensures
        match switch {
            Ok(switch) => {
                &&& item@ == "torch"@ || item@ == "hard_hat"@ || item@ == "both"@
                &&& switch.torch == (item@ == "torch"@ || item@ == "both"@)
                &&& switch.hard_hat == (item@ == "hard_hat"@ || item@ == "both"@)
            },
            Err(error) => {
                &&& error is StateConflict
                &&& item@ != "torch"@ && item@ != "hard_hat"@ && item@ != "both"@
            },
        },
{
    proof {
        reveal_strlit("torch");
        reveal_strlit("hard_hat");
        reveal_strlit("both");
        assert("torch"@.len() == 5 && "hard_hat"@.len() == 8 && "both"@.len() == 4);
    }
    if same_text(item, "torch") {
        Ok(AutoBuySwitch { torch: true, hard_hat: false })
    } else if same_text(item, "hard_hat") {
        Ok(AutoBuySwitch { torch: false, hard_hat: true })
    } else if same_text(item, "both") {
        Ok(AutoBuySwitch { torch: true, hard_hat: true })
    } else {
        Err(DigRuntimeStoreError::StateConflict)
    }
}

/// What became of an admin change.
#[derive(Clone, Copy, Debug, PartialEq, Eq, Structural)]
pub enum DigAdminMutationOutcome {
    Applied,
    MissingTunnel,
}

/// Reads what became of an admin change from the number of changed rows.
pub fn admin_outcome(changed_rows: usize) -> (outcome: DigAdminMutationOutcome)
    ensures
        outcome == (if changed_rows == 1 {
            DigAdminMutationOutcome::Applied
        } else {
            DigAdminMutationOutcome::MissingTunnel
        }),
{
    if changed_rows == 1 {
        DigAdminMutationOutcome::Applied
    } else {
        DigAdminMutationOutcome::MissingTunnel
    }
}

/// The depth that an admin change stores; a tunnel has no negative depth.
pub fn admin_depth(depth: i64) -> (stored: i64)
    ensures
        stored == larger(depth, 0),
{
    max_of(depth, 0)
}

/// An action that moves no block changes neither the depth in its audit nor the
/// rows that a commit burns.
pub proof fn law_still_commit_moves_nothing(
    snapshot: SnapshotView,
    next: SnapshotView,
    jc_delta: i64,
    action_type: Seq<char>,
    detail: Seq<char>,
    now: i64,
)
    ensures
        ({
            let commit = still_commit(snapshot, next, jc_delta, action_type, detail, now);
            &&& commit.depth_before == commit.depth_after
            &&& commit.consumed_item_ids.len() == 0
            &&& commit.expected == version_of(snapshot)
            &&& commit.next == next
        }),
{
}

/// A miner who resets gets every allocated point back, and only a miner who has
/// allocated some and can pay resets.
pub proof fn law_points_come_back(strength: i64, smarts: i64, stamina: i64)
    requires
        strength >= 0,
        smarts >= 0,
        stamina >= 0,
        strength + smarts + stamina <= i64::MAX,
    ensures
        points_back(strength, smarts, stamina) == strength + smarts + stamina,
{
}

} // verus!
