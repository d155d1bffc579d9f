//! What one dig request asks for and what it reports back.

use crate::snapshot::{DigRuntimeSnapshot, SnapshotView};
use crate::text::{copy_text, text_view, texts};
use vstd::prelude::*;

verus! {

/// Light a tunnel can hold.
pub const LUMINOSITY_MAX: i64 = 100;

/// Request to execute one real or paid dig.
#[derive(Clone, Copy, Debug, PartialEq, Eq, Structural)]
pub struct DigRuntimeRequest {
    pub discord_id: i64,
    pub guild_id: i64,
    pub now: i64,
    pub paid: bool,
    pub forced_event: bool,
}

/// The authored weather of the layer that a dig reached.
#[derive(Debug, PartialEq, Eq)]
pub struct DigRuntimeWeatherInfo {
    pub name: String,
    pub description: String,
}

/// What a [`DigRuntimeWeatherInfo`] holds.
#[verifier::ext_equal]
pub struct WeatherInfoView {
    pub name: Seq<char>,
    pub description: Seq<char>,
}

impl View for DigRuntimeWeatherInfo {
    type V = WeatherInfoView;

    open spec fn view(&self) -> WeatherInfoView {
        WeatherInfoView {
            name: self.name@,
            description: self.description@,
        }
    }
}

impl Clone for DigRuntimeWeatherInfo {
    fn clone(&self) -> (copy: DigRuntimeWeatherInfo)
        ensures
            copy == *self,
    {
        DigRuntimeWeatherInfo {
            name: self.name.clone(),
            description: self.description.clone(),
        }
    }
}

/// Typed result of one dig request.
#[derive(Debug, PartialEq, Eq)]
pub struct DigRuntimeOutcome {
    pub success: bool,
    pub error: Option<String>,
    pub depth_before: i64,
    pub depth_after: i64,
    pub advance: i64,
    pub jc_earned: i64,
    /// Vanity tax withheld from the reward.
    pub vanity_tax: i64,
    /// Low-priority tax withheld from the same reward.
    pub low_priority_tax: i64,
    pub balance_after: i64,
    pub tunnel_name: String,
    pub milestone_bonus: i64,
    pub streak_bonus: i64,
    pub bankruptcy_penalty: i64,
    pub luminosity_after: i64,
    pub luminosity_drained: i64,
    pub corruption_description: Option<String>,
    pub mutation_names: Vec<String>,
    pub tip: String,
    pub cave_in: bool,
    pub cave_in_detail: Option<String>,
    pub event_id: Option<String>,
    pub artifact_id: Option<String>,
    pub boss_boundary: Option<i64>,
    pub first_dig: bool,
    pub paid_dig_cost: i64,
    pub cooldown_remaining: i64,
    pub paid_dig_available: bool,
    pub items_used: Vec<String>,
    pub consumed_item_ids: Vec<i64>,
    pub action_id: Option<i64>,
    pub route_choice_required: bool,
    pub pickaxe_tier: i64,
    /// Whole pet-work blocks within `advance`.
    pub pet_dig_bonus: i64,
    pub pet_name: Option<String>,
    pub forced_event_consumed: bool,
    pub relic_trim_notice: bool,
    pub weather: Option<DigRuntimeWeatherInfo>,
}

/// What a [`DigRuntimeOutcome`] holds.
#[verifier::ext_equal]
pub struct OutcomeView {
    pub success: bool,
    pub error: Option<Seq<char>>,
    pub depth_before: i64,
    pub depth_after: i64,
    pub advance: i64,
    pub jc_earned: i64,
    pub vanity_tax: i64,
    pub low_priority_tax: i64,
    pub balance_after: i64,
    pub tunnel_name: Seq<char>,
    pub milestone_bonus: i64,
    pub streak_bonus: i64,
    pub bankruptcy_penalty: i64,
    pub luminosity_after: i64,
    pub luminosity_drained: i64,
    pub corruption_description: Option<Seq<char>>,
    pub mutation_names: Seq<Seq<char>>,
    pub tip: Seq<char>,
    pub cave_in: bool,
    pub cave_in_detail: Option<Seq<char>>,
    pub event_id: Option<Seq<char>>,
    pub artifact_id: Option<Seq<char>>,
    pub boss_boundary: Option<i64>,
    pub first_dig: bool,
    pub paid_dig_cost: i64,
    pub cooldown_remaining: i64,
    pub paid_dig_available: bool,
    pub items_used: Seq<Seq<char>>,
    pub consumed_item_ids: Seq<i64>,
    pub action_id: Option<i64>,
    pub route_choice_required: bool,
    pub pickaxe_tier: i64,
    pub pet_dig_bonus: i64,
    pub pet_name: Option<Seq<char>>,
    pub forced_event_consumed: bool,
    pub relic_trim_notice: bool,
    pub weather: Option<WeatherInfoView>,
}

impl View for DigRuntimeOutcome {
    type V = OutcomeView;

    open spec fn view(&self) -> OutcomeView {
        OutcomeView {
            success: self.success,
            error: text_view(self.error),
            depth_before: self.depth_before,
            depth_after: self.depth_after,
            advance: self.advance,
            jc_earned: self.jc_earned,
            vanity_tax: self.vanity_tax,
            low_priority_tax: self.low_priority_tax,
            balance_after: self.balance_after,
            tunnel_name: self.tunnel_name@,
            milestone_bonus: self.milestone_bonus,
            streak_bonus: self.streak_bonus,
            bankruptcy_penalty: self.bankruptcy_penalty,
            luminosity_after: self.luminosity_after,
            luminosity_drained: self.luminosity_drained,
            corruption_description: text_view(self.corruption_description),
            mutation_names: texts(self.mutation_names@),
            tip: self.tip@,
            cave_in: self.cave_in,
            cave_in_detail: text_view(self.cave_in_detail),
            event_id: text_view(self.event_id),
            artifact_id: text_view(self.artifact_id),
            boss_boundary: self.boss_boundary,
            first_dig: self.first_dig,
            paid_dig_cost: self.paid_dig_cost,
            cooldown_remaining: self.cooldown_remaining,
            paid_dig_available: self.paid_dig_available,
            items_used: texts(self.items_used@),
            consumed_item_ids: self.consumed_item_ids@,
            action_id: self.action_id,
            route_choice_required: self.route_choice_required,
            pickaxe_tier: self.pickaxe_tier,
            pet_dig_bonus: self.pet_dig_bonus,
            pet_name: text_view(self.pet_name),
            forced_event_consumed: self.forced_event_consumed,
            relic_trim_notice: self.relic_trim_notice,
            weather: match self.weather { Some(x) => Some(x@), None => None },
        }
    }
}

impl Clone for DigRuntimeOutcome {
    fn clone(&self) -> (copy: DigRuntimeOutcome)
        ensures
            copy@ == self@,
    {
        let copy = DigRuntimeOutcome {
            success: self.success,
            error: copy_text(&self.error),
            depth_before: self.depth_before,
            depth_after: self.depth_after,
            advance: self.advance,
            jc_earned: self.jc_earned,
            vanity_tax: self.vanity_tax,
            low_priority_tax: self.low_priority_tax,
            balance_after: self.balance_after,
            tunnel_name: self.tunnel_name.clone(),
            milestone_bonus: self.milestone_bonus,
            streak_bonus: self.streak_bonus,
            bankruptcy_penalty: self.bankruptcy_penalty,
            luminosity_after: self.luminosity_after,
            luminosity_drained: self.luminosity_drained,
            corruption_description: copy_text(&self.corruption_description),
            mutation_names: self.mutation_names.clone(),
            tip: self.tip.clone(),
            cave_in: self.cave_in,
            cave_in_detail: copy_text(&self.cave_in_detail),
            event_id: copy_text(&self.event_id),
            artifact_id: copy_text(&self.artifact_id),
            boss_boundary: self.boss_boundary,
            first_dig: self.first_dig,
            paid_dig_cost: self.paid_dig_cost,
            cooldown_remaining: self.cooldown_remaining,
            paid_dig_available: self.paid_dig_available,
            items_used: self.items_used.clone(),
            consumed_item_ids: self.consumed_item_ids.clone(),
            action_id: self.action_id,
            route_choice_required: self.route_choice_required,
            pickaxe_tier: self.pickaxe_tier,
            pet_dig_bonus: self.pet_dig_bonus,
            pet_name: copy_text(&self.pet_name),
            forced_event_consumed: self.forced_event_consumed,
            relic_trim_notice: self.relic_trim_notice,
            weather: self.weather.clone(),
        };
        assert(copy@ =~= self@);
        copy
    }
}

/// Depth of a snapshot's tunnel, zero without one.
pub open spec fn snapshot_depth(snapshot: SnapshotView) -> i64 {
    match snapshot.tunnel {
        Some(tunnel) => tunnel.depth,
        None => 0,
    }
}

/// Name of a snapshot's tunnel.
pub open spec fn snapshot_tunnel_name(snapshot: SnapshotView) -> Seq<char> {
    match snapshot.tunnel {
        Some(tunnel) => tunnel.tunnel_name,
        None => "Unknown Tunnel"@,
    }
}

/// Light of a snapshot's tunnel, full without one.
pub open spec fn snapshot_luminosity(snapshot: SnapshotView) -> i64 {
    match snapshot.tunnel {
        Some(tunnel) => tunnel.luminosity,
        None => LUMINOSITY_MAX,
    }
}

/// Pickaxe tier of a snapshot's tunnel, zero without one.
pub open spec fn snapshot_pickaxe_tier(snapshot: SnapshotView) -> i64 {
    match snapshot.tunnel {
        Some(tunnel) => tunnel.pickaxe_tier,
        None => 0,
    }
}

/// The outcome that reports a snapshot and nothing that happened to it.
pub open spec fn idle_outcome(snapshot: SnapshotView) -> OutcomeView {
    OutcomeView {
        success: false,
        error: None,
        depth_before: snapshot_depth(snapshot),
        depth_after: snapshot_depth(snapshot),
        advance: 0,
        jc_earned: 0,
        vanity_tax: 0,
        low_priority_tax: 0,
        balance_after: snapshot.balance,
        tunnel_name: snapshot_tunnel_name(snapshot),
        milestone_bonus: 0,
        streak_bonus: 0,
        bankruptcy_penalty: 0,
        luminosity_after: snapshot_luminosity(snapshot),
        luminosity_drained: 0,
        corruption_description: None,
        mutation_names: Seq::empty(),
        tip: Seq::empty(),
        cave_in: false,
        cave_in_detail: None,
        event_id: None,
        artifact_id: None,
        boss_boundary: None,
        first_dig: false,
        paid_dig_cost: 0,
        cooldown_remaining: 0,
        paid_dig_available: false,
        items_used: Seq::empty(),
        consumed_item_ids: Seq::empty(),
        action_id: None,
        route_choice_required: false,
        pickaxe_tier: snapshot_pickaxe_tier(snapshot),
        pet_dig_bonus: 0,
        pet_name: None,
        forced_event_consumed: false,
        relic_trim_notice: false,
        weather: None,
    }
}

/// The outcome of a request that was turned away with a message. `cost` is what
/// a paid dig would have cost and `cooldown` the seconds still to wait.
pub open spec fn blocked_outcome(
    snapshot: SnapshotView,
    message: Seq<char>,
    cost: i64,
    cooldown: i64,
) -> OutcomeView {
    OutcomeView {
        error: Some(message),
        paid_dig_cost: cost,
        cooldown_remaining: cooldown,
        paid_dig_available: snapshot.balance >= cost,
        ..idle_outcome(snapshot)
    }
}

impl DigRuntimeOutcome {
    /// Reports a snapshot and nothing that happened to it.
    pub fn idle(snapshot: &DigRuntimeSnapshot) -> (outcome: DigRuntimeOutcome)
        ensures
            outcome@ == idle_outcome(snapshot@),
    {
        let (depth, tunnel_name, luminosity, pickaxe_tier) = match &snapshot.tunnel {
            Some(tunnel) => (
                tunnel.depth,
                tunnel.tunnel_name.clone(),
                tunnel.luminosity,
                tunnel.pickaxe_tier,
            ),
            None => (0, "Unknown Tunnel".to_owned(), LUMINOSITY_MAX, 0),
        };
        let outcome = DigRuntimeOutcome {
            success: false,
            error: None,
            depth_before: depth,
            depth_after: depth,
            advance: 0,
            jc_earned: 0,
            vanity_tax: 0,
            low_priority_tax: 0,
            balance_after: snapshot.balance,
            tunnel_name,
            milestone_bonus: 0,
            streak_bonus: 0,
            bankruptcy_penalty: 0,
            luminosity_after: luminosity,
            luminosity_drained: 0,
            corruption_description: None,
            mutation_names: Vec::new(),
            tip: String::new(),
            cave_in: false,
            cave_in_detail: None,
            event_id: None,
            artifact_id: None,
            boss_boundary: None,
            first_dig: false,
            paid_dig_cost: 0,
            cooldown_remaining: 0,
            paid_dig_available: false,
            items_used: Vec::new(),
            consumed_item_ids: Vec::new(),
            action_id: None,
            route_choice_required: false,
            pickaxe_tier,
            pet_dig_bonus: 0,
            pet_name: None,
            forced_event_consumed: false,
            relic_trim_notice: false,
            weather: None,
        };
        assert(outcome@ =~= idle_outcome(snapshot@));
        outcome
    }

    /// Turns a request away with a message.
    pub fn blocked(
        snapshot: &DigRuntimeSnapshot,
        message: String,
        cost: i64,
        cooldown: i64,
    ) -> (outcome: DigRuntimeOutcome)
        ensures
            outcome@ == blocked_outcome(snapshot@, message@, cost, cooldown),
    {
        let mut outcome = DigRuntimeOutcome::idle(snapshot);
        outcome.error = Some(message);
        outcome.paid_dig_cost = cost;
        outcome.cooldown_remaining = cooldown;
        outcome.paid_dig_available = snapshot.balance >= cost;
        assert(outcome@ =~= blocked_outcome(snapshot@, message@, cost, cooldown));
        outcome
    }
}

/// A request that is turned away reports an unchanged tunnel and wallet: no
/// advance, no reward, no tax, no action.
pub proof fn law_blocked_outcome_reports_no_change(
    snapshot: SnapshotView,
    message: Seq<char>,
    cost: i64,
    cooldown: i64,
)
    ensures
        ({
            let outcome = blocked_outcome(snapshot, message, cost, cooldown);
            &&& !outcome.success
            &&& outcome.error == Some(message)
            &&& outcome.depth_after == outcome.depth_before == snapshot_depth(snapshot)
            &&& outcome.balance_after == snapshot.balance
            &&& outcome.advance == 0
            &&& outcome.jc_earned == 0
            &&& outcome.vanity_tax == 0
            &&& outcome.low_priority_tax == 0
            &&& outcome.consumed_item_ids.len() == 0
            &&& outcome.action_id is None
        }),
{
}

} // verus!
