//! Laws on who may dig and what it costs, on commands, and on what is stored.

use crate::actions::{
    admin_depth, admin_outcome, all_bosses_defeated, auto_buy_switch, check_loot_action,
    confirm_loot_action, confirm_route, entry_status, flex_of, loot_tree, plan_help,
    plan_loot_action, plan_respec, plan_route_choice, refused, respec_tree, rotated, seed_value,
    star_text, tunnel_info, ActionPlan, AutoBuySwitch, DigAdminMutationOutcome,
    DigRuntimeActionResult, DigRuntimeTunnelInfo, HelpPlan, LootActionResult, RespecPlan,
    RouteChoice,
};
use crate::admission::{
    auto_buy_plan, begun, charged, cooldown_after_mana, cooldown_before_stamina, cooldown_of,
    dripped, is_near_boss, paid_digs_on, passed_boundary, reread, AdmissionView, ChargeView,
    StagedView,
};
use crate::condition::injury_slows_cooldown;
use crate::first_dig::{
    first_dig_commit, first_dig_outcome, first_dig_pet_bonus, first_dig_snapshot, first_dig_tree,
    FirstDigReport,
};
use crate::json::{optional_int, optional_text, JsonView};
use crate::outcome::DigRuntimeRequest;
use crate::ruling::{
    input_of, roll_modifiers, thick_skin, tithe_event_key, with_mana_tax, with_pet_blocks,
    BonusSources, DigOutcomeInput, RollModifiers, RulingFacts,
};
use crate::settlement::StateView;
use crate::snapshot::{
    fresh_snapshot, new_tunnel, DigRuntimeSnapshot, DigRuntimeTunnel, SnapshotView, TunnelView,
};
use crate::store::{
    CommitView, DigRuntimeCommitReceipt, DigRuntimeStoreError, SlowDripView, StoreView,
};
use crate::text::{int_text, str_view, text_view, texts};
use crate::version::version_of;
use vstd::prelude::*;

verus! {

/// A dig is admitted where the player is registered and no route is to be chosen.
/// A player without a tunnel gets a new one, and a dig is the first of a tunnel
/// that was never dug.
pub proof fn law_who_may_dig(
    snapshot: SnapshotView,
    request: DigRuntimeRequest,
    route_choice: bool,
    names: Seq<Seq<char>>,
)
    ensures
        match begun(snapshot, request, route_choice, names) {
            AdmissionView::Answered(told) => {
                &&& !snapshot.registered || route_choice
                &&& !told.success && told.error is Some
                &&& told.route_choice_required <==> snapshot.registered
                &&& snapshot.registered ==> told.mutation_names == names
                &&& !snapshot.registered ==> told.error == Some(
                    "You need to register first. Use /player register."@,
                )
                &&& snapshot.registered ==> told.error == Some(
                    "Choose your route before digging again."@,
                )
            },
            AdmissionView::Admitted(staged) => {
                &&& snapshot.registered && !route_choice
                &&& staged.base == snapshot && staged.current.balance == snapshot.balance
                &&& staged.current.inventory == snapshot.inventory
                &&& snapshot.tunnel is Some ==> staged.current == snapshot
                &&& snapshot.tunnel is None ==> staged.first_dig && staged.current.tunnel == Some(
                    new_tunnel(request.discord_id, request.guild_id),
                )
                &&& snapshot.tunnel matches Some(tunnel) ==> (staged.first_dig
                    <==> tunnel.total_digs == 0 && tunnel.last_dig_at is None && tunnel.depth == 0)
            },
        },
{
}

/// A new tunnel is named after its digger and starts at the top, with full light,
/// five points to spend, a free trap, and nothing else.
pub proof fn law_new_tunnel_starts_at_the_top(discord_id: i64, guild_id: i64, balance: i64)
    ensures
        ({
            let dug = new_tunnel(discord_id, guild_id);
            &&& dug.discord_id == discord_id && dug.guild_id == guild_id
            &&& dug.tunnel_name == "Miner "@ + int_text(discord_id as int)
            &&& dug.depth == 0 && dug.max_depth == 0 && dug.total_digs == 0
            &&& dug.total_jc_earned == 0 && dug.last_dig_at is None && dug.luminosity == 100
            &&& dug.prestige_level == 0 && dug.pickaxe_tier == 0 && dug.stat_points == 5
            &&& dug.stat_strength == 0 && dug.stat_smarts == 0 && dug.stat_stamina == 0
            &&& dug.hard_hat_charges == 0 && dug.grappling_hook_charges == 0
            &&& dug.void_bait_digs == 0 && dug.reinforced_until == 0 && !dug.sonar_skip_pending
            &&& dug.injury_state is None && dug.temp_buffs is None && dug.temp_curses is None
            &&& dug.route_state is None && dug.mutations is None && dug.stinger_curse is None
            &&& dug.paid_digs_today == 0 && dug.paid_dig_date is None
            &&& dug.current_run_jc == 0 && dug.current_run_artifacts == 0
            &&& dug.current_run_events == 0 && dug.cavein_free_streak == 0
            &&& dug.streak_days == 0 && dug.streak_last_date is None
            &&& !dug.auto_buy_torch && !dug.auto_buy_hard_hat && !dug.trap_active
            &&& dug.trap_free_today && dug.insured_until is None && dug.pinnacle_boss_id is None
            &&& dug.boss_progress == "{}"@ && dug.prestige_perks == "[]"@
            &&& dug.engine_mode == "legacy"@ && dug.stat_boss_awards == "[]"@
            &&& dug.pinnacle_phase == 0 && dug.last_cheer_at is None && dug.cheer_data is None
        }),
        fresh_snapshot(discord_id, guild_id, balance).balance == balance,
        fresh_snapshot(discord_id, guild_id, balance).registered,
        fresh_snapshot(discord_id, guild_id, balance).inventory.len() == 0,
        fresh_snapshot(discord_id, guild_id, balance).tunnel == Some(
            new_tunnel(discord_id, guild_id),
        ),
{
}

/// A boss that is parked at stops every dig but the first and is shown; the hard
/// wall turns deeper digs away. What dripped in the meantime is credited.
pub proof fn law_boss_and_wall_stop_digs(
    staged: StagedView,
    tunnel: TunnelView,
    claim: Option<SlowDripView>,
    parked: Option<i64>,
    wall: i64,
    names: Seq<Seq<char>>,
)
    requires
        staged.current.tunnel == Some(tunnel),
        -1_000_000_000_000 <= staged.current.balance <= 1_000_000_000_000,
        -1_000_000_000_000 <= staged.base.balance <= 1_000_000_000_000,
        claim matches Some(claim) ==> 0 <= claim.credit_jc <= 1_000_000_000_000,
    ensures
        ({
            let credit = match claim {
                Some(claim) => claim.credit_jc as int,
                None => 0,
            };
            match passed_boundary(staged, claim, parked, wall, names) {
                AdmissionView::Answered(told) => {
                    &&& !staged.first_dig && (parked is Some || tunnel.depth >= wall)
                    &&& told.balance_after == staged.current.balance + credit
                    &&& parked is Some ==> told.success && told.boss_boundary == parked
                        && told.mutation_names == names && told.error is None
                    &&& parked is None ==> !told.success && told.error is Some && told.boss_boundary
                        is None
                },
                AdmissionView::Admitted(next) => {
                    &&& staged.first_dig || (parked is None && tunnel.depth < wall)
                    &&& next.current.balance == staged.current.balance + credit
                    &&& next.base.balance == staged.base.balance + credit
                    &&& next.current.tunnel == Some(tunnel) && next.first_dig == staged.first_dig
                },
            }
        }),
{
}

/// A cooldown is an hour and what mutations add, six hours with a slowing injury,
/// less what mana takes off it.
pub proof fn law_cooldown_is_an_hour(
    injury: Option<&str>,
    bonus: i64,
    slows: bool,
    seconds: i64,
    plain: i64,
    slowed: i64,
    reduction: i64,
    left: i64,
)
    requires
        call_ensures(injury_slows_cooldown, (injury,), slows),
        call_ensures(cooldown_before_stamina, (injury, bonus), seconds),
        call_ensures(cooldown_of, (false, bonus), plain),
        call_ensures(cooldown_of, (true, bonus), slowed),
        call_ensures(cooldown_after_mana, (seconds, reduction), left),
        0 <= bonus <= 1_000_000,
        reduction <= 1_000_000_000,
    ensures
        plain == 3_600 + bonus,
        slowed == 21_600,
        slows ==> seconds == 21_600,
        !slows ==> seconds == 3_600 + bonus,
        0 <= reduction <= seconds ==> left == seconds - reduction,
        reduction > seconds ==> left == 0,
        reduction < 0 ==> left == seconds,
{
}

/// A cooldown is waited for or, where the wallet covers it, paid; the first dig and
/// one without a cooldown cost nothing.
pub proof fn law_cooldown_is_waited_or_paid(
    current: SnapshotView,
    first_dig: bool,
    paid: bool,
    cooldown: i64,
    price: i64,
)
    ensures
        match charged(current, first_dig, paid, cooldown, price) {
            ChargeView::Answered(told) => {
                &&& !first_dig && cooldown > 0 && (!paid || current.balance < price)
                &&& !told.success && told.error is Some && told.paid_dig_cost == price
                &&& told.cooldown_remaining == cooldown
                &&& told.paid_dig_available <==> current.balance >= price
                &&& !paid ==> told.error == Some(
                    "Dig on cooldown ("@ + int_text(cooldown as int) + "s remaining)."@,
                )
                &&& paid ==> told.error == Some(
                    "Paid dig costs "@ + int_text(price as int) + " JC but you only have "@
                        + int_text(current.balance as int) + " JC."@,
                )
            },
            ChargeView::Charged { active, cost } => {
                &&& first_dig || cooldown <= 0 || (paid && price <= current.balance)
                &&& active <==> !first_dig && paid && cooldown > 0
                &&& active ==> cost == price
                &&& !active ==> cost == 0
            },
        },
{
}

/// Paid digs are counted for the day that they were paid on.
pub proof fn law_paid_digs_count_for_their_day(tunnel: TunnelView, today: Seq<char>)
    requires
        tunnel.paid_digs_today >= 0,
    ensures
        tunnel.paid_dig_date == Some(today) ==> paid_digs_on(tunnel, today)
            == tunnel.paid_digs_today,
        tunnel.paid_dig_date != Some(today) ==> paid_digs_on(tunnel, today) == 0,
{
}

/// A hard hat is bought for 8 where it is switched on, then a torch for 6 where that
/// is switched on and half the light is gone or a boss is a block away.
pub proof fn law_what_is_bought_automatically(tunnel: TunnelView, near: bool)
    requires
        call_ensures(is_near_boss, (tunnel.depth,), near),
    ensures
        ({
            let bought = auto_buy_plan(tunnel);
            let torch = tunnel.auto_buy_torch && (tunnel.luminosity <= 50 || near);
            &&& bought.len() == (if tunnel.auto_buy_hard_hat {
                1int
            } else {
                0
            }) + (if torch {
                1int
            } else {
                0
            })
            &&& tunnel.auto_buy_hard_hat ==> bought[0].item_type == "hard_hat"@ && bought[0].price
                == 8
            &&& torch ==> bought.last().item_type == "torch"@ && bought.last().price == 6
        }),
        near <==> tunnel.depth == 24 || tunnel.depth == 25 || tunnel.depth == 49 || tunnel.depth
            == 50 || tunnel.depth == 74 || tunnel.depth == 75 || tunnel.depth == 99 || tunnel.depth
            == 100 || tunnel.depth == 149 || tunnel.depth == 150 || tunnel.depth == 199
            || tunnel.depth == 200 || tunnel.depth == 274 || tunnel.depth == 275 || tunnel.depth
            == 349 || tunnel.depth == 350,
{
}

/// What was bought in the meantime is seen, with the weather that was read before.
pub proof fn law_staged_dig_is_reread(staged: StagedView, fresh: SnapshotView)
    ensures
        ({
            let next = reread(staged, fresh);
            &&& next.current.balance == fresh.balance && next.current.inventory == fresh.inventory
            &&& next.current.tunnel == fresh.tunnel && next.current.artifacts == fresh.artifacts
            &&& next.current.gear == fresh.gear && next.current.weather == staged.current.weather
            &&& next.base == next.current && next.first_dig == staged.first_dig
        }),
{
}

/// The seed of a dig mixes who digs, where, when and how: each part is turned by its
/// own count, they are laid over each other, and the secret over all of them.
pub proof fn law_seed_mixes_its_parts(request: DigRuntimeRequest, secret: u64)
    ensures
        seed_value(request, secret) == rotated(request.discord_id as u64, 40) ^ rotated(
            request.guild_id as u64,
            23,
        ) ^ (request.now as u64) ^ (if request.paid {
            1u64
        } else {
            0u64
        }) ^ (if request.forced_event {
            2u64
        } else {
            0u64
        }) ^ secret,
{
    let (a, b, c) = (request.discord_id as u64, request.guild_id as u64, request.now as u64);
    let (p, f) = (
        if request.paid {
            1u64
        } else {
            0u64
        },
        if request.forced_event {
            2u64
        } else {
            0u64
        },
    );
    let turned = (a << 17) | (a >> 47);
    assert((((turned ^ b) << 23) | ((turned ^ b) >> 41)) == ((a << 40) | (a >> 24)) ^ ((b << 23) | (b
        >> 41))) by (bit_vector)
        requires
            turned == (a << 17) | (a >> 47),
    ;
    let (x, y) = ((a << 40) | (a >> 24), (b << 23) | (b >> 41));
    assert((((x ^ y) ^ c) ^ (p ^ f)) ^ secret == ((((x ^ y) ^ c) ^ p) ^ f) ^ secret) by (bit_vector);
}

/// A command that is refused changes nothing and says why.
pub proof fn law_refusal_says_why(snapshot: SnapshotView, message: Seq<char>)
    ensures
        ({
            let told = refused(snapshot, message);
            &&& !told.success && told.error == Some(message)
            &&& told.balance_after == snapshot.balance && told.cost == 0 && !told.queued
            &&& told.item is None && told.item_id is None && told.route_id is None
            &&& told.action_id is None
        }),
{
}

/// A chosen route is kept in the tunnel and told; choosing it again only tells it.
pub proof fn law_route_is_chosen(
    snapshot: &DigRuntimeSnapshot,
    choice: RouteChoice,
    route_id: &str,
    now: i64,
    plan: ActionPlan,
)
    requires
        call_ensures(plan_route_choice, (snapshot, choice, route_id, now), plan),
    ensures
        snapshot@.tunnel is None ==> (plan matches ActionPlan::Answer(told) && !told@.success
            && told@.error == Some("You don't have a tunnel."@)),
        snapshot@.tunnel is Some && choice is AlreadySelected ==> (plan matches ActionPlan::Answer(
            told,
        ) && told@.success && told@.route_id == Some(route_id@) && told@.balance_after
            == snapshot@.balance),
        snapshot@.tunnel is Some && choice is Rejected ==> (plan matches ActionPlan::Answer(told)
            && !told@.success && told@.error is Some),
        snapshot@.tunnel matches Some(tunnel) ==> (choice matches RouteChoice::Select(state) ==> (
        plan matches ActionPlan::Commit(commit) && commit@.next.tunnel == Some(
            TunnelView { route_state: Some(state@), ..tunnel },
        ) && commit@.next.balance == snapshot@.balance && commit@.jc_delta == 0
            && commit@.action_type == "route_choice"@ && commit@.now == now && commit@.expected
            == version_of(snapshot@))),
{
}

/// A committed route is told with the receipt.
pub proof fn law_route_is_confirmed(
    route_id: &str,
    receipt: &DigRuntimeCommitReceipt,
    told: DigRuntimeActionResult,
)
    requires
        call_ensures(confirm_route, (route_id, receipt), told),
    ensures
        told@.success && told@.error is None && told@.route_id == Some(route_id@),
        told@.balance_after == receipt.balance_after && told@.action_id == Some(receipt.action_id),
        told@.cost == 0 && !told@.queued && told@.item is None && told@.item_id is None,
{
}

/// Items are for registered players with a tunnel.
pub proof fn law_items_need_a_tunnel(
    snapshot: &DigRuntimeSnapshot,
    answer: Option<DigRuntimeActionResult>,
)
    requires
        call_ensures(check_loot_action, (snapshot,), answer),
    ensures
        answer is None <==> snapshot@.registered && snapshot@.tunnel is Some,
        answer matches Some(told) ==> !told@.success && told@.balance_after == snapshot@.balance,
{
}

/// An item command that succeeds commits what it staged at its price, and one that
/// fails is told without a commit.
pub proof fn law_item_command_is_committed(
    snapshot: &DigRuntimeSnapshot,
    staged: DigRuntimeSnapshot,
    result: &LootActionResult,
    action_type: &str,
    now: i64,
    plan: ActionPlan,
)
    requires
        call_ensures(plan_loot_action, (snapshot, staged, result, action_type, now), plan),
        result.cost > i64::MIN,
    ensures
        plan is Commit <==> result.success,
        plan matches ActionPlan::Commit(commit) ==> commit@.next == staged@ && commit@.jc_delta
            == -result.cost && commit@.action_type == action_type@ && commit@.now == now
            && commit@.expected == version_of(snapshot@) && commit@.balance_cost == 0
            && commit@.depth_before == commit@.depth_after,
        plan matches ActionPlan::Answer(told) ==> told@.error == result@.error && told@.cost
            == result.cost && told@.balance_after == snapshot@.balance && told@.action_id is None,
{
}

/// A committed item command is told with its item, its price and the receipt.
pub proof fn law_item_command_is_told(
    result: LootActionResult,
    receipt: &DigRuntimeCommitReceipt,
    told: DigRuntimeActionResult,
)
    requires
        call_ensures(confirm_loot_action, (result, receipt), told),
    ensures
        told@.success && told@.error is None && told@.item == result@.item,
        told@.item_id == result@.item_id && told@.cost == result@.cost && told@.queued
            == result@.queued,
        told@.balance_after == receipt.balance_after && told@.action_id == Some(receipt.action_id),
        told@.route_id is None,
{
}

proof fn lemma_item_words()
    ensures
        "item"@.len() == 4,
        "item_id"@.len() == 7,
{
    reveal_strlit("item");
    reveal_strlit("item_id");
}

/// The audit of an item command names the item and its row.
pub proof fn law_item_command_is_audited(result: crate::actions::LootActionView)
    ensures
        loot_tree(result).get("item"@) == Some(optional_text(result.item)),
        loot_tree(result).get("item_id"@) == Some(optional_int(result.item_id)),
{
    lemma_item_words();
}

/// A tunnel is shown as it is.
pub proof fn law_tunnel_is_shown(tunnel: &DigRuntimeTunnel, info: DigRuntimeTunnelInfo)
    requires
        call_ensures(tunnel_info, (tunnel,), info),
    ensures
        info@.depth == tunnel@.depth && info@.total_digs == tunnel@.total_digs,
        info@.total_jc_earned == tunnel@.total_jc_earned,
        info@.last_dig_at == tunnel@.last_dig_at && info@.pickaxe_tier == tunnel@.pickaxe_tier,
        info@.prestige_level == tunnel@.prestige_level && info@.luminosity == tunnel@.luminosity,
        info@.hard_hat_charges == tunnel@.hard_hat_charges,
        info@.tunnel_name == tunnel@.tunnel_name && info@.route_state == tunnel@.route_state,
{
}

/// There is as much to boast of as there is: a star for each prestige up to five,
/// and a title for whoever beat every boss.
pub proof fn law_boasts_are_earned(tunnel: TunnelView, boundaries: Seq<i64>, layer: Seq<char>)
    ensures
        ({
            let boast = flex_of(tunnel, boundaries, layer);
            &&& boast.tunnel_name == tunnel.tunnel_name && boast.depth == tunnel.depth
            &&& boast.total_digs == tunnel.total_digs && boast.layer == layer
            &&& boast.total_jc_earned == tunnel.total_jc_earned && boast.streak
                == tunnel.streak_days
            &&& tunnel.prestige_level >= 0 ==> boast.prestige_level == tunnel.prestige_level
            &&& tunnel.prestige_level < 0 ==> boast.prestige_level == 0
            &&& 0 <= tunnel.prestige_level <= 5 ==> boast.prestige_emoji == star_text(
                tunnel.prestige_level as nat,
            )
            &&& tunnel.prestige_level > 5 ==> boast.prestige_emoji == star_text(5)
            &&& boast.titles.len() > 0 <==> all_bosses_defeated(
                crate::json::json_of_text(tunnel.boss_progress),
                boundaries,
            )
            &&& boast.titles.len() > 0 ==> boast.titles == seq!["Boss Slayer"@]
        }),
{
}

/// Stars are counted one by one.
pub proof fn law_stars_are_counted(count: nat)
    ensures
        star_text(0).len() == 0,
        star_text(count + 1) == star_text(count) + "⭐"@,
{
}

/// Every boss is beaten where each has an entry and each entry says so, as a bare
/// word or as its status.
pub proof fn law_all_bosses_beaten(
    map: Map<Seq<char>, JsonView>,
    boundaries: Seq<i64>,
    key: Seq<char>,
    entry: JsonView,
)
    ensures
        entry_status(JsonView::Text("defeated"@)) == "defeated"@,
        entry is Object && entry.text_at("status"@) == Some("defeated"@) ==> entry_status(entry)
            == "defeated"@,
        entry is Object && entry.text_at("status"@) is None ==> entry_status(entry) == "active"@,
        all_bosses_defeated(Some(JsonView::Object(map)), boundaries) && map.dom().contains(key)
            ==> entry_status(map[key]) == "defeated"@,
        all_bosses_defeated(Some(JsonView::Object(map)), boundaries) ==> forall|i: int|
            0 <= i < boundaries.len() ==> map.dom().contains(
                int_text(#[trigger] boundaries[i] as int),
            ),
        all_bosses_defeated(None, boundaries) <==> boundaries.len() == 0,
{
    if all_bosses_defeated(Some(JsonView::Object(map)), boundaries) && map.dom().contains(key) {
        let progress = Some(JsonView::Object(map));
        assert(all_bosses_defeated(progress, boundaries));
        match progress {
            Some(JsonView::Object(entries)) => {
                assert(forall|k: Seq<char>| #[trigger]
                    entries.dom().contains(k) ==> entry_status(entries[k]) == "defeated"@);
                assert(entries == map);
                assert(entries.dom().contains(key));
                assert(entry_status(entries[key]) == "defeated"@);
            },
            _ => {},
        }
    }
}

/// Help lifts a tunnel by one block, and its record with it.
pub proof fn law_help_lifts_a_block(depth: i64, max_depth: i64, target_id: i64, plan: HelpPlan)
    requires
        call_ensures(plan_help, (Some((depth, max_depth)), target_id), plan),
        depth < i64::MAX,
    ensures
        plan.depths matches Some(after) && after.0 == depth + 1 && (max_depth > depth ==> after.1
            == max_depth) && (max_depth <= depth ==> after.1 == depth + 1),
{
}

proof fn lemma_respec_words()
    ensures
        "cost"@.len() == 4,
        "returned_points"@.len() == 15,
        "previous_stats"@.len() == 14,
        "strength"@.len() == 8,
        "smarts"@.len() == 6,
        "stamina"@.len() == 7,
{
    reveal_strlit("cost");
    reveal_strlit("returned_points");
    reveal_strlit("previous_stats");
    reveal_strlit("strength");
    reveal_strlit("smarts");
    reveal_strlit("stamina");
}

/// A reset costs 50 and gives every spent point back; without points or coins it is
/// refused.
pub proof fn law_reset_gives_points_back(
    balance: i64,
    strength: i64,
    smarts: i64,
    stamina: i64,
    emote: &str,
    plan: RespecPlan,
)
    requires
        call_ensures(plan_respec, (Some(balance), Some((strength, smarts, stamina)), emote), plan),
        0 <= strength <= 1_000_000,
        0 <= smarts <= 1_000_000,
        0 <= stamina <= 1_000_000,
    ensures
        plan is Reset <==> strength + smarts + stamina > 0 && balance >= 50,
        plan matches RespecPlan::Reset { returned_points, .. } ==> returned_points == strength
            + smarts + stamina,
        ({
            let audit = respec_tree(strength, smarts, stamina);
            &&& audit.int_at("cost"@) == Some(50i64)
            &&& audit.int_at("returned_points"@) == Some((strength + smarts + stamina) as i64)
            &&& audit.get("previous_stats"@) matches Some(before)
            &&& before.int_at("strength"@) == Some(strength)
            &&& before.int_at("smarts"@) == Some(smarts)
            &&& before.int_at("stamina"@) == Some(stamina)
        }),
{
    lemma_respec_words();
}

proof fn lemma_switch_words()
    ensures
        "torch"@.len() == 5,
        "hard_hat"@.len() == 8,
        "both"@.len() == 4,
{
    reveal_strlit("torch");
    reveal_strlit("hard_hat");
    reveal_strlit("both");
}

/// The switches of automatic purchases, and what administrators do.
pub proof fn law_switches_and_orders(
    item: &str,
    switch: Result<AutoBuySwitch, DigRuntimeStoreError>,
    changed: usize,
    outcome: DigAdminMutationOutcome,
    depth: i64,
    stored: i64,
)
    requires
        call_ensures(auto_buy_switch, (item,), switch),
        call_ensures(admin_outcome, (changed,), outcome),
        call_ensures(admin_depth, (depth,), stored),
    ensures
        item@ == "torch"@ ==> (switch matches Ok(on) && on.torch && !on.hard_hat),
        item@ == "hard_hat"@ ==> (switch matches Ok(on) && !on.torch && on.hard_hat),
        item@ == "both"@ ==> (switch matches Ok(on) && on.torch && on.hard_hat),
        item@ != "torch"@ && item@ != "hard_hat"@ && item@ != "both"@ ==> switch is Err,
        changed == 1 <==> outcome == DigAdminMutationOutcome::Applied,
        depth >= 0 ==> stored == depth,
        depth < 0 ==> stored == 0,
{
    lemma_switch_words();
}

/// The first dig advances as far as its gate lets it, earns what it rolled, starts
/// the streak of its day, and costs nothing.
pub proof fn law_first_dig_is_kept(
    base: SnapshotView,
    current: SnapshotView,
    tunnel: TunnelView,
    state: StateView,
    report: FirstDigReport,
)
    requires
        current.tunnel == Some(tunnel),
        0 <= report.jc_earned <= 1_000_000_000_000,
        0 <= tunnel.total_jc_earned <= 1_000_000_000_000,
    ensures
        ({
            let next = first_dig_snapshot(current, state, report);
            let dug = next.tunnel->0;
            &&& next.tunnel is Some && next.balance == state.balance
            &&& dug.depth == report.gate.depth_after
            &&& state.max_depth >= report.gate.depth_after ==> dug.max_depth == state.max_depth
            &&& state.max_depth < report.gate.depth_after ==> dug.max_depth
                == report.gate.depth_after
            &&& dug.total_digs == state.total_digs && dug.last_dig_at == state.last_dig_at
            &&& dug.luminosity == state.luminosity
            &&& dug.total_jc_earned == tunnel.total_jc_earned + report.jc_earned
            &&& dug.streak_days == 1 && dug.streak_last_date == Some(report.today@)
            &&& dug.paid_digs_today == tunnel.paid_digs_today && dug.paid_dig_date
                == tunnel.paid_dig_date
        }),
        ({
            let told = first_dig_outcome(current, state, report);
            &&& told.success && told.first_dig && told.error is None && !told.cave_in
            &&& told.depth_before == 0 && told.depth_after == report.gate.advance
            &&& told.advance == report.gate.advance && told.jc_earned == report.jc_earned
            &&& told.balance_after == state.balance
            &&& told.boss_boundary == report.gate.boss_encounter
            &&& told.pet_dig_bonus == report.pet_dig_bonus && told.pet_name == text_view(
                report.pet_name,
            )
            &&& told.vanity_tax == 0 && told.low_priority_tax == 0 && told.paid_dig_cost == 0
            &&& told.mutation_names == texts(report.mutation_names@)
        }),
        ({
            let stored = first_dig_commit(base, current, state, report);
            &&& stored.expected == version_of(base) && stored.next == first_dig_snapshot(
                current,
                state,
                report,
            )
            &&& stored.jc_delta == report.jc_earned && stored.balance_cost == 0
            &&& stored.depth_before == 0 && stored.depth_after == report.gate.advance
            &&& stored.pet_work_claim == report.pet_work_claim && stored.now == report.now
            &&& stored.consumed_item_ids.len() == 0 && stored.action_type == "dig"@
            &&& stored.vanity_tax == 0 && stored.low_priority_tax == 0 && !stored.consume_overgrowth
        }),
{
}

proof fn lemma_first_words()
    ensures
        "first_dig"@.len() == 9,
        "gross_jc"@.len() == 8,
        "minigame_scaled_jc"@.len() == 18,
        "economy_adjusted_jc"@.len() == 19,
        "economy_reward_multiplier"@.len() == 25,
        "vanity_tax"@.len() == 10,
        "low_priority_tax"@.len() == 16,
        "pet_dig_bonus"@.len() == 13,
        "boss_boundary"@.len() == 13,
        "pet_dig_bonus"@[0] != "boss_boundary"@[0],
{
    reveal_strlit("first_dig");
    reveal_strlit("gross_jc");
    reveal_strlit("minigame_scaled_jc");
    reveal_strlit("economy_adjusted_jc");
    reveal_strlit("economy_reward_multiplier");
    reveal_strlit("vanity_tax");
    reveal_strlit("low_priority_tax");
    reveal_strlit("pet_dig_bonus");
    reveal_strlit("boss_boundary");
}

/// The audit of a first dig holds each figure under its own name.
pub proof fn law_first_dig_is_audited(report: FirstDigReport)
    ensures
        ({
            let audit = first_dig_tree(report);
            &&& audit.bool_at("first_dig"@) == Some(true)
            &&& audit.int_at("gross_jc"@) == Some(report.economy_adjusted_jc)
            &&& audit.int_at("minigame_scaled_jc"@) == Some(report.minigame_scaled_jc)
            &&& audit.int_at("economy_adjusted_jc"@) == Some(report.economy_adjusted_jc)
            &&& audit.get("economy_reward_multiplier"@) == Some(report.economy_multiplier@)
            &&& audit.int_at("vanity_tax"@) == Some(0i64)
            &&& audit.int_at("low_priority_tax"@) == Some(0i64)
            &&& audit.int_at("pet_dig_bonus"@) == Some(report.pet_dig_bonus)
            &&& audit.get("boss_boundary"@) == Some(optional_int(report.gate.boss_encounter))
        }),
{
    lemma_first_words();
}

/// A pet adds what it brought the first dig forward, at most what it offered.
pub proof fn law_first_dig_pet_adds_its_blocks(total: i64, base: i64, offered: i64, bonus: i64)
    requires
        call_ensures(first_dig_pet_bonus, (total, base, offered), bonus),
        0 <= base <= total,
    ensures
        total - base <= offered ==> bonus == total - base,
        total - base > offered ==> bonus == offered,
{
}

/// The rules are asked with what was rolled: the dig as it went, the items that
/// change it, and the parts that make up its reward. A cave-in is asked with what
/// the rubble gave.
pub proof fn law_rules_are_asked(facts: RulingFacts)
    ensures
        ({
            let asked = input_of(facts);
            &&& asked.advance == facts.advance && asked.cave_in == facts.cave_in
            &&& asked.cave_in_loss == facts.cave_loss
            &&& facts.cave_in ==> asked.gross_jc == facts.cave_reward
            &&& !facts.cave_in ==> asked.gross_jc == facts.rolled_jc
            &&& asked.dynamite <==> texts(facts.items_used@).contains("dynamite"@)
            &&& asked.depth_charge <==> texts(facts.items_used@).contains("depth_charge"@)
            &&& asked.authored_event == facts.forced_event
            &&& !facts.cave_in ==> asked.yield_buff_multiplier_millionths == Some(
                facts.buff_millionths,
            ) && asked.yield_multiplier_millionths == Some(facts.yield_millionths)
                && asked.pre_cap_jc == Some(facts.composed_jc)
            &&& asked.economy_reward_multiplier_basis_points == facts.economy_basis_points
            &&& asked.minigame_jc_delta_scale_millionths == facts.minigame_millionths
            &&& asked.streak_bonus == facts.streak_bonus
            &&& asked.streak_bonus_multiplier_basis_points == facts.streak_basis_points
            &&& asked.milestone_multiplier_basis_points == facts.milestone_basis_points
            &&& facts.overgrowth ==> asked.overgrowth_bonus == 10
            &&& !facts.overgrowth ==> asked.overgrowth_bonus == 0
            &&& facts.helltide_tax >= 0 ==> asked.helltide_tax == facts.helltide_tax
            &&& facts.helltide_tax < 0 ==> asked.helltide_tax == 0
            &&& !facts.cave_in && facts.penalty_games > 0 ==> asked.bankruptcy_keep_basis_points
                == facts.penalty_keep_basis_points
            &&& facts.penalty_games <= 0 ==> asked.bankruptcy_keep_basis_points == 10_000
            &&& asked.mana_yield_tax == 0 && asked.vanity_tax_basis_points == 0
            &&& asked.low_priority_tax_basis_points == 0
            &&& asked.economy_before_positive_scale == facts.cave_in
        }),
{
}

/// What mana left and what a pet adds change the question by just that.
pub proof fn law_questions_are_amended(
    input: DigOutcomeInput,
    reward: i64,
    left: i64,
    taxed: DigOutcomeInput,
    blocks: i64,
    helped: DigOutcomeInput,
    shielded: bool,
    used_on: Option<&str>,
    today: &str,
    holds: bool,
)
    requires
        call_ensures(with_mana_tax, (input, reward, left), taxed),
        call_ensures(with_pet_blocks, (input, blocks), helped),
        call_ensures(thick_skin, (shielded, used_on, today), holds),
        0 <= left <= reward,
        0 <= input.advance <= 1_000_000,
        0 <= blocks <= 1_000_000,
    ensures
        taxed.mana_yield_tax == reward - left,
        input == (DigOutcomeInput { mana_yield_tax: input.mana_yield_tax, ..taxed }),
        helped.advance == input.advance + blocks && helped.authored_event,
        input == (DigOutcomeInput {
            advance: input.advance,
            authored_event: input.authored_event,
            ..helped
        }),
        holds <==> shielded && str_view(used_on) != Some(today@),
{
}

/// Bonuses add up by kind; the cap of the weather goes before that of the route, a
/// negated storm adds no loss, and a route leaves at least one block of advance.
pub proof fn law_bonuses_add_up(sources: BonusSources, modifiers: RollModifiers)
    requires
        call_ensures(roll_modifiers, (sources,), modifiers),
        crate::ruling::bonuses_fit(sources),
    ensures
        modifiers.advance_bonus == sources.route_advance + sources.weather_advance
            + sources.curse_advance + sources.gear_advance + sources.buff_advance,
        modifiers.jc_bonus == sources.weather_jc + sources.gear_jc + sources.curse_jc,
        sources.storm_negated ==> modifiers.cave_in_loss_bonus == 0,
        !sources.storm_negated ==> modifiers.cave_in_loss_bonus == sources.weather_loss
            + sources.route_loss,
        sources.weather_loss_cap matches Some(cap) ==> modifiers.cave_in_loss_cap == Some(cap),
        sources.weather_loss_cap is None ==> modifiers.cave_in_loss_cap == sources.route_loss_cap,
        sources.route_advance_penalty is None ==> modifiers.advance_max is None,
        sources.route_advance_penalty matches Some(penalty) ==> (modifiers.advance_max matches Some(
            most,
        ) && most >= 1 && (sources.layer_advance_max - penalty >= 1 ==> most
            == sources.layer_advance_max - penalty) && (sources.layer_advance_max - penalty < 1
            ==> most == 1)),
        modifiers.luminosity_pickaxe_reduction <==> sources.active_pickaxe_tier >= 6,
        modifiers.injury_reduces_advance == sources.injury_reduces_advance,
        sources.depth <= 350 ==> modifiers.luminosity_drain_bonus == 0,
        sources.depth > 350 ==> modifiers.luminosity_drain_bonus == (sources.depth - 350) / 20,
{
}

/// A tithe is credited once for each interaction, or for each request without one.
pub proof fn law_tithe_has_a_key(
    request: DigRuntimeRequest,
    interaction: &str,
    by_interaction: String,
    by_request: String,
)
    requires
        call_ensures(tithe_event_key, (request, Some(interaction)), by_interaction),
        call_ensures(tithe_event_key, (request, None::<&str>), by_request),
    ensures
        by_interaction@ == "dig-interaction:"@ + interaction@,
        by_request@ == "dig-request:"@ + int_text(request.guild_id as int) + ":"@ + int_text(
            request.discord_id as int,
        ) + ":"@ + int_text(request.now as int) + ":"@ + (if request.paid {
            "1"@
        } else {
            "0"@
        }) + ":"@ + (if request.forced_event {
            "1"@
        } else {
            "0"@
        }),
{
}

/// A commit against the stored version is stored and numbered; any other leaves the
/// store as it was.
pub proof fn law_store_keeps_what_is_committed(
    store: StoreView,
    request: CommitView,
    base: SnapshotView,
)
    requires
        store.snapshot == Some(base),
        0 <= store.next_action_id < i64::MAX,
    ensures
        request.expected == version_of(base) ==> store.after(request) == (StoreView {
            snapshot: Some(request.next),
            next_action_id: (store.next_action_id + 1) as i64,
        }),
        request.expected != version_of(base) ==> store.after(request) == store,
        (StoreView { snapshot: None, ..store }).after(request).snapshot is None,
{
}

} // verus!
