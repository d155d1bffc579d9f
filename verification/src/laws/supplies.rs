//! Laws on items: how they are bought, listed, queued, used up and prepared.

use crate::admission::SelectionView;
use crate::awards::{award_items, awards_boss, is_award, StatAward};
use crate::inventory::{
    auto_buy_told, bought, clock_timestamp, consumable_description, definition_place,
    insurance_told, kind_name, plan_purchase, queued_told, selected_kinds, shown_inventory,
    trap_told, AutoBuyOutcomeView, BuyInsuranceOutcome, BuyItemOutcome, BuyItemRequest,
    ConsumableDefinition, QueueItemOutcome, RecordView, SetTrapOutcome,
};
use crate::json::{int_array, json_of_text, JsonView};
use crate::loot::{
    after_purchase, item_place, largest, loot_of, next_id, owned_items, relic_place,
    snapshot_with_loot, tunnel_with_loot, LootStateView,
};
use crate::preparation::{
    after_activation, first_preparation, is_preparation_item, prep_in_tree, prepared_tree,
    stands_ready, with_prep, BossPreparationMutation, DigBossPreparationActivationOutcome,
    StoreStep,
};
use crate::snapshot::{ArtifactView, ItemView, SnapshotView, TunnelView};
use crate::text::int_text;
use vstd::prelude::*;

verus! {

proof fn lemma_definition(catalogue: Seq<ConsumableDefinition>, id: Seq<char>)
    ensures
        match definition_place(catalogue, id) {
            Some(place) => 0 <= place < catalogue.len() && catalogue[place].id@ == id && forall|
                i: int,
            |
                0 <= i < place ==> (#[trigger] catalogue[i]).id@ != id,
            None => forall|i: int|
                0 <= i < catalogue.len() ==> (#[trigger] catalogue[i]).id@ != id,
        },
    decreases catalogue.len(),
{
    if catalogue.len() > 0 {
        lemma_definition(catalogue.drop_last(), id);
        assert(forall|i: int|
            0 <= i < catalogue.len() - 1 ==> #[trigger] catalogue[i] == catalogue.drop_last()[i]);
    }
}

/// A kind of item is known by its first line in the catalogue, under that line's
/// name; another kind goes by its own word.
pub proof fn law_kinds_go_by_the_catalogue(
    catalogue: Seq<ConsumableDefinition>,
    id: Seq<char>,
    place: int,
)
    ensures
        0 <= place < catalogue.len() && catalogue[place].id@ == id && (forall|i: int|
            0 <= i < place ==> (#[trigger] catalogue[i]).id@ != id) ==> definition_place(
            catalogue,
            id,
        ) == Some(place) && kind_name(catalogue, id) == catalogue[place].name@,
        (forall|i: int| 0 <= i < catalogue.len() ==> (#[trigger] catalogue[i]).id@ != id)
            ==> definition_place(catalogue, id) is None && kind_name(catalogue, id) == id,
{
    lemma_definition(catalogue, id);
    if let Some(found) = definition_place(catalogue, id) {
        if 0 <= place < catalogue.len() && catalogue[place].id@ == id && (forall|i: int|
            0 <= i < place ==> (#[trigger] catalogue[i]).id@ != id) {
            assert(catalogue[found].id@ == id);
            assert(found == place);
        }
    }
}

/// A purchase is asked for at the price of the catalogue, with the limit of the
/// satchel; hard hats and torches are queued at once.
pub proof fn law_purchase_is_asked_for(
    catalogue: &Vec<ConsumableDefinition>,
    inventory_limit: usize,
    discord_id: i64,
    guild_id: Option<i64>,
    item_type: &str,
    created_at: i64,
    request: Option<BuyItemRequest>,
    place: int,
)
    requires
        call_ensures(
            plan_purchase,
            (catalogue, inventory_limit, discord_id, guild_id, item_type, created_at),
            request,
        ),
        definition_place(catalogue@, item_type@) == Some(place),
    ensures
        request matches Some(asked) && asked@.discord_id == discord_id && asked@.guild_id
            == guild_id && asked@.item_type == item_type@ && asked@.price
            == catalogue@[place].cost && asked@.inventory_limit == inventory_limit
            && asked@.created_at == created_at && (asked@.auto_queue_if_available
            <==> item_type@ == "hard_hat"@ || item_type@ == "torch"@),
{
}

/// What a purchase came to is told: the row and the price, or what was missing.
pub proof fn law_purchase_is_told(
    name: Seq<char>,
    item_id: i64,
    queued: bool,
    cost: i64,
    balance: i64,
    limit: i64,
)
    ensures
        ({
            let told = bought(
                name,
                BuyItemOutcome::Purchased { item_id, queued, cost, balance_after: balance },
            );
            &&& told.success && told.error is None && told.item == Some(name)
            &&& told.item_id == Some(item_id) && told.queued == queued && told.cost == cost
            &&& told.balance_after == Some(balance) && told.expires_at is None
            &&& told.message is None
        }),
        bought(name, BuyItemOutcome::MissingTunnel).error == Some(
            "You don't have a tunnel. Dig first!"@,
        ),
        bought(name, BuyItemOutcome::InsufficientBalance { balance, cost }).error == Some(
            "Costs "@ + int_text(cost as int) + " JC but you only have "@ + int_text(balance as int)
                + " JC."@,
        ),
        !bought(name, BuyItemOutcome::MissingTunnel).success,
        !bought(name, BuyItemOutcome::InsufficientBalance { balance, cost }).success,
        !bought(name, BuyItemOutcome::InventoryFull { limit }).success,
        bought(name, BuyItemOutcome::InventoryFull { limit }).error == Some(
            "Inventory full ("@ + int_text(limit as int) + " items max)."@,
        ),
{
}

/// Queueing is told under the name that the item goes by.
pub proof fn law_queueing_is_told(
    catalogue: Seq<ConsumableDefinition>,
    outcome: QueueItemOutcome,
    name: Seq<char>,
)
    ensures
        ({
            let told = queued_told(catalogue, outcome, Some(name));
            &&& told.success <==> outcome is Queued
            &&& told.queued <==> outcome is Queued
            &&& told.error is Some <==> !(outcome is Queued)
            &&& outcome is Queued ==> told.item == Some(name)
            &&& told.cost == 0 && told.balance_after is None && told.item_id is None
            &&& outcome is NotOwned ==> told.error == Some("You don't have a "@ + name + "."@)
            &&& outcome is AlreadyQueued ==> told.error == Some(name + " is already queued."@)
            &&& outcome is BossPreparationAlreadyQueued ==> told.error == Some(
                "Only one boss preparation item can be queued at a time."@,
            )
            &&& outcome is MissingTunnel ==> told.error == Some("You don't have a tunnel."@)
        }),
        outcome is NotOwned ==> queued_told(catalogue, outcome, None).error == Some(
            "That item is not in your inventory."@,
        ),
        outcome matches QueueItemOutcome::AlreadyQueued { item_type } ==> queued_told(
            catalogue,
            outcome,
            None,
        ).error == Some(
            (match definition_place(catalogue, item_type@) {
                Some(place) => catalogue[place].name@,
                None => "That item"@,
            }) + " is already queued."@,
        ),
{
}

/// Traps and insurance are told with their price and what is left.
pub proof fn law_protection_is_told(cost: i64, balance: i64, expires_at: i64)
    ensures
        ({
            let told = trap_told(SetTrapOutcome::Placed { cost, balance_after: balance });
            &&& told.success && told.cost == cost && told.balance_after == Some(balance)
            &&& told.error is None && told.expires_at is None
        }),
        ({
            let told = insurance_told(
                BuyInsuranceOutcome::Purchased { cost, expires_at, balance_after: balance },
            );
            &&& told.success && told.cost == cost && told.balance_after == Some(balance)
            &&& told.error is None && told.expires_at == Some(expires_at)
        }),
        !trap_told(SetTrapOutcome::MissingTunnel).success,
        trap_told(SetTrapOutcome::MissingTunnel).error == Some("You don't have a tunnel."@),
        trap_told(SetTrapOutcome::AlreadyActive).error == Some("You already have an active trap."@),
        trap_told(SetTrapOutcome::InsufficientBalance { balance, cost }).error == Some(
            "Trap costs "@ + int_text(cost as int) + " JC but you only have "@ + int_text(
                balance as int,
            ) + " JC."@,
        ),
        insurance_told(BuyInsuranceOutcome::MissingTunnel).error == Some(
            "You don't have a tunnel."@,
        ),
        insurance_told(BuyInsuranceOutcome::InsufficientBalance { balance, cost }).error == Some(
            "Insurance costs "@ + int_text(cost as int) + " JC but you only have "@ + int_text(
                balance as int,
            ) + " JC."@,
        ),
{
}

/// An automatic purchase is told as the store reports it.
pub proof fn law_automatic_purchase_is_told(
    catalogue: Seq<ConsumableDefinition>,
    outcome: AutoBuyOutcomeView,
)
    ensures
        ({
            let told = auto_buy_told(catalogue, outcome);
            &&& told.item_type == outcome.item_type && told.status == outcome.status
            &&& told.cost == outcome.cost && told.item_id == outcome.item_id
            &&& told.item == kind_name(catalogue, outcome.item_type)
            &&& told.error is Some <==> outcome.status is SkippedMissingTunnel
        }),
{
}

/// Only hard hats and torches of the catalogue are bought automatically, each at its
/// price and in the order asked for.
pub proof fn law_automatic_purchases_are_selected(
    catalogue: Seq<ConsumableDefinition>,
    kinds: Seq<Seq<char>>,
    kind: Seq<char>,
)
    ensures
        selected_kinds(catalogue, Seq::empty()).len() == 0,
        (kind == "hard_hat"@ || kind == "torch"@) ==> (match definition_place(catalogue, kind) {
            Some(place) => selected_kinds(catalogue, kinds.push(kind)) == selected_kinds(
                catalogue,
                kinds,
            ).push(SelectionView { item_type: kind, price: catalogue[place].cost }),
            None => selected_kinds(catalogue, kinds.push(kind)) == selected_kinds(catalogue, kinds),
        }),
        kind != "hard_hat"@ && kind != "torch"@ ==> selected_kinds(catalogue, kinds.push(kind))
            == selected_kinds(catalogue, kinds),
{
    assert(kinds.push(kind).drop_last() =~= kinds);
}

/// Each row of a satchel has a line of its own, with the name and the words of its
/// kind, marked as queued where a row of the kind is.
pub proof fn law_satchel_is_listed(
    catalogue: Seq<ConsumableDefinition>,
    records: Seq<RecordView>,
    i: int,
    j: int,
)
    requires
        0 <= i < records.len(),
        0 <= j < records.len(),
    ensures
        shown_inventory(catalogue, records).len() == records.len(),
        ({
            let line = shown_inventory(catalogue, records)[i];
            &&& line.item_type == records[i].item_type
            &&& line.name == kind_name(catalogue, records[i].item_type)
            &&& records[j].queued && records[j].item_type == records[i].item_type ==> line.queued
            &&& (forall|k: int|
                0 <= k < records.len() && (#[trigger] records[k]).item_type == records[i].item_type
                    ==> !records[k].queued) ==> !line.queued
        }),
{
}

proof fn lemma_kind_words()
    ensures
        "dynamite"@.len() == 8,
        "hard_hat"@.len() == 8,
        "lantern"@.len() == 7,
        "reinforcement"@.len() == 13,
        "torch"@.len() == 5,
        "grappling_hook"@.len() == 14,
        "sonar_pulse"@.len() == 11,
        "depth_charge"@.len() == 12,
        "void_bait"@.len() == 9,
        "streak_charm"@.len() == 12,
        "tempered_whetstone"@.len() == 18,
        "warding_salts"@.len() == 13,
        "rescue_line"@.len() == 11,
        "dynamite"@[0] != "hard_hat"@[0],
        "reinforcement"@[0] != "warding_salts"@[0],
        "sonar_pulse"@[0] != "rescue_line"@[0],
        "depth_charge"@[0] != "streak_charm"@[0],
{
    reveal_strlit("dynamite");
    reveal_strlit("hard_hat");
    reveal_strlit("lantern");
    reveal_strlit("reinforcement");
    reveal_strlit("torch");
    reveal_strlit("grappling_hook");
    reveal_strlit("sonar_pulse");
    reveal_strlit("depth_charge");
    reveal_strlit("void_bait");
    reveal_strlit("streak_charm");
    reveal_strlit("tempered_whetstone");
    reveal_strlit("warding_salts");
    reveal_strlit("rescue_line");
}

/// Each kind of item is described by what it does.
pub proof fn law_kinds_are_described(kind: &str, words: &'static str)
    requires
        call_ensures(consumable_description, (kind,), words),
    ensures
        kind@ == "dynamite"@ ==> words@ == "+5 bonus blocks on next dig."@,
        kind@ == "hard_hat"@ ==> words@
            == "Prevents cave-ins entirely for the next 3 digs. Costs luminosity per dig."@,
        kind@ == "lantern"@ ==> words@ == "-50% cave-in next dig. Reveals what's stirring nearby."@,
        kind@ == "reinforcement"@ ==> words@
            == "48h: half damage from sabotage, big cave-ins are capped."@,
        kind@ == "torch"@ ==> words@ == "+50 luminosity. Light the way."@,
        kind@ == "grappling_hook"@ ==> words@
            == "Cushions the next 5 cave-ins: no block loss, no stun."@,
        kind@ == "sonar_pulse"@ ==> words@
            == "Reveals the next event and lets it pass you by once."@,
        kind@ == "depth_charge"@ ==> words@
            == "+10 bonus blocks on next dig. A louder, deeper blast than Dynamite."@,
        kind@ == "void_bait"@ ==> words@
            == "3 digs: 2x event chance, with a thumb on the scale for rare finds."@,
        kind@ == "streak_charm"@ ==> words@
            == "Passively saves one daily dig streak after exactly one missed day."@,
        kind@ == "tempered_whetstone"@ ==> words@
            == "One boss attempt: +1 damage on every player hit."@,
        kind@ == "warding_salts"@ ==> words@
            == "One boss attempt: blocks the first mechanic or status effect."@,
        kind@ == "rescue_line"@ ==> words@
            == "One boss attempt: halves defeat knockback and extra gear wear."@,
{
    lemma_kind_words();
}

/// The clock is read in whole seconds, as far as they can be told.
pub proof fn law_clock_is_read(seconds: u64, now: i64, unset: i64)
    requires
        call_ensures(clock_timestamp, (Some(seconds),), now),
        call_ensures(clock_timestamp, (None::<u64>,), unset),
        seconds <= i64::MAX,
    ensures
        now == seconds,
        unset == 0,
{
}

proof fn lemma_largest(ids: Seq<i64>)
    ensures
        largest(ids) is None <==> ids.len() == 0,
        largest(ids) matches Some(best) ==> ids.contains(best) && forall|i: int|
            0 <= i < ids.len() ==> #[trigger] ids[i] <= best,
    decreases ids.len(),
{
    if ids.len() > 0 {
        lemma_largest(ids.drop_last());
        assert(forall|i: int|
            0 <= i < ids.len() - 1 ==> #[trigger] ids[i] == ids.drop_last()[i]);
        assert(ids[ids.len() - 1] == ids.last());
        if ids.len() > 1 {
            let best = largest(ids.drop_last())->0;
            let place = choose|i: int| 0 <= i < ids.len() - 1 && ids.drop_last()[i] == best;
            assert(ids[place] == best);
        }
    }
}

/// Rows are numbered from one, each one above the largest there is.
pub proof fn law_rows_are_numbered(ids: Seq<i64>, best: i64)
    ensures
        next_id(Seq::empty()) == 1,
        ids.contains(best) && best < i64::MAX && (forall|i: int|
            0 <= i < ids.len() ==> #[trigger] ids[i] <= best) ==> next_id(ids) == best + 1,
{
    lemma_largest(ids);
    if ids.contains(best) {
        let place = choose|i: int| 0 <= i < ids.len() && ids[i] == best;
        assert(ids[place] == best);
        if forall|i: int| 0 <= i < ids.len() ==> #[trigger] ids[i] <= best {
            let top = largest(ids)->0;
            let spot = choose|i: int| 0 <= i < ids.len() && ids[i] == top;
            assert(ids[spot] == top);
        }
    }
}

/// A bought item is the last row, of the kind asked for, and is paid for.
pub proof fn law_bought_item_is_there(
    before: SnapshotView,
    item_type: Seq<char>,
    cost: i64,
    queued: bool,
)
    requires
        i64::MIN <= before.balance - cost <= i64::MAX,
    ensures
        ({
            let after = after_purchase(before, item_type, cost, queued);
            &&& after.balance == before.balance - cost
            &&& after.inventory.len() == before.inventory.len() + 1
            &&& after.inventory.last().item_type == item_type
            &&& after.inventory.last().queued == queued
            &&& after.inventory.drop_last() == before.inventory
            &&& before == (SnapshotView {
                balance: before.balance,
                inventory: before.inventory,
                ..after
            })
        }),
{
    let after = after_purchase(before, item_type, cost, queued);
    assert(after.inventory.drop_last() =~= before.inventory);
}

proof fn lemma_item_place(items: Seq<ItemView>, id: i64)
    ensures
        match item_place(items, id) {
            Some(place) => 0 <= place < items.len() && items[place].id == id && forall|i: int|
                0 <= i < place ==> (#[trigger] items[i]).id != id,
            None => forall|i: int| 0 <= i < items.len() ==> (#[trigger] items[i]).id != id,
        },
    decreases items.len(),
{
    if items.len() > 0 {
        lemma_item_place(items.drop_last(), id);
        assert(forall|i: int|
            0 <= i < items.len() - 1 ==> #[trigger] items[i] == items.drop_last()[i]);
    }
}

proof fn lemma_relic_place(rows: Seq<ArtifactView>, id: i64)
    ensures
        match relic_place(rows, id) {
            Some(place) => 0 <= place < rows.len() && rows[place].id == id && rows[place].is_relic,
            None => forall|i: int|
                0 <= i < rows.len() ==> !((#[trigger] rows[i]).id == id && rows[i].is_relic),
        },
    decreases rows.len(),
{
    if rows.len() > 0 {
        lemma_relic_place(rows.drop_last(), id);
        assert(forall|i: int|
            0 <= i < rows.len() - 1 ==> #[trigger] rows[i] == rows.drop_last()[i]);
    }
}

/// A row is found by its number, a relic only where it is one.
pub proof fn law_rows_are_found(items: Seq<ItemView>, artifacts: Seq<ArtifactView>, id: i64)
    ensures
        match item_place(items, id) {
            Some(place) => 0 <= place < items.len() && items[place].id == id && forall|i: int|
                0 <= i < place ==> (#[trigger] items[i]).id != id,
            None => forall|i: int| 0 <= i < items.len() ==> (#[trigger] items[i]).id != id,
        },
        match relic_place(artifacts, id) {
            Some(place) => 0 <= place < artifacts.len() && artifacts[place].id == id
                && artifacts[place].is_relic,
            None => forall|i: int|
                0 <= i < artifacts.len() ==> !((#[trigger] artifacts[i]).id == id
                    && artifacts[i].is_relic),
        },
{
    lemma_item_place(items, id);
    lemma_relic_place(artifacts, id);
}

/// Items of known kinds are listed with their owner, in order; others are left out.
pub proof fn law_owned_items_are_listed(
    items: Seq<ItemView>,
    item: ItemView,
    discord_id: i64,
    guild_id: i64,
    known: Seq<Seq<char>>,
)
    ensures
        owned_items(Seq::empty(), discord_id, guild_id, known).len() == 0,
        !known.contains(item.item_type) ==> owned_items(
            items.push(item),
            discord_id,
            guild_id,
            known,
        ) == owned_items(items, discord_id, guild_id, known),
        known.contains(item.item_type) ==> ({
            let listed = owned_items(items.push(item), discord_id, guild_id, known);
            &&& listed.drop_last() == owned_items(items, discord_id, guild_id, known)
            &&& listed.last().id == item.id && listed.last().item_type == item.item_type
            &&& listed.last().queued == item.queued && listed.last().discord_id == discord_id
            &&& listed.last().guild_id == guild_id
        }),
{
    assert(items.push(item).drop_last() =~= items);
    if known.contains(item.item_type) {
        assert(owned_items(items.push(item), discord_id, guild_id, known).drop_last()
            =~= owned_items(items, discord_id, guild_id, known));
    }
}

/// The rules of items see what they may change, and put back just that.
pub proof fn law_item_rules_see_the_tunnel(tunnel: TunnelView, loot: LootStateView)
    ensures
        ({
            let seen = loot_of(tunnel);
            &&& seen.depth == tunnel.depth && seen.luminosity == tunnel.luminosity
            &&& seen.hard_hat_charges == tunnel.hard_hat_charges
            &&& seen.reinforced_until == tunnel.reinforced_until
            &&& seen.void_bait_digs == tunnel.void_bait_digs
            &&& seen.sonar_skip_pending == tunnel.sonar_skip_pending
            &&& seen.grappling_hook_charges == tunnel.grappling_hook_charges
            &&& seen.temp_buff == tunnel.temp_buffs
            &&& seen.injured <==> (match tunnel.injury_state {
                Some(text) => json_of_text(text) matches Some(tree) && tree.text_at("type"@)
                    == Some("reduced_advance"@),
                None => false,
            })
        }),
        ({
            let put = tunnel_with_loot(tunnel, loot);
            &&& put.depth == loot.depth && put.luminosity == loot.luminosity
            &&& put.hard_hat_charges == loot.hard_hat_charges
            &&& put.reinforced_until == loot.reinforced_until
            &&& put.void_bait_digs == loot.void_bait_digs
            &&& put.sonar_skip_pending == loot.sonar_skip_pending
            &&& put.grappling_hook_charges == loot.grappling_hook_charges
            &&& put.temp_buffs == loot.temp_buff
            &&& tunnel == (TunnelView {
                depth: tunnel.depth,
                luminosity: tunnel.luminosity,
                hard_hat_charges: tunnel.hard_hat_charges,
                reinforced_until: tunnel.reinforced_until,
                void_bait_digs: tunnel.void_bait_digs,
                sonar_skip_pending: tunnel.sonar_skip_pending,
                grappling_hook_charges: tunnel.grappling_hook_charges,
                temp_buffs: tunnel.temp_buffs,
                ..put
            })
        }),
{
}

/// Items put away leave everything but the tunnel alone.
pub proof fn law_item_rules_leave_the_rest(snapshot: SnapshotView, loot: LootStateView)
    ensures
        snapshot == (SnapshotView {
            tunnel: snapshot.tunnel,
            ..snapshot_with_loot(snapshot, loot)
        }),
        snapshot.tunnel is None ==> snapshot_with_loot(snapshot, loot).tunnel is None,
        snapshot.tunnel matches Some(tunnel) ==> snapshot_with_loot(snapshot, loot).tunnel == Some(
            tunnel_with_loot(tunnel, loot),
        ),
{
}

proof fn lemma_prep_words()
    ensures
        "tempered_whetstone"@.len() == 18,
        "warding_salts"@.len() == 13,
        "rescue_line"@.len() == 11,
        "active_prep"@.len() == 11,
        "used"@.len() == 4,
        "item_type"@.len() == 9,
        "item"@.len() == 4,
        "status"@.len() == 6,
        "active"@.len() == 6,
        "rescue_line"@[0] != "active_prep"@[0],
        "used"@[0] != "item"@[0],
        "status"@[0] != "active"@[0],
{
    reveal_strlit("tempered_whetstone");
    reveal_strlit("warding_salts");
    reveal_strlit("rescue_line");
    reveal_strlit("active_prep");
    reveal_strlit("used");
    reveal_strlit("item_type");
    reveal_strlit("item");
    reveal_strlit("status");
    reveal_strlit("active");
}

/// Preparations are whetstones, salts and rescue lines; the first one queued is taken.
pub proof fn law_first_preparation_is_taken(
    item: &str,
    answer: bool,
    queued: Seq<RecordView>,
    record: RecordView,
)
    requires
        call_ensures(is_preparation_item, (item,), answer),
    ensures
        answer <==> item@ == "tempered_whetstone"@ || item@ == "warding_salts"@ || item@
            == "rescue_line"@,
        first_preparation(Seq::empty()) is None,
        first_preparation(queued) is Some ==> first_preparation(queued.push(record))
            == first_preparation(queued),
        first_preparation(queued) is None ==> (match first_preparation(queued.push(record)) {
            Some(taken) => taken == record && (record.item_type == "tempered_whetstone"@
                || record.item_type == "warding_salts"@ || record.item_type == "rescue_line"@),
            None => record.item_type != "tempered_whetstone"@ && record.item_type
                != "warding_salts"@ && record.item_type != "rescue_line"@,
        }),
{
    assert(queued.push(record).drop_last() =~= queued);
}

/// A preparation is written under the boss that it is for, unused, beside what was
/// known of the boss; other bosses are left alone.
pub proof fn law_preparation_is_written(
    tree: JsonView,
    boundary: i32,
    item: Seq<char>,
    key: Seq<char>,
)
    requires
        tree is Object,
    ensures
        key != int_text(boundary as int) ==> with_prep(tree, boundary, item).get(key) == tree.get(
            key,
        ),
        match with_prep(tree, boundary, item).get(int_text(boundary as int)) {
            Some(entry) => {
                &&& entry is Object
                &&& match tree.get(int_text(boundary as int)) {
                    Some(JsonView::Object(known)) => key != "active_prep"@ ==> entry.get(key)
                        == JsonView::Object(known).get(key),
                    Some(JsonView::Text(word)) => entry.text_at("status"@) == Some(word),
                    Some(_) => entry.text_at("status"@) == Some("active"@),
                    None => entry.text_at("status"@) == Some("active"@),
                }
                &&& match entry.get("active_prep"@) {
                    Some(prep) => prep.text_at("item_type"@) == Some(item) && prep.bool_at(
                        "used"@,
                    ) == Some(false),
                    None => false,
                }
            },
            None => false,
        },
{
    lemma_prep_words();
}

/// A preparation is marked as used, or taken away, under its boss; the rest stays.
pub proof fn law_preparation_is_spent(
    text: Seq<char>,
    tree: JsonView,
    entry: JsonView,
    prep: JsonView,
    boundary: i32,
    key: Seq<char>,
)
    requires
        json_of_text(text) == Some(tree),
        tree is Object,
        tree.get(int_text(boundary as int)) == Some(entry),
        entry is Object,
        entry.get("active_prep"@) == Some(prep),
        prep is Object,
    ensures
        match prepared_tree(Some(text), BossPreparationMutation::MarkUsed { boundary }) {
            Some(next) => {
                &&& key != int_text(boundary as int) ==> next.get(key) == tree.get(key)
                &&& match next.get(int_text(boundary as int)) {
                    Some(kept) => {
                        &&& key != "active_prep"@ ==> kept.get(key) == entry.get(key)
                        &&& match kept.get("active_prep"@) {
                            Some(spent) => spent.bool_at("used"@) == Some(true) && (key != "used"@
                                ==> spent.get(key) == prep.get(key)),
                            None => false,
                        }
                    },
                    None => false,
                }
            },
            None => false,
        },
        match prepared_tree(Some(text), BossPreparationMutation::Clear { boundary }) {
            Some(next) => {
                &&& key != int_text(boundary as int) ==> next.get(key) == tree.get(key)
                &&& match next.get(int_text(boundary as int)) {
                    Some(kept) => kept.get("active_prep"@) is None && (key != "active_prep"@
                        ==> kept.get(key) == entry.get(key)),
                    None => false,
                }
            },
            None => false,
        },
        prepared_tree(Some(text), BossPreparationMutation::Preserve) is None,
{
    lemma_prep_words();
}

/// A preparation is read back by name, under either of its names.
pub proof fn law_preparation_is_read(
    tree: JsonView,
    entry: JsonView,
    prep: JsonView,
    boundary: i32,
    item: Seq<char>,
)
    requires
        tree.get(int_text(boundary as int)) == Some(entry),
        entry.get("active_prep"@) == Some(prep),
    ensures
        prep.get("item_type"@) == Some(JsonView::Text(item)) ==> (prep_in_tree(
            tree,
            boundary,
        ) matches Some(read) && read.item_type == item && (read.used <==> prep.bool_at("used"@)
            == Some(true))),
        prep.get("item_type"@) is None && prep.get("item"@) == Some(JsonView::Text(item)) ==> (
        prep_in_tree(tree, boundary) matches Some(read) && read.item_type == item),
        entry is Object && prep.text_at("item_type"@) == Some(item) ==> (stands_ready(tree, boundary)
            <==> item == "tempered_whetstone"@ || item == "warding_salts"@ || item
            == "rescue_line"@),
{
}

/// A preparation that lost a race is tried again; without a tunnel there is none.
pub proof fn law_activation_is_tried_again(
    outcome: DigBossPreparationActivationOutcome,
    step: StoreStep,
)
    requires
        call_ensures(after_activation, (outcome,), step),
    ensures
        step is Done <==> outcome is Applied,
        step is Retry <==> outcome is Conflict || outcome is ItemUnavailable,
        step is MissingTunnel <==> outcome is MissingPlayer || outcome is MissingTunnel,
{
}

proof fn lemma_award_words()
    ensures
        "prestige_level"@.len() == 14,
        "awards"@.len() == 6,
{
    reveal_strlit("prestige_level");
    reveal_strlit("awards");
}

/// Awards count for the prestige that they were won in; a bare list is of the first.
pub proof fn law_awards_belong_to_a_prestige(
    ledger: JsonView,
    items: Seq<JsonView>,
    level: i64,
    prestige: i64,
)
    ensures
        ledger is Object && ledger.int_at("prestige_level"@) == Some(prestige) && ledger.get(
            "awards"@,
        ) == Some(JsonView::Array(items)) ==> award_items(ledger, prestige) == items,
        ledger is Object && ledger.int_at("prestige_level"@) == Some(level) && level != prestige
            ==> award_items(ledger, prestige).len() == 0,
        award_items(JsonView::Array(items), 0) == items,
        prestige != 0 ==> award_items(JsonView::Array(items), prestige).len() == 0,
{
}

/// A first clear adds a point to at least five and its boss to the ledger, once.
pub proof fn law_first_clear_is_awarded(
    stat_points: i64,
    prestige: i64,
    column: Option<Seq<char>>,
    boundary: i32,
    award: StatAward,
)
    requires
        is_award(stat_points, prestige, column, boundary, award),
        stat_points < i64::MAX,
    ensures
        stat_points >= 5 ==> award.stat_points == stat_points + 1,
        stat_points < 5 ==> award.stat_points == 6,
        !awards_boss(column, prestige, boundary as i64),
        json_of_text(award.ledger@) matches Some(ledger) && ledger is Object && ledger.int_at(
            "prestige_level"@,
        ) == Some(prestige) && (ledger.get("awards"@) matches Some(JsonView::Array(items))
            && items.contains(JsonView::Int(boundary as i64))),
{
    lemma_award_words();
    let awards = choose|awards: Seq<i64>|
        {
            &&& crate::sorted::is_ascending(awards)
            &&& forall|x: i64| #[trigger]
                awards.contains(x) <==> x == boundary || (awards_boss(column, prestige, x)
                    && i32::MIN <= x <= i32::MAX)
            &&& json_of_text(award.ledger@) == Some(
                #[trigger] crate::awards::written_ledger(prestige, awards),
            )
            &&& award.ledger@ == crate::json::text_of_json(
                crate::awards::written_ledger(prestige, awards),
            )
        };
    assert(awards.contains(boundary as i64));
    let place = choose|i: int| 0 <= i < awards.len() && awards[i] == boundary as i64;
    let items = int_array(awards)->Array_0;
    assert(items[place] == JsonView::Int(boundary as i64));
}

} // verus!
