//! Laws on the shop: what the store is asked for and how its answers are told.

use crate::inventory::{
    bought, definition_place, insurance_told, queued_told, trap_told, AutoBuyAction,
    AutoBuyItemOutcome, AutoBuyRequest, BuyInsuranceOutcome, BuyItemOutcome, BuyItemRequest,
    DigInventoryAction, DigInventoryPort, DigInventoryService, InventoryItemRecord,
    InventoryViewItem, QueueItemOutcome, SetTrapOutcome,
};
use crate::text::texts;
use vstd::prelude::*;

verus! {

/// An unknown kind is refused by its name, without asking the store.
pub proof fn law_unknown_kind_is_refused<P: DigInventoryPort>(
    service: &DigInventoryService<P>,
    discord_id: i64,
    guild_id: Option<i64>,
    item_type: &str,
    created_at: i64,
    purchase: Result<DigInventoryAction, P::Error>,
    usage: Result<DigInventoryAction, P::Error>,
)
    requires
        call_ensures(
            DigInventoryService::<P>::buy_item_at,
            (service, discord_id, guild_id, item_type, created_at),
            purchase,
        ),
        call_ensures(
            DigInventoryService::<P>::use_item,
            (service, discord_id, guild_id, item_type),
            usage,
        ),
        definition_place(service.shop(), item_type@) is None,
    ensures
        purchase matches Ok(action) && !action@.success && action@.error == Some(
            "Unknown item type: "@ + item_type@,
        ),
        usage matches Ok(action) && !action@.success && action@.error == Some(
            "Unknown item type: "@ + item_type@,
        ),
{
}

/// A purchase asks the store for one item of the kind, for the player, at the price
/// of the catalogue, and is told as the store answers.
pub proof fn law_purchase_asks_the_store<P: DigInventoryPort>(
    service: &DigInventoryService<P>,
    discord_id: i64,
    guild_id: Option<i64>,
    item_type: &str,
    created_at: i64,
    answer: Result<DigInventoryAction, P::Error>,
    place: int,
)
    requires
        call_ensures(
            DigInventoryService::<P>::buy_item_at,
            (service, discord_id, guild_id, item_type, created_at),
            answer,
        ),
        definition_place(service.shop(), item_type@) == Some(place),
    ensures
        exists|request: BuyItemRequest, reply: Result<BuyItemOutcome, P::Error>| #[trigger]
            call_ensures(P::buy_item_atomic, (&service.store(), request), reply) && {
                &&& request@.discord_id == discord_id && request@.guild_id == guild_id
                &&& request@.item_type == item_type@ && request@.created_at == created_at
                &&& request@.price == service.shop()[place].cost
                &&& request@.inventory_limit == service.slots()
                &&& match reply {
                    Ok(outcome) => answer matches Ok(action) && action@ == bought(
                        service.shop()[place].name@,
                        outcome,
                    ),
                    Err(error) => answer == Err::<DigInventoryAction, P::Error>(error),
                }
            },
{
    let asked = crate::inventory::purchase_request(
        service.shop(),
        service.slots(),
        discord_id,
        guild_id,
        item_type@,
        created_at,
    )->0;
    let (request, reply) = choose|
        request: BuyItemRequest,
        reply: Result<BuyItemOutcome, P::Error>,
    | #[trigger]
        call_ensures(P::buy_item_atomic, (&service.store(), request), reply) && request@ == asked
            && crate::inventory::told_purchase(
            answer,
            reply,
            crate::inventory::kind_name(service.shop(), item_type@),
        );
    assert(call_ensures(P::buy_item_atomic, (&service.store(), request), reply));
}

/// A streak charm is never used by hand; any other known kind is queued by the store.
pub proof fn law_use_queues_an_item<P: DigInventoryPort>(
    service: &DigInventoryService<P>,
    discord_id: i64,
    guild_id: Option<i64>,
    item_type: &str,
    answer: Result<DigInventoryAction, P::Error>,
    place: int,
)
    requires
        call_ensures(
            DigInventoryService::<P>::use_item,
            (service, discord_id, guild_id, item_type),
            answer,
        ),
        definition_place(service.shop(), item_type@) == Some(place),
    ensures
        item_type@ == "streak_charm"@ ==> (answer matches Ok(action) && !action@.success
            && action@.error == Some("Streak Charm is passive and triggers automatically."@)),
        item_type@ != "streak_charm"@ ==> exists|reply: Result<QueueItemOutcome, P::Error>|
            #[trigger]
            call_ensures(
                P::queue_item_type_atomic,
                (&service.store(), discord_id, guild_id, item_type),
                reply,
            ) && match reply {
                Ok(outcome) => answer matches Ok(action) && action@ == queued_told(
                    service.shop(),
                    outcome,
                    Some(service.shop()[place].name@),
                ),
                Err(error) => answer == Err::<DigInventoryAction, P::Error>(error),
            },
{
    if item_type@ != "streak_charm"@ {
        let reply = choose|reply: Result<QueueItemOutcome, P::Error>| #[trigger]
            call_ensures(
                P::queue_item_type_atomic,
                (&service.store(), discord_id, guild_id, item_type),
                reply,
            ) && crate::inventory::told_queueing(
                service.shop(),
                answer,
                reply,
                Some(crate::inventory::kind_name(service.shop(), item_type@)),
            );
        assert(call_ensures(
            P::queue_item_type_atomic,
            (&service.store(), discord_id, guild_id, item_type),
            reply,
        ));
    }
}

/// A row is queued by its number.
pub proof fn law_row_is_queued_by_number<P: DigInventoryPort>(
    service: &DigInventoryService<P>,
    discord_id: i64,
    guild_id: Option<i64>,
    item_id: i64,
    answer: Result<DigInventoryAction, P::Error>,
)
    requires
        call_ensures(
            DigInventoryService::<P>::queue_item,
            (service, discord_id, guild_id, item_id),
            answer,
        ),
    ensures
        exists|reply: Result<QueueItemOutcome, P::Error>| #[trigger]
            call_ensures(
                P::queue_item_id_atomic,
                (&service.store(), discord_id, guild_id, item_id),
                reply,
            ) && match reply {
                Ok(outcome) => answer matches Ok(action) && action@ == queued_told(
                    service.shop(),
                    outcome,
                    None,
                ),
                Err(error) => answer == Err::<DigInventoryAction, P::Error>(error),
            },
{
    let reply = choose|reply: Result<QueueItemOutcome, P::Error>| #[trigger]
        call_ensures(
            P::queue_item_id_atomic,
            (&service.store(), discord_id, guild_id, item_id),
            reply,
        ) && crate::inventory::told_queueing(service.shop(), answer, reply, None);
    assert(call_ensures(
        P::queue_item_id_atomic,
        (&service.store(), discord_id, guild_id, item_id),
        reply,
    ));
}

/// The satchel of a tunnel is listed as the store has it; without a tunnel it is empty.
pub proof fn law_satchel_is_what_the_store_has<P: DigInventoryPort>(
    service: &DigInventoryService<P>,
    discord_id: i64,
    guild_id: Option<i64>,
    answer: Result<Vec<InventoryViewItem>, P::Error>,
)
    requires
        call_ensures(
            DigInventoryService::<P>::get_inventory,
            (service, discord_id, guild_id),
            answer,
        ),
    ensures
        exists|reply: Result<Option<Vec<InventoryItemRecord>>, P::Error>| #[trigger]
            call_ensures(P::inventory_for_tunnel, (&service.store(), discord_id, guild_id), reply)
                && match reply {
                Ok(Some(records)) => answer matches Ok(lines) && lines@.len() == records@.len()
                    && forall|i: int|
                    0 <= i < lines@.len() ==> (#[trigger] lines@[i])@.item_type
                        == records@[i]@.item_type,
                Ok(None) => answer matches Ok(lines) && lines@.len() == 0,
                Err(error) => answer == Err::<Vec<InventoryViewItem>, P::Error>(error),
            },
{
    let reply = choose|reply: Result<Option<Vec<InventoryItemRecord>>, P::Error>| #[trigger]
        call_ensures(P::inventory_for_tunnel, (&service.store(), discord_id, guild_id), reply)
            && crate::inventory::told_inventory(service.shop(), answer, reply);
    assert(call_ensures(P::inventory_for_tunnel, (&service.store(), discord_id, guild_id), reply));
    if let (Ok(Some(records)), Ok(lines)) = (reply, answer) {
        let views = crate::inventory::line_views(lines@);
        assert(views.len() == lines@.len());
        assert forall|i: int| 0 <= i < lines@.len() implies (#[trigger] lines@[i])@.item_type
            == records@[i]@.item_type by {
            assert(views[i] == lines@[i]@);
        }
    }
}

/// A trap is set for the day, and insurance bought at the time, that was asked for.
pub proof fn law_protection_asks_the_store<P: DigInventoryPort>(
    service: &DigInventoryService<P>,
    discord_id: i64,
    guild_id: Option<i64>,
    game_date: &str,
    now: i64,
    trap: Result<DigInventoryAction, P::Error>,
    insurance: Result<DigInventoryAction, P::Error>,
)
    requires
        call_ensures(
            DigInventoryService::<P>::set_trap,
            (service, discord_id, guild_id, game_date),
            trap,
        ),
        call_ensures(
            DigInventoryService::<P>::buy_insurance_at,
            (service, discord_id, guild_id, now),
            insurance,
        ),
    ensures
        exists|reply: Result<SetTrapOutcome, P::Error>| #[trigger]
            call_ensures(
                P::set_trap_atomic,
                (&service.store(), discord_id, guild_id, game_date),
                reply,
            ) && match reply {
                Ok(outcome) => trap matches Ok(action) && action@ == trap_told(outcome),
                Err(error) => trap == Err::<DigInventoryAction, P::Error>(error),
            },
        exists|reply: Result<BuyInsuranceOutcome, P::Error>| #[trigger]
            call_ensures(
                P::buy_insurance_atomic,
                (&service.store(), discord_id, guild_id, now),
                reply,
            ) && match reply {
                Ok(outcome) => insurance matches Ok(action) && action@ == insurance_told(outcome),
                Err(error) => insurance == Err::<DigInventoryAction, P::Error>(error),
            },
{
    let reply = choose|reply: Result<SetTrapOutcome, P::Error>| #[trigger]
        call_ensures(
            P::set_trap_atomic,
            (&service.store(), discord_id, guild_id, game_date),
            reply,
        ) && crate::inventory::told_trap(trap, reply);
    assert(call_ensures(
        P::set_trap_atomic,
        (&service.store(), discord_id, guild_id, game_date),
        reply,
    ));
    let reply = choose|reply: Result<BuyInsuranceOutcome, P::Error>| #[trigger]
        call_ensures(
            P::buy_insurance_atomic,
            (&service.store(), discord_id, guild_id, now),
            reply,
        ) && crate::inventory::told_insurance(insurance, reply);
    assert(call_ensures(
        P::buy_insurance_atomic,
        (&service.store(), discord_id, guild_id, now),
        reply,
    ));
}

/// Automatic purchases ask the store once, for the player and with the balance that is
/// spoken for; each outcome is told in its place.
pub proof fn law_automatic_purchases_ask_the_store<P: DigInventoryPort>(
    service: &DigInventoryService<P>,
    discord_id: i64,
    guild_id: Option<i64>,
    item_types: &Vec<String>,
    reserved_balance: i64,
    created_at: i64,
    observed_balance: Option<i64>,
    answer: Result<Vec<AutoBuyAction>, P::Error>,
)
    requires
        call_ensures(
            DigInventoryService::<P>::ensure_auto_buy_items_at,
            (
                service,
                discord_id,
                guild_id,
                item_types,
                reserved_balance,
                created_at,
                observed_balance,
            ),
            answer,
        ),
    ensures
        item_types@.len() == 0 ==> (answer matches Ok(actions) && actions@.len() == 0),
        crate::inventory::selected_kinds(service.shop(), texts(item_types@)).len() > 0 ==> exists|
            request: AutoBuyRequest,
            reply: Result<Vec<AutoBuyItemOutcome>, P::Error>,
        | #[trigger]
            call_ensures(P::ensure_auto_buy_items_atomic, (&service.store(), request), reply) && {
                &&& request.discord_id == discord_id && request.guild_id == guild_id
                &&& request.reserved_balance == reserved_balance
                &&& request.created_at == created_at
                &&& request.observed_balance == observed_balance
                &&& request.inventory_limit == service.slots()
                &&& crate::admission::selection_views(request.selections@)
                    == crate::inventory::selected_kinds(service.shop(), texts(item_types@))
                &&& match reply {
                    Ok(outcomes) => answer matches Ok(actions) && actions@.len() == outcomes@.len()
                        && forall|i: int|
                        0 <= i < actions@.len() ==> (#[trigger] actions@[i])@.item_type
                            == outcomes@[i]@.item_type && actions@[i]@.status
                            == outcomes@[i]@.status && actions@[i]@.cost == outcomes@[i]@.cost
                            && actions@[i]@.item_id == outcomes@[i]@.item_id,
                    Err(error) => answer == Err::<Vec<AutoBuyAction>, P::Error>(error),
                }
            },
{
    let selections = crate::inventory::selected_kinds(service.shop(), texts(item_types@));
    if selections.len() > 0 {
        let (request, reply) = choose|
            request: AutoBuyRequest,
            reply: Result<Vec<AutoBuyItemOutcome>, P::Error>,
        | #[trigger]
            call_ensures(P::ensure_auto_buy_items_atomic, (&service.store(), request), reply)
                && crate::inventory::asks_auto_buy(
                request,
                discord_id,
                guild_id,
                selections,
                reserved_balance,
                service.slots(),
                created_at,
                observed_balance,
            ) && crate::inventory::told_auto_buy(service.shop(), answer, reply);
        assert(call_ensures(
            P::ensure_auto_buy_items_atomic,
            (&service.store(), request),
            reply,
        ));
    }
}

} // verus!
