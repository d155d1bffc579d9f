//! The inventory service against a scripted repository.

use cama_dig::admission::AutoBuySelection;
use cama_dig::inventory::{
    auto_buy_action, buy_outcome_action, clock_timestamp, consumable_description, find_definition,
    insurance_outcome_action, queue_outcome_action, select_auto_buy, show_inventory,
    trap_outcome_action, AutoBuyItemOutcome, AutoBuyRequest, AutoBuyStatus, BuyInsuranceOutcome,
    BuyItemOutcome, BuyItemRequest, ConsumableDefinition, DigInventoryAction, DigInventoryPort,
    DigInventoryService, InventoryItemRecord, QueueItemOutcome, SetTrapOutcome,
};

/// Answers every request in a fixed way that shows what it was asked.
struct Scripted;

impl DigInventoryPort for Scripted {
    type Error = String;

    fn buy_item_atomic(&self, request: BuyItemRequest) -> Result<BuyItemOutcome, String> {
        if request.discord_id < 0 {
            return Err("offline".to_owned());
        }
        Ok(BuyItemOutcome::Purchased {
            item_id: request.created_at,
            queued: request.auto_queue_if_available,
            cost: request.price,
            balance_after: request.inventory_limit as i64,
        })
    }

    fn ensure_auto_buy_items_atomic(
        &self,
        request: AutoBuyRequest,
    ) -> Result<Vec<AutoBuyItemOutcome>, String> {
        Ok(request
            .selections
            .into_iter()
            .map(|selection: AutoBuySelection| AutoBuyItemOutcome {
                item_type: selection.item_type,
                status: AutoBuyStatus::Reported("purchased".to_owned()),
                cost: selection.price,
                item_id: Some(request.created_at),
            })
            .collect())
    }

    fn queue_item_type_atomic(
        &self,
        _discord_id: i64,
        _guild_id: Option<i64>,
        item_type: &str,
    ) -> Result<QueueItemOutcome, String> {
        Ok(QueueItemOutcome::Queued { item_id: 4, item_type: item_type.to_owned() })
    }

    fn queue_item_id_atomic(
        &self,
        _discord_id: i64,
        _guild_id: Option<i64>,
        item_id: i64,
    ) -> Result<QueueItemOutcome, String> {
        if item_id == 0 {
            return Ok(QueueItemOutcome::NotOwned);
        }
        Ok(QueueItemOutcome::Queued { item_id, item_type: "torch".to_owned() })
    }

    fn inventory_for_tunnel(
        &self,
        discord_id: i64,
        _guild_id: Option<i64>,
    ) -> Result<Option<Vec<InventoryItemRecord>>, String> {
        if discord_id == 0 {
            return Ok(None);
        }
        Ok(Some(rows()))
    }

    fn set_trap_atomic(
        &self,
        _discord_id: i64,
        _guild_id: Option<i64>,
        _game_date: &str,
    ) -> Result<SetTrapOutcome, String> {
        Ok(SetTrapOutcome::AlreadyActive)
    }

    fn buy_insurance_atomic(
        &self,
        _discord_id: i64,
        _guild_id: Option<i64>,
        now: i64,
    ) -> Result<BuyInsuranceOutcome, String> {
        Ok(BuyInsuranceOutcome::Purchased { cost: 9, expires_at: now + 10, balance_after: 1 })
    }
}

fn catalogue() -> Vec<ConsumableDefinition> {
    [("torch", "Torch", 6), ("hard_hat", "Hard Hat", 8), ("dynamite", "Dynamite", 15)]
        .iter()
        .map(|(id, name, cost)| ConsumableDefinition {
            id: (*id).to_owned(),
            name: (*name).to_owned(),
            cost: *cost,
        })
        .collect()
}

fn rows() -> Vec<InventoryItemRecord> {
    [(1, "torch", false), (2, "dynamite", false), (3, "torch", true)]
        .iter()
        .map(|(id, kind, queued)| InventoryItemRecord {
            id: *id,
            item_type: (*kind).to_owned(),
            queued: *queued,
        })
        .collect()
}

fn service() -> DigInventoryService<Scripted> {
    DigInventoryService::new(Scripted, catalogue(), 12)
}

fn kept<T>(answer: Result<T, String>) -> T {
    match answer {
        Ok(value) => value,
        Err(error) => panic!("{error}"),
    }
}

#[test]
fn purchases_hand_the_price_on_and_tell_the_outcome() {
    let action = kept(service().buy_item_at(7, Some(9), "torch", 55));
    assert!(action.success);
    assert_eq!(action.item.as_deref(), Some("Torch"));
    assert_eq!((action.item_id, action.queued, action.cost), (Some(55), true, 6));
    assert_eq!(action.balance_after, Some(12));
    let plain = kept(service().buy_item_at(7, None, "dynamite", 55));
    assert!(!plain.queued);
    let unknown = kept(service().buy_item_at(7, None, "spoon", 55));
    assert!(!unknown.success);
    assert_eq!(unknown.error.as_deref(), Some("Unknown item type: spoon"));
    assert_eq!(service().buy_item_at(-1, None, "torch", 55).err().as_deref(), Some("offline"));
}

#[test]
fn purchases_without_a_time_use_the_clock() {
    let action = kept(service().buy_item(7, None, "torch"));
    assert!(action.item_id.is_some_and(|stamp| stamp > 1_600_000_000));
    let insured = kept(service().buy_insurance(7, None));
    assert!(insured.expires_at.is_some_and(|stamp| stamp > 1_600_000_000));
}

#[test]
fn automatic_purchases_follow_the_catalogue() {
    let wanted = vec!["hard_hat".to_owned(), "spoon".to_owned(), "torch".to_owned()];
    let selected = select_auto_buy(&catalogue(), &wanted);
    let prices: Vec<i64> = selected.iter().map(|selection| selection.price).collect();
    assert_eq!(prices, [8, 6]);
    let bought = kept(service().ensure_auto_buy_items_at(7, None, &wanted, 0, 77, Some(100)));
    assert_eq!(bought.len(), 2);
    assert_eq!(bought[0].item, "Hard Hat");
    assert_eq!(bought[0].item_id, Some(77));
    assert!(bought[0].error.is_none());
    let skipped = auto_buy_action(
        &catalogue(),
        AutoBuyItemOutcome {
            item_type: "torch".to_owned(),
            status: AutoBuyStatus::SkippedMissingTunnel,
            cost: 0,
            item_id: None,
        },
    );
    assert!(skipped.error.is_some());
    assert_eq!(kept(service().ensure_auto_buy_items(7, None, &wanted, 0)).len(), 2);
}

#[test]
fn a_queued_row_marks_its_whole_kind() {
    let lines = show_inventory(&catalogue(), &rows());
    assert_eq!(lines.len(), 3);
    assert!(lines[0].queued && lines[2].queued);
    assert!(!lines[1].queued);
    assert_eq!(lines[1].name, "Dynamite");
    assert_eq!(lines[0].description, consumable_description("torch"));
    assert!(kept(service().get_inventory(0, None)).is_empty());
    assert_eq!(kept(service().get_inventory(7, None)).len(), 3);
}

#[test]
fn queueing_names_the_item() {
    let used = kept(service().use_item(7, None, "torch"));
    assert!(used.success);
    assert_eq!(used.item.as_deref(), Some("Torch"));
    let queued = kept(service().queue_item(7, None, 5));
    assert_eq!((queued.success, queued.queued, queued.item), (true, true, None));
    let missing = kept(service().queue_item(7, None, 0));
    assert_eq!(missing.error.as_deref(), Some("That item is not in your inventory."));
    for (outcome, told) in [
        (QueueItemOutcome::MissingTunnel, "You don't have a tunnel."),
        (QueueItemOutcome::NotOwned, "That item is not in your inventory."),
        (
            QueueItemOutcome::AlreadyQueued { item_type: "torch".to_owned() },
            "Torch is already queued.",
        ),
        (
            QueueItemOutcome::AlreadyQueued { item_type: "spoon".to_owned() },
            "That item is already queued.",
        ),
        (
            QueueItemOutcome::BossPreparationAlreadyQueued,
            "Only one boss preparation item can be queued at a time.",
        ),
    ] {
        let action = queue_outcome_action(&catalogue(), outcome, None);
        assert!(!action.success);
        assert_eq!(action.error.as_deref(), Some(told));
        assert_eq!((action.cost, action.item_id), (0, None));
    }
    let named = queue_outcome_action(&catalogue(), QueueItemOutcome::NotOwned, Some("Torch"));
    assert_eq!(named.error.as_deref(), Some("You don't have a Torch."));
    let charm = DigInventoryService::new(
        Scripted,
        vec![ConsumableDefinition {
            id: "streak_charm".to_owned(),
            name: "Streak Charm".to_owned(),
            cost: 1,
        }],
        12,
    );
    assert_eq!(
        kept(charm.use_item(7, None, "streak_charm")).error.as_deref(),
        Some("Streak Charm is passive and triggers automatically.")
    );
}

#[test]
fn refusals_move_nothing() {
    let refused = [
        buy_outcome_action("Torch", BuyItemOutcome::MissingTunnel),
        buy_outcome_action("Torch", BuyItemOutcome::InventoryFull { limit: 12 }),
        buy_outcome_action("Torch", BuyItemOutcome::InsufficientBalance { balance: 1, cost: 6 }),
        trap_outcome_action(SetTrapOutcome::MissingTunnel),
        trap_outcome_action(SetTrapOutcome::AlreadyActive),
        trap_outcome_action(SetTrapOutcome::InsufficientBalance { balance: 1, cost: 6 }),
        insurance_outcome_action(BuyInsuranceOutcome::MissingTunnel),
        insurance_outcome_action(BuyInsuranceOutcome::InsufficientBalance { balance: 1, cost: 6 }),
    ];
    assert_eq!(refused[0].error.as_deref(), Some("You don't have a tunnel. Dig first!"));
    assert_eq!(refused[1].error.as_deref(), Some("Inventory full (12 items max)."));
    assert_eq!(refused[2].error.as_deref(), Some("Costs 6 JC but you only have 1 JC."));
    for action in &refused {
        assert!(!action.success);
        assert!(action.error.is_some());
        assert_eq!(action.item_id, None);
        assert_eq!(action.expires_at, None);
    }
    let placed = trap_outcome_action(SetTrapOutcome::Placed { cost: 5, balance_after: 3 });
    assert_eq!((placed.success, placed.cost, placed.balance_after), (true, 5, Some(3)));
    let insured = kept(service().buy_insurance_at(7, None, 100));
    assert_eq!((insured.success, insured.expires_at), (true, Some(110)));
    assert!(!kept(service().set_trap(7, None, "2024-01-01")).success);
    let nothing = DigInventoryAction::default();
    assert!(!nothing.success && nothing.error.is_none());
    assert!(find_definition(&catalogue(), "spoon").is_none());
}

#[test]
fn clock_readings_become_timestamps() {
    assert_eq!(clock_timestamp(None), 0);
    assert_eq!(clock_timestamp(Some(0)), 0);
    assert_eq!(clock_timestamp(Some(1_900_000_000)), 1_900_000_000);
    assert_eq!(clock_timestamp(Some(i64::MAX as u64)), i64::MAX);
    assert_eq!(clock_timestamp(Some(u64::MAX)), i64::MAX);
}

fn seconds_now() -> i64 {
    let elapsed = std::time::SystemTime::now().duration_since(std::time::UNIX_EPOCH);
    i64::try_from(elapsed.expect("a clock after the epoch").as_secs()).expect("a near future")
}

#[test]
fn insurance_is_asked_for_at_the_time_of_the_clock() {
    let before = seconds_now();
    let insured = kept(service().buy_insurance(7, None));
    let after = seconds_now();
    let asked_at = insured.expires_at.expect("insurance") - 10;
    assert!(before <= asked_at && asked_at <= after);
}
