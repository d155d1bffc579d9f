//! Inventory and tunnel defence: which request goes to the store, and how its
//! answer is told.

use crate::admission::{selection_views, AutoBuySelection, SelectionView};
use crate::text::{copy_text, int_text, integer_text, join2, join3, join5, same_text, text_view};
use vstd::prelude::*;

verus! {

/// What a shop item is called and costs.
#[derive(Debug, PartialEq, Eq)]
pub struct ConsumableDefinition {
    pub id: String,
    pub name: String,
    pub cost: i64,
}

/// The place of the first definition with an identifier.
pub open spec fn definition_place(catalogue: Seq<ConsumableDefinition>, id: Seq<char>) -> Option<int>
    decreases catalogue.len(),
{
    if catalogue.len() == 0 {
        None
    } else {
        match definition_place(catalogue.drop_last(), id) {
            Some(place) => Some(place),
            None => if catalogue.last().id@ == id {
                Some(catalogue.len() - 1)
            } else {
                None
            },
        }
    }
}

/// The name of a kind: what the catalogue calls it, or its identifier.
pub open spec fn kind_name(catalogue: Seq<ConsumableDefinition>, id: Seq<char>) -> Seq<char> {
    match definition_place(catalogue, id) {
        Some(place) => catalogue[place].name@,
        None => id,
    }
}

/// Whether a kind is queued as soon as it is bought.
pub open spec fn queues_on_buy(id: Seq<char>) -> bool {
    id == "hard_hat"@ || id == "torch"@
}

/// The description of a kind in the shop, empty for an unknown one.
pub open spec fn description_text(item_type: Seq<char>) -> Seq<char> {
    if item_type == "dynamite"@ {
        "+5 bonus blocks on next dig."@
    } else if item_type == "hard_hat"@ {
        "Prevents cave-ins entirely for the next 3 digs. Costs luminosity per dig."@
    } else if item_type == "lantern"@ {
        "-50% cave-in next dig. Reveals what's stirring nearby."@
    } else if item_type == "reinforcement"@ {
        "48h: half damage from sabotage, big cave-ins are capped."@
    } else if item_type == "torch"@ {
        "+50 luminosity. Light the way."@
    } else if item_type == "grappling_hook"@ {
        "Cushions the next 5 cave-ins: no block loss, no stun."@
    } else if item_type == "sonar_pulse"@ {
        "Reveals the next event and lets it pass you by once."@
    } else if item_type == "depth_charge"@ {
        "+10 bonus blocks on next dig. A louder, deeper blast than Dynamite."@
    } else if item_type == "void_bait"@ {
        "3 digs: 2x event chance, with a thumb on the scale for rare finds."@
    } else if item_type == "streak_charm"@ {
        "Passively saves one daily dig streak after exactly one missed day."@
    } else if item_type == "tempered_whetstone"@ {
        "One boss attempt: +1 damage on every player hit."@
    } else if item_type == "warding_salts"@ {
        "One boss attempt: blocks the first mechanic or status effect."@
    } else if item_type == "rescue_line"@ {
        "One boss attempt: halves defeat knockback and extra gear wear."@
    } else {
        ""@
    }
}

/// Describes a kind in the shop.
pub fn consumable_description(item_type: &str) -> (text: &'static str)
    ensures
        text@ == description_text(item_type@),
{
    if same_text(item_type, "dynamite") {
        "+5 bonus blocks on next dig."
    } else if same_text(item_type, "hard_hat") {
        "Prevents cave-ins entirely for the next 3 digs. Costs luminosity per dig."
    } else if same_text(item_type, "lantern") {
        "-50% cave-in next dig. Reveals what's stirring nearby."
    } else if same_text(item_type, "reinforcement") {
        "48h: half damage from sabotage, big cave-ins are capped."
    } else if same_text(item_type, "torch") {
        "+50 luminosity. Light the way."
    } else if same_text(item_type, "grappling_hook") {
        "Cushions the next 5 cave-ins: no block loss, no stun."
    } else if same_text(item_type, "sonar_pulse") {
        "Reveals the next event and lets it pass you by once."
    } else if same_text(item_type, "depth_charge") {
        "+10 bonus blocks on next dig. A louder, deeper blast than Dynamite."
    } else if same_text(item_type, "void_bait") {
        "3 digs: 2x event chance, with a thumb on the scale for rare finds."
    } else if same_text(item_type, "streak_charm") {
        "Passively saves one daily dig streak after exactly one missed day."
    } else if same_text(item_type, "tempered_whetstone") {
        "One boss attempt: +1 damage on every player hit."
    } else if same_text(item_type, "warding_salts") {
        "One boss attempt: blocks the first mechanic or status effect."
    } else if same_text(item_type, "rescue_line") {
        "One boss attempt: halves defeat knockback and extra gear wear."
    } else {
        ""
    }
}

/// A purchase for the store to make in one step.
#[derive(Debug, PartialEq, Eq)]
pub struct BuyItemRequest {
    pub discord_id: i64,
    pub guild_id: Option<i64>,
    pub item_type: String,
    pub price: i64,
    pub inventory_limit: usize,
    pub auto_queue_if_available: bool,
    pub created_at: i64,
}

/// What a [`BuyItemRequest`] holds.
#[verifier::ext_equal]
pub struct BuyRequestView {
    pub discord_id: i64,
    pub guild_id: Option<i64>,
    pub item_type: Seq<char>,
    pub price: i64,
    pub inventory_limit: usize,
    pub auto_queue_if_available: bool,
    pub created_at: i64,
}

impl View for BuyItemRequest {
    type V = BuyRequestView;

    open spec fn view(&self) -> BuyRequestView {
        BuyRequestView {
            discord_id: self.discord_id,
            guild_id: self.guild_id,
            item_type: self.item_type@,
            price: self.price,
            inventory_limit: self.inventory_limit,
            auto_queue_if_available: self.auto_queue_if_available,
            created_at: self.created_at,
        }
    }
}

/// Automatic purchases for the store to make in one step.
#[derive(Debug)]
pub struct AutoBuyRequest {
    pub discord_id: i64,
    pub guild_id: Option<i64>,
    pub selections: Vec<AutoBuySelection>,
    pub reserved_balance: i64,
    pub inventory_limit: usize,
    pub created_at: i64,
    pub observed_balance: Option<i64>,
}

/// What became of a purchase.
#[derive(Clone, Copy, Debug, PartialEq, Eq, Structural)]
pub enum BuyItemOutcome {
    Purchased { item_id: i64, queued: bool, cost: i64, balance_after: i64 },
    MissingTunnel,
    InventoryFull { limit: i64 },
    InsufficientBalance { balance: i64, cost: i64 },
}

/// How an automatic purchase went.
#[derive(Debug, PartialEq, Eq)]
pub enum AutoBuyStatus {
    /// There is no tunnel to buy for.
    SkippedMissingTunnel,
    /// Anything else, in the words of the store.
    Reported(String),
}

/// What an [`AutoBuyStatus`] means.
pub enum AutoBuyStatusView {
    SkippedMissingTunnel,
    Reported(Seq<char>),
}

impl View for AutoBuyStatus {
    type V = AutoBuyStatusView;

    open spec fn view(&self) -> AutoBuyStatusView {
        match *self {
            AutoBuyStatus::SkippedMissingTunnel => AutoBuyStatusView::SkippedMissingTunnel,
            AutoBuyStatus::Reported(word) => AutoBuyStatusView::Reported(word@),
        }
    }
}

/// What the store reports of one automatic purchase.
#[derive(Debug, PartialEq, Eq)]
pub struct AutoBuyItemOutcome {
    pub item_type: String,
    pub status: AutoBuyStatus,
    pub cost: i64,
    pub item_id: Option<i64>,
}

/// What a [`AutoBuyItemOutcome`] holds.
#[verifier::ext_equal]
pub struct AutoBuyOutcomeView {
    pub item_type: Seq<char>,
    pub status: AutoBuyStatusView,
    pub cost: i64,
    pub item_id: Option<i64>,
}

impl View for AutoBuyItemOutcome {
    type V = AutoBuyOutcomeView;

    open spec fn view(&self) -> AutoBuyOutcomeView {
        AutoBuyOutcomeView {
            item_type: self.item_type@,
            status: self.status@,
            cost: self.cost,
            item_id: self.item_id,
        }
    }
}

/// What became of queueing an item.
#[derive(Debug, PartialEq, Eq)]
pub enum QueueItemOutcome {
    Queued { item_id: i64, item_type: String },
    MissingTunnel,
    NotOwned,
    AlreadyQueued { item_type: String },
    BossPreparationAlreadyQueued,
}

/// What became of setting a trap.
#[derive(Clone, Copy, Debug, PartialEq, Eq, Structural)]
pub enum SetTrapOutcome {
    Placed { cost: i64, balance_after: i64 },
    MissingTunnel,
    AlreadyActive,
    InsufficientBalance { balance: i64, cost: i64 },
}

/// What became of buying insurance.
#[derive(Clone, Copy, Debug, PartialEq, Eq, Structural)]
pub enum BuyInsuranceOutcome {
    Purchased { cost: i64, expires_at: i64, balance_after: i64 },
    MissingTunnel,
    InsufficientBalance { balance: i64, cost: i64 },
}

/// One inventory row as the store reads it.
#[derive(Debug, PartialEq, Eq)]
pub struct InventoryItemRecord {
    pub id: i64,
    pub item_type: String,
    pub queued: bool,
}

/// What a [`InventoryItemRecord`] holds.
#[verifier::ext_equal]
pub struct RecordView {
    pub id: i64,
    pub item_type: Seq<char>,
    pub queued: bool,
}

impl View for InventoryItemRecord {
    type V = RecordView;

    open spec fn view(&self) -> RecordView {
        RecordView {
            id: self.id,
            item_type: self.item_type@,
            queued: self.queued,
        }
    }
}

/// Typed result of an inventory or defence action.
#[derive(Debug, PartialEq, Eq)]
pub struct DigInventoryAction {
    pub success: bool,
    pub error: Option<String>,
    pub item: Option<String>,
    pub item_id: Option<i64>,
    pub queued: bool,
    pub cost: i64,
    pub balance_after: Option<i64>,
    pub expires_at: Option<i64>,
    pub message: Option<String>,
}

/// What a [`DigInventoryAction`] holds.
#[verifier::ext_equal]
pub struct InventoryActionView {
    pub success: bool,
    pub error: Option<Seq<char>>,
    pub item: Option<Seq<char>>,
    pub item_id: Option<i64>,
    pub queued: bool,
    pub cost: i64,
    pub balance_after: Option<i64>,
    pub expires_at: Option<i64>,
    pub message: Option<Seq<char>>,
}

impl View for DigInventoryAction {
    type V = InventoryActionView;

    open spec fn view(&self) -> InventoryActionView {
        InventoryActionView {
            success: self.success,
            error: text_view(self.error),
            item: text_view(self.item),
            item_id: self.item_id,
            queued: self.queued,
            cost: self.cost,
            balance_after: self.balance_after,
            expires_at: self.expires_at,
            message: text_view(self.message),
        }
    }
}

impl Clone for DigInventoryAction {
    fn clone(&self) -> (copy: DigInventoryAction)
        ensures
            copy == *self,
    {
        DigInventoryAction {
            success: self.success,
            error: copy_text(&self.error),
            item: copy_text(&self.item),
            item_id: self.item_id,
            queued: self.queued,
            cost: self.cost,
            balance_after: self.balance_after,
            expires_at: self.expires_at,
            message: copy_text(&self.message),
        }
    }
}

/// How an automatic purchase is told.
#[derive(Debug, PartialEq, Eq)]
pub struct AutoBuyAction {
    pub item_type: String,
    pub item: String,
    pub status: AutoBuyStatus,
    pub cost: i64,
    pub item_id: Option<i64>,
    pub error: Option<String>,
}

/// What a [`AutoBuyAction`] holds.
#[verifier::ext_equal]
pub struct AutoBuyActionView {
    pub item_type: Seq<char>,
    pub item: Seq<char>,
    pub status: AutoBuyStatusView,
    pub cost: i64,
    pub item_id: Option<i64>,
    pub error: Option<Seq<char>>,
}

impl View for AutoBuyAction {
    type V = AutoBuyActionView;

    open spec fn view(&self) -> AutoBuyActionView {
        AutoBuyActionView {
            item_type: self.item_type@,
            item: self.item@,
            status: self.status@,
            cost: self.cost,
            item_id: self.item_id,
            error: text_view(self.error),
        }
    }
}

/// One line of a shown inventory.
#[derive(Debug, PartialEq, Eq)]
pub struct InventoryViewItem {
    pub item_type: String,
    pub name: String,
    pub description: String,
    pub queued: bool,
}

/// What a [`InventoryViewItem`] holds.
#[verifier::ext_equal]
pub struct InventoryLineView {
    pub item_type: Seq<char>,
    pub name: Seq<char>,
    pub description: Seq<char>,
    pub queued: bool,
}

impl View for InventoryViewItem {
    type V = InventoryLineView;

    open spec fn view(&self) -> InventoryLineView {
        InventoryLineView {
            item_type: self.item_type@,
            name: self.name@,
            description: self.description@,
            queued: self.queued,
        }
    }
}

impl Clone for InventoryViewItem {
    fn clone(&self) -> (copy: InventoryViewItem)
        ensures
            copy == *self,
    {
        InventoryViewItem {
            item_type: self.item_type.clone(),
            name: self.name.clone(),
            description: self.description.clone(),
            queued: self.queued,
        }
    }
}

/// The action that has happened in no way yet.
pub open spec fn blank_action() -> InventoryActionView {
    InventoryActionView {
        success: false,
        error: None,
        item: None,
        item_id: None,
        queued: false,
        cost: 0,
        balance_after: None,
        expires_at: None,
        message: None,
    }
}

/// An action that was turned away with a message.
pub open spec fn failed_action(message: Seq<char>) -> InventoryActionView {
    InventoryActionView { error: Some(message), ..blank_action() }
}

impl Default for DigInventoryAction {
    /// An action that has happened in no way yet.
    fn default() -> (action: DigInventoryAction)
        ensures
            action@ == blank_action(),
    {
        DigInventoryAction {
            success: false,
            error: None,
            item: None,
            item_id: None,
            queued: false,
            cost: 0,
            balance_after: None,
            expires_at: None,
            message: None,
        }
    }
}

impl DigInventoryAction {
    fn error(message: String) -> (action: DigInventoryAction)
        ensures
            action@ == failed_action(message@),
    {
        let mut action = DigInventoryAction::default();
        action.error = Some(message);
        action
    }
}

/// How a message about a price that the wallet does not cover reads.
pub open spec fn price_text(start: Seq<char>, cost: i64, balance: i64) -> Seq<char> {
    start + int_text(cost as int) + " JC but you only have "@ + int_text(balance as int) + " JC."@
}

fn price_message(start: &str, cost: i64, balance: i64) -> (message: String)
    ensures
        message@ == price_text(start@, cost, balance),
{
    join5(
        start,
        integer_text(cost).as_str(),
        " JC but you only have ",
        integer_text(balance).as_str(),
        " JC.",
    )
}

/// How a purchase is told.
pub open spec fn bought(name: Seq<char>, outcome: BuyItemOutcome) -> InventoryActionView {
    match outcome {
        BuyItemOutcome::Purchased { item_id, queued, cost, balance_after } => InventoryActionView {
            success: true,
            item: Some(name),
            item_id: Some(item_id),
            queued,
            cost,
            balance_after: Some(balance_after),
            ..blank_action()
        },
        BuyItemOutcome::MissingTunnel => failed_action("You don't have a tunnel. Dig first!"@),
        BuyItemOutcome::InventoryFull { limit } => failed_action(
            "Inventory full ("@ + int_text(limit as int) + " items max)."@,
        ),
        BuyItemOutcome::InsufficientBalance { balance, cost } => failed_action(
            price_text("Costs "@, cost, balance),
        ),
    }
}

/// Tells a purchase.
pub fn buy_outcome_action(name: &str, outcome: BuyItemOutcome) -> (action: DigInventoryAction)
    ensures
        action@ == bought(name@, outcome),
{
    match outcome {
        BuyItemOutcome::Purchased { item_id, queued, cost, balance_after } => {
            let mut action = DigInventoryAction::default();
            action.success = true;
            action.item = Some(name.to_owned());
            action.item_id = Some(item_id);
            action.queued = queued;
            action.cost = cost;
            action.balance_after = Some(balance_after);
            action
        },
        BuyItemOutcome::MissingTunnel => {
            DigInventoryAction::error("You don't have a tunnel. Dig first!".to_owned())
        },
        BuyItemOutcome::InventoryFull { limit } => DigInventoryAction::error(
            join3("Inventory full (", integer_text(limit).as_str(), " items max)."),
        ),
        BuyItemOutcome::InsufficientBalance { balance, cost } => DigInventoryAction::error(
            price_message("Costs ", cost, balance),
        ),
    }
}

/// How queueing an item is told. `known` is the name that the caller asked by.
pub open spec fn queued_told(
    catalogue: Seq<ConsumableDefinition>,
    outcome: QueueItemOutcome,
    known: Option<Seq<char>>,
) -> InventoryActionView {
    match outcome {
        QueueItemOutcome::Queued { .. } => InventoryActionView {
            success: true,
            item: known,
            queued: true,
            ..blank_action()
        },
        QueueItemOutcome::MissingTunnel => failed_action("You don't have a tunnel."@),
        QueueItemOutcome::NotOwned => match known {
            Some(name) => failed_action("You don't have a "@ + name + "."@),
            None => failed_action("That item is not in your inventory."@),
        },
        QueueItemOutcome::AlreadyQueued { item_type } => {
            let name = match known {
                Some(name) => name,
                None => match definition_place(catalogue, item_type@) {
                    Some(place) => catalogue[place].name@,
                    None => "That item"@,
                },
            };
            failed_action(name + " is already queued."@)
        },
        QueueItemOutcome::BossPreparationAlreadyQueued => failed_action(
            "Only one boss preparation item can be queued at a time."@,
        ),
    }
}

/// Finds the first definition with an identifier.
pub fn find_definition<'a>(catalogue: &'a Vec<ConsumableDefinition>, id: &str) -> (found: Option<
    &'a ConsumableDefinition,
>)
    ensures
        match definition_place(catalogue@, id@) {
            Some(place) => 0 <= place < catalogue.len() && found == Some(&catalogue@[place])
                && catalogue@[place].id@ == id@,
            None => found is None,
        },
{
    let mut i: usize = 0;
    while i < catalogue.len()
        invariant
            i <= catalogue.len(),
            definition_place(catalogue@.subrange(0, i as int), id@) is None,
        decreases catalogue.len() - i,
    {
        proof {
            let next = catalogue@.subrange(0, i + 1);
            assert(next.drop_last() =~= catalogue@.subrange(0, i as int));
            assert(next.last() == catalogue@[i as int]);
        }
        if same_text(catalogue[i].id.as_str(), id) {
            proof {
                lemma_definition_prefix(catalogue@, id@, i + 1);
            }
            return Some(&catalogue[i]);
        }
        i = i + 1;
    }
    assert(catalogue@.subrange(0, i as int) =~= catalogue@);
    None
}

proof fn lemma_definition_prefix(catalogue: Seq<ConsumableDefinition>, id: Seq<char>, n: int)
    requires
        0 <= n <= catalogue.len(),
        definition_place(catalogue.subrange(0, n), id) is Some,
    ensures
        definition_place(catalogue, id) == definition_place(catalogue.subrange(0, n), id),
    decreases catalogue.len(),
{
    if n == catalogue.len() {
        assert(catalogue.subrange(0, n) =~= catalogue);
    } else {
        assert(catalogue.drop_last().subrange(0, n) =~= catalogue.subrange(0, n));
        lemma_definition_prefix(catalogue.drop_last(), id, n);
    }
}

/// Tells queueing an item.
pub fn queue_outcome_action(
    catalogue: &Vec<ConsumableDefinition>,
    outcome: QueueItemOutcome,
    known_name: Option<&str>,
) -> (action: DigInventoryAction)
    ensures
        action@ == queued_told(catalogue@, outcome, crate::text::str_view(known_name)),
{
    match outcome {
        QueueItemOutcome::Queued { .. } => {
            let mut action = DigInventoryAction::default();
            action.success = true;
            action.item = crate::text::own_text(known_name);
            action.queued = true;
            action
        },
        QueueItemOutcome::MissingTunnel => {
            DigInventoryAction::error("You don't have a tunnel.".to_owned())
        },
        QueueItemOutcome::NotOwned => match known_name {
            Some(name) => DigInventoryAction::error(join3("You don't have a ", name, ".")),
            None => DigInventoryAction::error("That item is not in your inventory.".to_owned()),
        },
        QueueItemOutcome::AlreadyQueued { item_type } => {
            let name = match known_name {
                Some(name) => name.to_owned(),
                None => match find_definition(catalogue, item_type.as_str()) {
                    Some(definition) => definition.name.clone(),
                    None => "That item".to_owned(),
                },
            };
            DigInventoryAction::error(join2(name.as_str(), " is already queued."))
        },
        QueueItemOutcome::BossPreparationAlreadyQueued => DigInventoryAction::error(
            "Only one boss preparation item can be queued at a time.".to_owned(),
        ),
    }
}

/// How setting a trap is told.
pub open spec fn trap_told(outcome: SetTrapOutcome) -> InventoryActionView {
    match outcome {
        SetTrapOutcome::Placed { cost, balance_after } => InventoryActionView {
            success: true,
            cost,
            balance_after: Some(balance_after),
            message: Some("Trap set!"@),
            ..blank_action()
        },
        SetTrapOutcome::MissingTunnel => failed_action("You don't have a tunnel."@),
        SetTrapOutcome::AlreadyActive => failed_action("You already have an active trap."@),
        SetTrapOutcome::InsufficientBalance { balance, cost } => failed_action(
            price_text("Trap costs "@, cost, balance),
        ),
    }
}

/// Tells setting a trap.
pub fn trap_outcome_action(outcome: SetTrapOutcome) -> (action: DigInventoryAction)
    ensures
        action@ == trap_told(outcome),
{
    match outcome {
        SetTrapOutcome::Placed { cost, balance_after } => {
            let mut action = DigInventoryAction::default();
            action.success = true;
            action.cost = cost;
            action.balance_after = Some(balance_after);
            action.message = Some("Trap set!".to_owned());
            action
        },
        SetTrapOutcome::MissingTunnel => {
            DigInventoryAction::error("You don't have a tunnel.".to_owned())
        },
        SetTrapOutcome::AlreadyActive => {
            DigInventoryAction::error("You already have an active trap.".to_owned())
        },
        SetTrapOutcome::InsufficientBalance { balance, cost } => DigInventoryAction::error(
            price_message("Trap costs ", cost, balance),
        ),
    }
}

/// How buying insurance is told.
pub open spec fn insurance_told(outcome: BuyInsuranceOutcome) -> InventoryActionView {
    match outcome {
        BuyInsuranceOutcome::Purchased { cost, expires_at, balance_after } => InventoryActionView {
            success: true,
            cost,
            expires_at: Some(expires_at),
            balance_after: Some(balance_after),
            ..blank_action()
        },
        BuyInsuranceOutcome::MissingTunnel => failed_action("You don't have a tunnel."@),
        BuyInsuranceOutcome::InsufficientBalance { balance, cost } => failed_action(
            price_text("Insurance costs "@, cost, balance),
        ),
    }
}

/// Tells buying insurance.
pub fn insurance_outcome_action(outcome: BuyInsuranceOutcome) -> (action: DigInventoryAction)
    ensures
        action@ == insurance_told(outcome),
{
    match outcome {
        BuyInsuranceOutcome::Purchased { cost, expires_at, balance_after } => {
            let mut action = DigInventoryAction::default();
            action.success = true;
            action.cost = cost;
            action.expires_at = Some(expires_at);
            action.balance_after = Some(balance_after);
            action
        },
        BuyInsuranceOutcome::MissingTunnel => {
            DigInventoryAction::error("You don't have a tunnel.".to_owned())
        },
        BuyInsuranceOutcome::InsufficientBalance { balance, cost } => DigInventoryAction::error(
            price_message("Insurance costs ", cost, balance),
        ),
    }
}

/// How an automatic purchase is told.
pub open spec fn auto_buy_told(
    catalogue: Seq<ConsumableDefinition>,
    outcome: AutoBuyOutcomeView,
) -> AutoBuyActionView {
    AutoBuyActionView {
        item_type: outcome.item_type,
        item: kind_name(catalogue, outcome.item_type),
        status: outcome.status,
        cost: outcome.cost,
        item_id: outcome.item_id,
        error: if outcome.status is SkippedMissingTunnel {
            Some("You don't have a tunnel. Dig first!"@)
        } else {
            None
        },
    }
}

fn name_of_kind(catalogue: &Vec<ConsumableDefinition>, id: &str) -> (name: String)
    ensures
        name@ == kind_name(catalogue@, id@),
{
    match find_definition(catalogue, id) {
        Some(definition) => definition.name.clone(),
        None => id.to_owned(),
    }
}

/// Tells an automatic purchase.
pub fn auto_buy_action(catalogue: &Vec<ConsumableDefinition>, outcome: AutoBuyItemOutcome)
    -> (action: AutoBuyAction)
    ensures
        action@ == auto_buy_told(catalogue@, outcome@),
{
    let item = name_of_kind(catalogue, outcome.item_type.as_str());
    let error = match &outcome.status {
        AutoBuyStatus::SkippedMissingTunnel => Some(
            "You don't have a tunnel. Dig first!".to_owned(),
        ),
        AutoBuyStatus::Reported(_) => None,
    };
    AutoBuyAction {
        item_type: outcome.item_type,
        item,
        status: outcome.status,
        cost: outcome.cost,
        item_id: outcome.item_id,
        error,
    }
}

/// The purchases that automatic buying asks for: the kinds that queue on buy
/// and are in the catalogue, in their order.
pub open spec fn selected_kinds(catalogue: Seq<ConsumableDefinition>, item_types: Seq<Seq<char>>)
    -> Seq<SelectionView>
    decreases item_types.len(),
{
    if item_types.len() == 0 {
        Seq::empty()
    } else {
        let rest = selected_kinds(catalogue, item_types.drop_last());
        let kind = item_types.last();
        match definition_place(catalogue, kind) {
            Some(place) => if queues_on_buy(kind) {
                rest.push(SelectionView { item_type: kind, price: catalogue[place].cost })
            } else {
                rest
            },
            None => rest,
        }
    }
}

fn queues_at_purchase(id: &str) -> (answer: bool)
    ensures
        answer == queues_on_buy(id@),
{
    same_text(id, "hard_hat") || same_text(id, "torch")
}

/// Selects what automatic buying asks for.
pub fn select_auto_buy(catalogue: &Vec<ConsumableDefinition>, item_types: &Vec<String>) -> (selected:
    Vec<AutoBuySelection>)
    ensures
        selection_views(selected@) == selected_kinds(
            catalogue@,
            crate::text::texts(item_types@),
        ),
{
    let ghost kinds = crate::text::texts(item_types@);
    let mut selected: Vec<AutoBuySelection> = Vec::new();
    assert(selection_views(selected@) =~= Seq::empty());
    let mut i: usize = 0;
    while i < item_types.len()
        invariant
            i <= item_types.len(),
            kinds == crate::text::texts(item_types@),
            selection_views(selected@) == selected_kinds(catalogue@, kinds.subrange(0, i as int)),
        decreases item_types.len() - i,
    {
        proof {
            let next = kinds.subrange(0, i + 1);
            assert(next.drop_last() =~= kinds.subrange(0, i as int));
            assert(next.last() == item_types@[i as int]@);
        }
        let kind = item_types[i].as_str();
        if queues_at_purchase(kind) {
            match find_definition(catalogue, kind) {
                Some(definition) => {
                    let ghost before = selection_views(selected@);
                    let selection = AutoBuySelection {
                        item_type: definition.id.clone(),
                        price: definition.cost,
                    };
                    selected.push(selection);
                    assert(selection_views(selected@) =~= before.push(selection@));
                },
                None => {},
            }
        }
        i = i + 1;
    }
    assert(kinds.subrange(0, i as int) =~= kinds);
    selected
}

/// Whether any row of a kind is queued.
pub open spec fn kind_queued(records: Seq<RecordView>, item_type: Seq<char>) -> bool {
    exists|i: int|
        0 <= i < records.len() && (#[trigger] records[i]).queued && records[i].item_type
            == item_type
}

/// How a row is shown. Every row of a kind shows as queued once one of them is.
pub open spec fn inventory_line(
    catalogue: Seq<ConsumableDefinition>,
    records: Seq<RecordView>,
    record: RecordView,
) -> InventoryLineView {
    InventoryLineView {
        item_type: record.item_type,
        name: kind_name(catalogue, record.item_type),
        description: description_text(record.item_type),
        queued: kind_queued(records, record.item_type),
    }
}

/// What a list of rows holds.
pub open spec fn record_views(records: Seq<InventoryItemRecord>) -> Seq<RecordView> {
    records.map_values(|x: InventoryItemRecord| x@)
}

/// What a shown inventory holds.
pub open spec fn line_views(lines: Seq<InventoryViewItem>) -> Seq<InventoryLineView> {
    lines.map_values(|x: InventoryViewItem| x@)
}

/// How an inventory is shown, row by row.
pub open spec fn shown_inventory(catalogue: Seq<ConsumableDefinition>, records: Seq<RecordView>)
    -> Seq<InventoryLineView> {
    records.map_values(|record: RecordView| inventory_line(catalogue, records, record))
}

fn any_record_queued(records: &Vec<InventoryItemRecord>, item_type: &str) -> (answer: bool)
    ensures
        answer == kind_queued(record_views(records@), item_type@),
{
    let ghost views = record_views(records@);
    let mut i: usize = 0;
    while i < records.len()
        invariant
            i <= records.len(),
            views == record_views(records@),
            forall|j: int|
                0 <= j < i ==> !((#[trigger] views[j]).queued && views[j].item_type == item_type@),
        decreases records.len() - i,
    {
        assert(views[i as int] == records@[i as int]@);
        if records[i].queued && same_text(records[i].item_type.as_str(), item_type) {
            return true;
        }
        i = i + 1;
    }
    false
}

/// Shows an inventory.
pub fn show_inventory(catalogue: &Vec<ConsumableDefinition>, records: &Vec<InventoryItemRecord>)
    -> (lines: Vec<InventoryViewItem>)
    ensures
        line_views(lines@) == shown_inventory(catalogue@, record_views(records@)),
{
    let ghost views = record_views(records@);
    let mut lines: Vec<InventoryViewItem> = Vec::new();
    let mut i: usize = 0;
    while i < records.len()
        invariant
            i <= records.len(),
            lines.len() == i,
            views == record_views(records@),
            forall|j: int|
                0 <= j < i ==> (#[trigger] lines@[j])@ == inventory_line(
                    catalogue@,
                    views,
                    views[j],
                ),
        decreases records.len() - i,
    {
        let kind = records[i].item_type.as_str();
        let line = InventoryViewItem {
            item_type: records[i].item_type.clone(),
            name: name_of_kind(catalogue, kind),
            description: consumable_description(kind).to_owned(),
            queued: any_record_queued(records, kind),
        };
        assert(views[i as int] == records@[i as int]@);
        lines.push(line);
        i = i + 1;
    }
    assert(line_views(lines@) =~= shown_inventory(catalogue@, views));
    lines
}

/// Persistence of inventory and defence. Every method is one atomic step of the
/// store.
pub trait DigInventoryPort {
    type Error;

    fn buy_item_atomic(&self, request: BuyItemRequest) -> Result<BuyItemOutcome, Self::Error>;

    fn ensure_auto_buy_items_atomic(&self, request: AutoBuyRequest) -> Result<
        Vec<AutoBuyItemOutcome>,
        Self::Error,
    >;

    fn queue_item_type_atomic(&self, discord_id: i64, guild_id: Option<i64>, item_type: &str)
        -> Result<QueueItemOutcome, Self::Error>;

    fn queue_item_id_atomic(&self, discord_id: i64, guild_id: Option<i64>, item_id: i64) -> Result<
        QueueItemOutcome,
        Self::Error,
    >;

    fn inventory_for_tunnel(&self, discord_id: i64, guild_id: Option<i64>) -> Result<
        Option<Vec<InventoryItemRecord>>,
        Self::Error,
    >;

    fn set_trap_atomic(&self, discord_id: i64, guild_id: Option<i64>, game_date: &str) -> Result<
        SetTrapOutcome,
        Self::Error,
    >;

    fn buy_insurance_atomic(&self, discord_id: i64, guild_id: Option<i64>, now: i64) -> Result<
        BuyInsuranceOutcome,
        Self::Error,
    >;
}

/// The request that buys one item of a kind.
pub open spec fn purchase_request(
    catalogue: Seq<ConsumableDefinition>,
    inventory_limit: usize,
    discord_id: i64,
    guild_id: Option<i64>,
    item_type: Seq<char>,
    created_at: i64,
) -> Option<BuyRequestView> {
    match definition_place(catalogue, item_type) {
        Some(place) => Some(
            BuyRequestView {
                discord_id,
                guild_id,
                item_type,
                price: catalogue[place].cost,
                inventory_limit,
                auto_queue_if_available: queues_on_buy(item_type),
                created_at,
            },
        ),
        None => None,
    }
}

/// Plans the request that buys one item of a kind, when the catalogue has it.
pub fn plan_purchase(
    catalogue: &Vec<ConsumableDefinition>,
    inventory_limit: usize,
    discord_id: i64,
    guild_id: Option<i64>,
    item_type: &str,
    created_at: i64,
) -> (request: Option<BuyItemRequest>)
    ensures
        match request {
            Some(request) => purchase_request(
                catalogue@,
                inventory_limit,
                discord_id,
                guild_id,
                item_type@,
                created_at,
            ) == Some(request@),
            None => definition_place(catalogue@, item_type@) is None,
        },
{
    match find_definition(catalogue, item_type) {
        Some(definition) => Some(
            BuyItemRequest {
                discord_id,
                guild_id,
                item_type: definition.id.clone(),
                price: definition.cost,
                inventory_limit,
                auto_queue_if_available: queues_at_purchase(definition.id.as_str()),
                created_at,
            },
        ),
        None => None,
    }
}

/// The message about a kind that the catalogue does not have.
pub open spec fn unknown_kind(item_type: Seq<char>) -> InventoryActionView {
    failed_action("Unknown item type: "@ + item_type)
}

fn unknown_action(item_type: &str) -> (action: DigInventoryAction)
    ensures
        action@ == unknown_kind(item_type@),
{
    DigInventoryAction::error(join2("Unknown item type: ", item_type))
}

/// A reading of the system clock.
#[verifier::external_type_specification]
#[verifier::external_body]
pub struct ExSystemTime(std::time::SystemTime);

/// How long after the Unix epoch a reading of the clock is, if it is.
pub uninterp spec fn since_epoch(time: std::time::SystemTime) -> Option<std::time::Duration>;

/// The whole seconds of a duration.
pub uninterp spec fn whole_seconds(duration: std::time::Duration) -> u64;

/// Calls `std::time::SystemTime::now`. Nothing is claimed of the reading.
#[verifier::external_body]
fn read_clock() -> (time: std::time::SystemTime) {
    std::time::SystemTime::now()
}

/// Calls `std::time::SystemTime::duration_since` with the Unix epoch. The result
/// is named [`since_epoch`]; the error, of a reading before the epoch, is none.
#[verifier::external_body]
fn elapsed_since_epoch(time: std::time::SystemTime) -> (elapsed: Option<std::time::Duration>)
    ensures
        elapsed == since_epoch(time),
{
    match time.duration_since(std::time::UNIX_EPOCH) {
        Ok(elapsed) => Some(elapsed),
        Err(_) => None,
    }
}

/// Calls `std::time::Duration::as_secs`. The result is named [`whole_seconds`].
#[verifier::external_body]
fn duration_seconds(duration: std::time::Duration) -> (seconds: u64)
    ensures
        seconds == whole_seconds(duration),
{
    duration.as_secs()
}

/// The timestamp of the seconds since the Unix epoch, as far as a timestamp
/// goes; before the epoch it is zero.
pub open spec fn timestamp_of(seconds: Option<u64>) -> i64 {
    match seconds {
        Some(seconds) => if seconds <= i64::MAX {
            seconds as i64
        } else {
            i64::MAX
        },
        None => 0,
    }
}

/// Works out the timestamp of the seconds since the Unix epoch.
pub fn clock_timestamp(seconds: Option<u64>) -> (now: i64)
    ensures
        now == timestamp_of(seconds),
{
    match seconds {
        Some(seconds) => {
            if seconds <= 9_223_372_036_854_775_807 {
                seconds as i64
            } else {
                i64::MAX
            }
        },
        None => 0,
    }
}

/// The seconds since the Unix epoch that a reading of the clock shows.
pub open spec fn seconds_of(time: std::time::SystemTime) -> Option<u64> {
    match since_epoch(time) {
        Some(elapsed) => Some(whole_seconds(elapsed)),
        None => None,
    }
}

/// Whether a timestamp is one that the clock showed: the timestamp of a reading
/// that the clock gave.
pub closed spec fn clock_shows(now: i64) -> bool {
    exists|time: std::time::SystemTime| #[trigger]
        call_ensures(read_clock, (), time) && now == timestamp_of(seconds_of(time))
}

/// Reads the clock once and returns the timestamp of that reading.
fn unix_timestamp() -> (now: i64)
    ensures
        clock_shows(now),
        now >= 0,
{
    let time = read_clock();
    let seconds = match elapsed_since_epoch(time) {
        Some(elapsed) => Some(duration_seconds(elapsed)),
        None => None,
    };
    clock_timestamp(seconds)
}

/// Inventory and defence actions over a store.
pub struct DigInventoryService<P> {
    port: P,
    catalogue: Vec<ConsumableDefinition>,
    inventory_limit: usize,
}

impl<P> DigInventoryService<P> {
    /// The shop catalogue.
    pub closed spec fn shop(self) -> Seq<ConsumableDefinition> {
        self.catalogue@
    }

    /// Rows that an inventory can hold.
    pub closed spec fn slots(self) -> usize {
        self.inventory_limit
    }

    /// The store.
    pub closed spec fn store(self) -> P {
        self.port
    }
}

/// Whether an answer to a purchase tells what the store replied.
pub open spec fn told_purchase<E>(
    answer: Result<DigInventoryAction, E>,
    reply: Result<BuyItemOutcome, E>,
    name: Seq<char>,
) -> bool {
    match reply {
        Ok(outcome) => answer matches Ok(action) && action@ == bought(name, outcome),
        Err(error) => answer == Err::<DigInventoryAction, E>(error),
    }
}

/// Whether an answer to automatic purchases tells what the store replied.
pub open spec fn told_auto_buy<E>(
    catalogue: Seq<ConsumableDefinition>,
    answer: Result<Vec<AutoBuyAction>, E>,
    reply: Result<Vec<AutoBuyItemOutcome>, E>,
) -> bool {
    match reply {
        Ok(outcomes) => answer matches Ok(actions) && actions.len() == outcomes.len() && forall|
            i: int,
        |
            0 <= i < actions.len() ==> (#[trigger] actions@[i])@ == auto_buy_told(
                catalogue,
                outcomes@[i]@,
            ),
        Err(error) => answer == Err::<Vec<AutoBuyAction>, E>(error),
    }
}

/// Whether an answer to queueing tells what the store replied.
pub open spec fn told_queueing<E>(
    catalogue: Seq<ConsumableDefinition>,
    answer: Result<DigInventoryAction, E>,
    reply: Result<QueueItemOutcome, E>,
    name: Option<Seq<char>>,
) -> bool {
    match reply {
        Ok(outcome) => answer matches Ok(action) && action@ == queued_told(
            catalogue,
            outcome,
            name,
        ),
        Err(error) => answer == Err::<DigInventoryAction, E>(error),
    }
}

/// Whether an answer shows the inventory that the store replied, empty without
/// a tunnel.
pub open spec fn told_inventory<E>(
    catalogue: Seq<ConsumableDefinition>,
    answer: Result<Vec<InventoryViewItem>, E>,
    reply: Result<Option<Vec<InventoryItemRecord>>, E>,
) -> bool {
    match reply {
        Ok(Some(records)) => answer matches Ok(lines) && line_views(lines@) == shown_inventory(
            catalogue,
            record_views(records@),
        ),
        Ok(None) => answer matches Ok(lines) && lines.len() == 0,
        Err(error) => answer == Err::<Vec<InventoryViewItem>, E>(error),
    }
}

/// Whether an answer to setting a trap tells what the store replied.
pub open spec fn told_trap<E>(
    answer: Result<DigInventoryAction, E>,
    reply: Result<SetTrapOutcome, E>,
) -> bool {
    match reply {
        Ok(outcome) => answer matches Ok(action) && action@ == trap_told(outcome),
        Err(error) => answer == Err::<DigInventoryAction, E>(error),
    }
}

/// Whether an answer to buying insurance tells what the store replied.
pub open spec fn told_insurance<E>(
    answer: Result<DigInventoryAction, E>,
    reply: Result<BuyInsuranceOutcome, E>,
) -> bool {
    match reply {
        Ok(outcome) => answer matches Ok(action) && action@ == insurance_told(outcome),
        Err(error) => answer == Err::<DigInventoryAction, E>(error),
    }
}

/// Whether a request to the store asks for these automatic purchases.
pub open spec fn asks_auto_buy(
    request: AutoBuyRequest,
    discord_id: i64,
    guild_id: Option<i64>,
    selections: Seq<SelectionView>,
    reserved_balance: i64,
    inventory_limit: usize,
    created_at: i64,
    observed_balance: Option<i64>,
) -> bool {
    &&& request.discord_id == discord_id
    &&& request.guild_id == guild_id
    &&& selection_views(request.selections@) == selections
    &&& request.reserved_balance == reserved_balance
    &&& request.inventory_limit == inventory_limit
    &&& request.created_at == created_at
    &&& request.observed_balance == observed_balance
}

impl<P: DigInventoryPort> DigInventoryService<P> {
    /// Whether an answer is one to buying an item at a given time: an unknown
    /// kind is turned away without asking the store; else the store is asked for
    /// it at the price of the catalogue, and the answer tells its reply.
    pub open spec fn answers_purchase(
        &self,
        answer: Result<DigInventoryAction, P::Error>,
        discord_id: i64,
        guild_id: Option<i64>,
        item_type: Seq<char>,
        created_at: i64,
    ) -> bool {
        let asked = purchase_request(
            self.shop(),
            self.slots(),
            discord_id,
            guild_id,
            item_type,
            created_at,
        );
        match asked {
            None => answer matches Ok(action) && action@ == unknown_kind(item_type),
            Some(asked) => exists|
                request: BuyItemRequest,
                reply: Result<BuyItemOutcome, P::Error>,
            | #[trigger]
                call_ensures(P::buy_item_atomic, (&self.store(), request), reply) && request@
                    == asked && told_purchase(answer, reply, kind_name(self.shop(), item_type)),
        }
    }

    /// Whether an answer is one to automatic purchases at a given time: with
    /// nothing to select the store is not asked; else it is asked for what the
    /// catalogue sells, and the answer tells its reply.
    pub open spec fn answers_auto_buy(
        &self,
        answer: Result<Vec<AutoBuyAction>, P::Error>,
        discord_id: i64,
        guild_id: Option<i64>,
        item_types: Seq<Seq<char>>,
        reserved_balance: i64,
        created_at: i64,
        observed_balance: Option<i64>,
    ) -> bool {
        let selections = selected_kinds(self.shop(), item_types);
        if selections.len() == 0 {
            answer matches Ok(actions) && actions.len() == 0
        } else {
            exists|request: AutoBuyRequest, reply: Result<Vec<AutoBuyItemOutcome>, P::Error>|
                #[trigger]
                call_ensures(P::ensure_auto_buy_items_atomic, (&self.store(), request), reply)
                    && asks_auto_buy(
                    request,
                    discord_id,
                    guild_id,
                    selections,
                    reserved_balance,
                    self.slots(),
                    created_at,
                    observed_balance,
                ) && told_auto_buy(self.shop(), answer, reply)
        }
    }

    /// Whether an answer is one to buying insurance at a given time: the store
    /// is asked, and the answer tells its reply.
    pub open spec fn answers_insurance(
        &self,
        answer: Result<DigInventoryAction, P::Error>,
        discord_id: i64,
        guild_id: Option<i64>,
        now: i64,
    ) -> bool {
        exists|reply: Result<BuyInsuranceOutcome, P::Error>| #[trigger]
            call_ensures(
                P::buy_insurance_atomic,
                (&self.store(), discord_id, guild_id, now),
                reply,
            ) && told_insurance(answer, reply)
    }

    /// Serves a shop catalogue over a store.
    pub fn new(port: P, catalogue: Vec<ConsumableDefinition>, inventory_limit: usize) -> (service:
        DigInventoryService<P>)
        ensures
            service.store() == port,
            service.shop() == catalogue@,
            service.slots() == inventory_limit,
    {
        DigInventoryService { port, catalogue, inventory_limit }
    }

    /// The store.
    pub fn port(&self) -> (port: &P)
        ensures
            *port == self.store(),
    {
        &self.port
    }

    /// Buys one item of a kind, at the time that the clock shows.
    pub fn buy_item(&self, discord_id: i64, guild_id: Option<i64>, item_type: &str) -> (answer:
        Result<DigInventoryAction, P::Error>)
        ensures
            exists|created_at: i64|
                clock_shows(created_at) && created_at >= 0 && #[trigger] self.answers_purchase(
                    answer,
                    discord_id,
                    guild_id,
                    item_type@,
                    created_at,
                ),
    {
        let created_at = unix_timestamp();
        let answer = self.buy_item_at(discord_id, guild_id, item_type, created_at);
        assert(self.answers_purchase(answer, discord_id, guild_id, item_type@, created_at));
        answer
    }

    /// Buys one item of a kind at a given time.
    pub fn buy_item_at(
        &self,
        discord_id: i64,
        guild_id: Option<i64>,
        item_type: &str,
        created_at: i64,
    ) -> (answer: Result<DigInventoryAction, P::Error>)
        ensures
            self.answers_purchase(answer, discord_id, guild_id, item_type@, created_at),
    {
        let request = match plan_purchase(
            &self.catalogue,
            self.inventory_limit,
            discord_id,
            guild_id,
            item_type,
            created_at,
        ) {
            Some(request) => request,
            None => {
                return Ok(unknown_action(item_type));
            },
        };
        let reply = self.port.buy_item_atomic(request);
        assert(call_ensures(P::buy_item_atomic, (&self.store(), request), reply));
        match reply {
            Ok(outcome) => {
                let name = name_of_kind(&self.catalogue, item_type);
                Ok(buy_outcome_action(name.as_str(), outcome))
            },
            Err(error) => Err(error),
        }
    }

    /// Buys wanted kinds automatically, at the time that the clock shows.
    pub fn ensure_auto_buy_items(
        &self,
        discord_id: i64,
        guild_id: Option<i64>,
        item_types: &Vec<String>,
        reserved_balance: i64,
    ) -> (answer: Result<Vec<AutoBuyAction>, P::Error>)
        ensures
            exists|created_at: i64|
                clock_shows(created_at) && created_at >= 0 && #[trigger] self.answers_auto_buy(
                    answer,
                    discord_id,
                    guild_id,
                    crate::text::texts(item_types@),
                    reserved_balance,
                    created_at,
                    None,
                ),
    {
        let created_at = unix_timestamp();
        let answer = self.ensure_auto_buy_items_at(
            discord_id,
            guild_id,
            item_types,
            reserved_balance,
            created_at,
            None,
        );
        assert(self.answers_auto_buy(
            answer,
            discord_id,
            guild_id,
            crate::text::texts(item_types@),
            reserved_balance,
            created_at,
            None,
        ));
        answer
    }

    /// Buys wanted kinds automatically at a given time.
    pub fn ensure_auto_buy_items_at(
        &self,
        discord_id: i64,
        guild_id: Option<i64>,
        item_types: &Vec<String>,
        reserved_balance: i64,
        created_at: i64,
        observed_balance: Option<i64>,
    ) -> (answer: Result<Vec<AutoBuyAction>, P::Error>)
        ensures
            self.answers_auto_buy(
                answer,
                discord_id,
                guild_id,
                crate::text::texts(item_types@),
                reserved_balance,
                created_at,
                observed_balance,
            ),
    {
        let selections = select_auto_buy(&self.catalogue, item_types);
        assert(selection_views(selections@).len() == selections.len());
        if selections.len() == 0 {
            return Ok(Vec::new());
        }
        let request = AutoBuyRequest {
            discord_id,
            guild_id,
            selections,
            reserved_balance,
            inventory_limit: self.inventory_limit,
            created_at,
            observed_balance,
        };
        let reply = self.port.ensure_auto_buy_items_atomic(request);
        assert(call_ensures(P::ensure_auto_buy_items_atomic, (&self.store(), request), reply));
        match reply {
            Ok(outcomes) => Ok(auto_buy_actions(&self.catalogue, outcomes)),
            Err(error) => Err(error),
        }
    }

    /// Queues one item of a kind for the next dig. An unknown kind and the
    /// passive charm are turned away without asking the store.
    pub fn use_item(&self, discord_id: i64, guild_id: Option<i64>, item_type: &str) -> (answer:
        Result<DigInventoryAction, P::Error>)
        ensures
            definition_place(self.shop(), item_type@) is None ==> (answer matches Ok(action)
                && action@ == unknown_kind(item_type@)),
            definition_place(self.shop(), item_type@) is Some && item_type@ == "streak_charm"@
                ==> (answer matches Ok(action) && action@ == failed_action(
                "Streak Charm is passive and triggers automatically."@,
            )),
            definition_place(self.shop(), item_type@) is Some && item_type@ != "streak_charm"@
                ==> exists|reply: Result<QueueItemOutcome, P::Error>| #[trigger]
                call_ensures(
                    P::queue_item_type_atomic,
                    (&self.store(), discord_id, guild_id, item_type),
                    reply,
                ) && told_queueing(
                    self.shop(),
                    answer,
                    reply,
                    Some(kind_name(self.shop(), item_type@)),
                ),
    {
        let definition = match find_definition(&self.catalogue, item_type) {
            Some(definition) => definition,
            None => {
                return Ok(unknown_action(item_type));
            },
        };
        if same_text(definition.id.as_str(), "streak_charm") {
            return Ok(
                DigInventoryAction::error(
                    "Streak Charm is passive and triggers automatically.".to_owned(),
                ),
            );
        }
        match self.port.queue_item_type_atomic(discord_id, guild_id, item_type) {
            Ok(outcome) => Ok(
                queue_outcome_action(&self.catalogue, outcome, Some(definition.name.as_str())),
            ),
            Err(error) => Err(error),
        }
    }

    /// Queues one inventory row for the next dig and tells what the store
    /// reported.
    pub fn queue_item(&self, discord_id: i64, guild_id: Option<i64>, item_id: i64) -> (answer:
        Result<DigInventoryAction, P::Error>)
        ensures
            exists|reply: Result<QueueItemOutcome, P::Error>| #[trigger]
                call_ensures(
                    P::queue_item_id_atomic,
                    (&self.store(), discord_id, guild_id, item_id),
                    reply,
                ) && told_queueing(self.shop(), answer, reply, None),
    {
        match self.port.queue_item_id_atomic(discord_id, guild_id, item_id) {
            Ok(outcome) => Ok(queue_outcome_action(&self.catalogue, outcome, None)),
            Err(error) => Err(error),
        }
    }

    /// Shows the inventory that the store reports, empty without a tunnel.
    pub fn get_inventory(&self, discord_id: i64, guild_id: Option<i64>) -> (answer: Result<
        Vec<InventoryViewItem>,
        P::Error,
    >)
        ensures
            exists|reply: Result<Option<Vec<InventoryItemRecord>>, P::Error>| #[trigger]
                call_ensures(
                    P::inventory_for_tunnel,
                    (&self.store(), discord_id, guild_id),
                    reply,
                ) && told_inventory(self.shop(), answer, reply),
    {
        match self.port.inventory_for_tunnel(discord_id, guild_id) {
            Ok(Some(records)) => Ok(show_inventory(&self.catalogue, &records)),
            Ok(None) => Ok(Vec::new()),
            Err(error) => Err(error),
        }
    }

    /// Sets a trap and tells what the store reported.
    pub fn set_trap(&self, discord_id: i64, guild_id: Option<i64>, game_date: &str) -> (answer:
        Result<DigInventoryAction, P::Error>)
        ensures
            exists|reply: Result<SetTrapOutcome, P::Error>| #[trigger]
                call_ensures(
                    P::set_trap_atomic,
                    (&self.store(), discord_id, guild_id, game_date),
                    reply,
                ) && told_trap(answer, reply),
    {
        match self.port.set_trap_atomic(discord_id, guild_id, game_date) {
            Ok(outcome) => Ok(trap_outcome_action(outcome)),
            Err(error) => Err(error),
        }
    }

    /// Buys insurance, at the time that the clock shows.
    pub fn buy_insurance(&self, discord_id: i64, guild_id: Option<i64>) -> (answer: Result<
        DigInventoryAction,
        P::Error,
    >)
        ensures
            exists|now: i64|
                clock_shows(now) && now >= 0 && #[trigger] self.answers_insurance(
                    answer,
                    discord_id,
                    guild_id,
                    now,
                ),
    {
        let now = unix_timestamp();
        let answer = self.buy_insurance_at(discord_id, guild_id, now);
        assert(self.answers_insurance(answer, discord_id, guild_id, now));
        answer
    }

    /// Buys insurance at a given time and tells what the store reported.
    pub fn buy_insurance_at(&self, discord_id: i64, guild_id: Option<i64>, now: i64) -> (answer:
        Result<DigInventoryAction, P::Error>)
        ensures
            self.answers_insurance(answer, discord_id, guild_id, now),
    {
        match self.port.buy_insurance_atomic(discord_id, guild_id, now) {
            Ok(outcome) => Ok(insurance_outcome_action(outcome)),
            Err(error) => Err(error),
        }
    }
}

fn auto_buy_actions(catalogue: &Vec<ConsumableDefinition>, outcomes: Vec<AutoBuyItemOutcome>)
    -> (actions: Vec<AutoBuyAction>)
    ensures
        actions.len() == outcomes.len(),
        forall|i: int|
            0 <= i < actions.len() ==> (#[trigger] actions@[i])@ == auto_buy_told(
                catalogue@,
                outcomes@[i]@,
            ),
{
    let mut outcomes = outcomes;
    let ghost given = outcomes@;
    let mut actions: Vec<AutoBuyAction> = Vec::new();
    while outcomes.len() > 0
        invariant
            actions.len() + outcomes.len() == given.len(),
            outcomes@ == given.subrange(actions.len() as int, given.len() as int),
            forall|i: int|
                0 <= i < actions.len() ==> (#[trigger] actions@[i])@ == auto_buy_told(
                    catalogue@,
                    given[i]@,
                ),
        decreases outcomes.len(),
    {
        let outcome = outcomes.remove(0);
        let ghost done = actions.len();
        actions.push(auto_buy_action(catalogue, outcome));
        assert(outcomes@ =~= given.subrange(actions.len() as int, given.len() as int));
    }
    actions
}

/// A kind shows as queued on every one of its rows or on none.
pub proof fn law_queued_state_is_shared_by_kind(
    catalogue: Seq<ConsumableDefinition>,
    records: Seq<RecordView>,
    i: int,
    j: int,
)
    requires
        0 <= i < records.len(),
        0 <= j < records.len(),
        records[i].item_type == records[j].item_type,
    ensures
        shown_inventory(catalogue, records)[i].queued == shown_inventory(
            catalogue,
            records,
        )[j].queued,
{
}

/// An inventory action that fails says why and moves nothing.
pub proof fn law_failed_action_moves_nothing(message: Seq<char>)
    ensures
        ({
            let action = failed_action(message);
            &&& !action.success
            &&& action.error == Some(message)
            &&& action.cost == 0
            &&& action.item_id is None
            &&& action.balance_after is None
            &&& !action.queued
        }),
{
}

} // verus!
