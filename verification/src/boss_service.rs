//! The boss service: who asks, what it is configured with, and what it hands
//! back.

use crate::arith::{clamp_to, larger, max_of, nearest, sat_sub, within};
use crate::boss_error::{BossErrorView, BossServiceError, BossServiceErrorView, DigBossRuntimeError};
use crate::boss_store::PlayerKey;
use crate::boss_tunnel::{fits, narrow_i32, out_of_range};
use crate::combat::GearSlot;
use crate::duel_row::{PendingPrompt, PromptView};
use crate::loot::list_has;
use crate::text::{int_text, integer_text, join2, same_text, str_view, text_view, texts};
use vstd::prelude::*;

verus! {

/// Who asks something of the bosses, and when.
#[derive(Clone, Copy, Debug, PartialEq, Eq, Structural)]
pub struct DigBossRuntimeRequest {
    pub discord_id: i64,
    pub guild_id: i64,
    pub now: i64,
}

impl DigBossRuntimeRequest {
    /// Whose record is asked about.
    pub fn player_key(self) -> (key: PlayerKey)
        ensures
            key == (PlayerKey { player_id: self.discord_id, guild_id: self.guild_id }),
    {
        PlayerKey { player_id: self.discord_id, guild_id: self.guild_id }
    }
}

/// Works out the vanity tax of a profit.
pub trait DigBossVanityTaxPort {
    fn calculate_tax(&self, discord_id: i64, guild_id: i64, gross_profit: i64) -> i64;
}

/// No vanity tax.
#[derive(Clone, Copy, Debug, PartialEq, Eq, Structural)]
pub struct NoDigBossVanityTax;

impl DigBossVanityTaxPort for NoDigBossVanityTax {
    /// Taxes nothing.
    fn calculate_tax(&self, _discord_id: i64, _guild_id: i64, _gross_profit: i64) -> (tax: i64)
        ensures
            tax == 0,
    {
        0
    }
}

/// A profit once bankruptcy and vanity were held back.
#[derive(Clone, Copy, Debug, PartialEq, Eq, Structural)]
pub struct BankruptcyAdjustment {
    pub penalized: i64,
    pub penalty_applied: i64,
    pub vanity_tax: i64,
}

/// What is left of a profit after a vanity tax, which is never negative and
/// takes no more than what bankruptcy left.
pub open spec fn adjusted(penalized: i64, penalty_applied: i64, tax: i64) -> BankruptcyAdjustment {
    let vanity_tax = within(tax, 0, larger(penalized, 0));
    BankruptcyAdjustment {
        penalized: nearest(penalized - vanity_tax),
        penalty_applied,
        vanity_tax,
    }
}

/// Holds a vanity tax back from a profit. `penalized` is what bankruptcy left
/// of it.
pub fn withhold_vanity(penalized: i64, penalty_applied: i64, tax: i64) -> (left:
    BankruptcyAdjustment)
    ensures
        left == adjusted(penalized, penalty_applied, tax),
{
    let vanity_tax = clamp_to(tax, 0, max_of(penalized, 0));
    BankruptcyAdjustment { penalized: sat_sub(penalized, vanity_tax), penalty_applied, vanity_tax }
}

/// Of a profit that bankruptcy left, the vanity tax and what is paid are
/// together all of it, and neither is negative.
pub proof fn law_vanity_tax_balances(penalized: i64, penalty_applied: i64, tax: i64)
    requires
        penalized >= 0,
    ensures
        ({
            let left = adjusted(penalized, penalty_applied, tax);
            &&& left.penalized + left.vanity_tax == penalized
            &&& 0 <= left.vanity_tax
            &&& 0 <= left.penalized
        }),
{
}

/// What the boss service is configured with.
#[derive(Debug, PartialEq, Eq)]
pub struct DigBossRuntimeConfig {
    pub database_path: String,
    pub pet_hunger_decay_per_day: i64,
}

/// What a [`DigBossRuntimeConfig`] holds.
#[verifier::ext_equal]
pub struct ConfigView {
    pub database_path: Seq<char>,
    pub pet_hunger_decay_per_day: i64,
}

impl View for DigBossRuntimeConfig {
    type V = ConfigView;

    open spec fn view(&self) -> ConfigView {
        ConfigView {
            database_path: self.database_path@,
            pet_hunger_decay_per_day: self.pet_hunger_decay_per_day,
        }
    }
}

impl Clone for DigBossRuntimeConfig {
    fn clone(&self) -> (copy: DigBossRuntimeConfig)
        ensures
            copy == *self,
    {
        DigBossRuntimeConfig {
            database_path: self.database_path.clone(),
            pet_hunger_decay_per_day: self.pet_hunger_decay_per_day,
        }
    }
}

impl DigBossRuntimeConfig {
    /// Configures the service with a database and how hungry pets get.
    pub fn new(database_path: &str, pet_hunger_decay_per_day: i64) -> (config:
        DigBossRuntimeConfig)
        ensures
            config@ == (ConfigView { database_path: database_path@, pet_hunger_decay_per_day }),
    {
        DigBossRuntimeConfig { database_path: database_path.to_owned(), pet_hunger_decay_per_day }
    }
}

/// The boss service.
#[derive(Debug)]
pub struct DigBossRuntimeService<V> {
    config: DigBossRuntimeConfig,
    vanity_tax: V,
}

impl<V> DigBossRuntimeService<V> {
    /// What the service is configured with.
    pub closed spec fn configured(self) -> ConfigView {
        self.config@
    }

    /// What works out the vanity tax.
    pub closed spec fn taxes(self) -> V {
        self.vanity_tax
    }
}

impl DigBossRuntimeService<NoDigBossVanityTax> {
    /// The service over a database, without a vanity tax.
    pub fn sqlite(config: DigBossRuntimeConfig) -> (service: DigBossRuntimeService<
        NoDigBossVanityTax,
    >)
        ensures
            service.configured() == config@,
            service.taxes() == NoDigBossVanityTax,
    {
        DigBossRuntimeService { config, vanity_tax: NoDigBossVanityTax }
    }
}

impl<V: DigBossVanityTaxPort> DigBossRuntimeService<V> {
    /// This service with a vanity tax.
    pub fn with_vanity_tax<W: DigBossVanityTaxPort>(self, vanity_tax: W) -> (service:
        DigBossRuntimeService<W>)
        ensures
            service.configured() == self.configured(),
            service.taxes() == vanity_tax,
    {
        DigBossRuntimeService { config: self.config, vanity_tax }
    }

    /// What the service is configured with.
    pub fn config(&self) -> (config: &DigBossRuntimeConfig)
        ensures
            config@ == self.configured(),
    {
        &self.config
    }

    /// Holds bankruptcy and vanity back from a profit. `penalized` and
    /// `penalty_applied` are what bankruptcy made of it.
    pub fn apply_penalty(
        &self,
        key: PlayerKey,
        winnings: i64,
        penalized: i64,
        penalty_applied: i64,
    ) -> (left: BankruptcyAdjustment)
        ensures
            exists|tax: i64| #[trigger]
                call_ensures(
                    V::calculate_tax,
                    (&self.taxes(), key.player_id, key.guild_id, winnings),
                    tax,
                ) && left == adjusted(penalized, penalty_applied, tax),
    {
        let tax = self.vanity_tax.calculate_tax(key.player_id, key.guild_id, winnings);
        let left = withhold_vanity(penalized, penalty_applied, tax);
        assert(left == adjusted(penalized, penalty_applied, tax));
        left
    }
}

/// What is left of a profit where no vanity tax is due: all that bankruptcy left.
pub fn untaxed_profit(
    service: &DigBossRuntimeService<NoDigBossVanityTax>,
    key: PlayerKey,
    winnings: i64,
    penalized: i64,
    penalty_applied: i64,
) -> (left: BankruptcyAdjustment)
    ensures
        left == (BankruptcyAdjustment { penalized, penalty_applied, vanity_tax: 0 }),
{
    let tax = service.vanity_tax.calculate_tax(key.player_id, key.guild_id, winnings);
    withhold_vanity(penalized, penalty_applied, tax)
}

/// Prepares queued items for a boss. The last failure is kept until it is taken.
#[derive(Debug)]
pub struct SqliteBossPreparationActivation {
    database_path: String,
    last_error: Option<String>,
}

impl SqliteBossPreparationActivation {
    /// The database that items are taken from.
    pub closed spec fn path(self) -> Seq<char> {
        self.database_path@
    }

    /// The failure that was not taken yet.
    pub closed spec fn failure(self) -> Option<Seq<char>> {
        text_view(self.last_error)
    }

    /// Prepares items of a database.
    pub fn new(database_path: &str) -> (activation: SqliteBossPreparationActivation)
        ensures
            activation.path() == database_path@,
            activation.failure() is None,
    {
        SqliteBossPreparationActivation {
            database_path: database_path.to_owned(),
            last_error: None,
        }
    }

    /// The database that items are taken from.
    pub fn database_path(&self) -> (path: &str)
        ensures
            path@ == self.path(),
    {
        self.database_path.as_str()
    }

    /// Keeps a failure.
    pub fn fail(&mut self, error: &str)
        ensures
            final(self).path() == old(self).path(),
            final(self).failure() == Some(error@),
    {
        self.last_error = Some(error.to_owned());
    }

    /// Takes the failure that was kept.
    pub fn take_error(&mut self) -> (error: Option<String>)
        ensures
            text_view(error) == old(self).failure(),
            final(self).failure() is None,
            final(self).path() == old(self).path(),
    {
        self.last_error.take()
    }
}

/// Loads what a fighter brings into a fight. The last failure is kept until it
/// is taken.
#[derive(Debug)]
pub struct SqliteBossCombatPreparation {
    database_path: String,
    pet_hunger_decay_per_day: i64,
    last_error: Option<String>,
}

impl SqliteBossCombatPreparation {
    /// The database that is read.
    pub closed spec fn path(self) -> Seq<char> {
        self.database_path@
    }

    /// How hungry pets get.
    pub closed spec fn decay(self) -> i64 {
        self.pet_hunger_decay_per_day
    }

    /// The failure that was not taken yet.
    pub closed spec fn failure(self) -> Option<Seq<char>> {
        text_view(self.last_error)
    }

    /// Reads a database.
    pub fn new(database_path: &str, pet_hunger_decay_per_day: i64) -> (preparation:
        SqliteBossCombatPreparation)
        ensures
            preparation.path() == database_path@,
            preparation.decay() == pet_hunger_decay_per_day,
            preparation.failure() is None,
    {
        SqliteBossCombatPreparation {
            database_path: database_path.to_owned(),
            pet_hunger_decay_per_day,
            last_error: None,
        }
    }

    /// The database that is read.
    pub fn database_path(&self) -> (path: &str)
        ensures
            path@ == self.path(),
    {
        self.database_path.as_str()
    }

    /// How hungry pets get, at least by one a day.
    pub fn hunger_decay(&self) -> (decay: i64)
        ensures
            decay == larger(self.decay(), 1),
    {
        max_of(self.pet_hunger_decay_per_day, 1)
    }

    /// Keeps a failure.
    pub fn fail(&mut self, error: &str)
        ensures
            final(self).path() == old(self).path(),
            final(self).decay() == old(self).decay(),
            final(self).failure() == Some(error@),
    {
        self.last_error = Some(error.to_owned());
    }

    /// Takes the failure that was kept.
    pub fn take_error(&mut self) -> (error: Option<String>)
        ensures
            text_view(error) == old(self).failure(),
            final(self).failure() is None,
            final(self).path() == old(self).path(),
            final(self).decay() == old(self).decay(),
    {
        self.last_error.take()
    }
}

/// The colour of mana that a land gives.
pub open spec fn land_colour(land: Seq<char>) -> Option<Seq<char>> {
    if land == "Mountain"@ {
        Some("Red"@)
    } else if land == "Island"@ {
        Some("Blue"@)
    } else if land == "Forest"@ {
        Some("Green"@)
    } else if land == "Plains"@ {
        Some("White"@)
    } else if land == "Swamp"@ {
        Some("Black"@)
    } else {
        None
    }
}

/// Tells the colour of mana that a land gives.
pub fn colour_of_land(land: &str) -> (colour: Option<&'static str>)
    ensures
        str_view(colour) == land_colour(land@),
{
    if same_text(land, "Mountain") {
        Some("Red")
    } else if same_text(land, "Island") {
        Some("Blue")
    } else if same_text(land, "Forest") {
        Some("Green")
    } else if same_text(land, "Plains") {
        Some("White")
    } else if same_text(land, "Swamp") {
        Some("Black")
    } else {
        None
    }
}

/// Tells whether a pet can help in a fight: grown up and fully trained.
pub fn pet_can_assist(adult: bool, training_xp: i64, training_cap: i32) -> (helps: bool)
    ensures
        helps == (adult && training_xp >= training_cap),
{
    adult && training_xp >= training_cap as i64
}

/// Tells whether mana counts in a fight: assigned today and not spent.
pub fn mana_counts(assigned_date: &str, today: &str, consumed_today: bool) -> (counts: bool)
    ensures
        counts == (assigned_date@ == today@ && !consumed_today),
{
    same_text(assigned_date, today) && !consumed_today
}

/// A prestige relic that a boss dropped.
#[derive(Debug, PartialEq, Eq)]
pub struct DigBossPrestigeRelicDrop {
    pub database_id: i64,
    pub artifact_id: String,
    pub name: String,
    pub rarity: String,
}

/// What a [`DigBossPrestigeRelicDrop`] holds.
#[verifier::ext_equal]
pub struct PrestigeRelicView {
    pub database_id: i64,
    pub artifact_id: Seq<char>,
    pub name: Seq<char>,
    pub rarity: Seq<char>,
}

impl View for DigBossPrestigeRelicDrop {
    type V = PrestigeRelicView;

    open spec fn view(&self) -> PrestigeRelicView {
        PrestigeRelicView {
            database_id: self.database_id,
            artifact_id: self.artifact_id@,
            name: self.name@,
            rarity: self.rarity@,
        }
    }
}

impl Clone for DigBossPrestigeRelicDrop {
    fn clone(&self) -> (copy: DigBossPrestigeRelicDrop)
        ensures
            copy == *self,
    {
        DigBossPrestigeRelicDrop {
            database_id: self.database_id,
            artifact_id: self.artifact_id.clone(),
            name: self.name.clone(),
            rarity: self.rarity.clone(),
        }
    }
}

/// A piece of gear that broke in a fight.
#[derive(Debug, PartialEq, Eq)]
pub struct DigBossBrokenGear {
    pub gear_id: i64,
    pub name: String,
}

/// What a [`DigBossBrokenGear`] holds.
#[verifier::ext_equal]
pub struct BrokenGearView {
    pub gear_id: i64,
    pub name: Seq<char>,
}

impl View for DigBossBrokenGear {
    type V = BrokenGearView;

    open spec fn view(&self) -> BrokenGearView {
        BrokenGearView {
            gear_id: self.gear_id,
            name: self.name@,
        }
    }
}

impl Clone for DigBossBrokenGear {
    fn clone(&self) -> (copy: DigBossBrokenGear)
        ensures
            copy == *self,
    {
        DigBossBrokenGear {
            gear_id: self.gear_id,
            name: self.name.clone(),
        }
    }
}

/// A piece of gear that a boss dropped.
#[derive(Debug, PartialEq, Eq)]
pub struct DigBossGearDrop {
    pub gear_id: i64,
    pub slot: GearSlot,
    pub tier: u8,
    pub name: String,
}

/// What a [`DigBossGearDrop`] holds.
#[verifier::ext_equal]
pub struct GearDropView {
    pub gear_id: i64,
    pub slot: GearSlot,
    pub tier: u8,
    pub name: Seq<char>,
}

impl View for DigBossGearDrop {
    type V = GearDropView;

    open spec fn view(&self) -> GearDropView {
        GearDropView {
            gear_id: self.gear_id,
            slot: self.slot,
            tier: self.tier,
            name: self.name@,
        }
    }
}

impl Clone for DigBossGearDrop {
    fn clone(&self) -> (copy: DigBossGearDrop)
        ensures
            copy == *self,
    {
        DigBossGearDrop {
            gear_id: self.gear_id,
            slot: self.slot,
            tier: self.tier,
            name: self.name.clone(),
        }
    }
}

/// A relic of the pinnacle.
#[derive(Debug, PartialEq, Eq)]
pub struct PinnacleRelic {
    pub artifact_id: String,
}

/// What a [`PinnacleRelic`] holds.
#[verifier::ext_equal]
pub struct PinnacleRelicView {
    pub artifact_id: Seq<char>,
}

impl View for PinnacleRelic {
    type V = PinnacleRelicView;

    open spec fn view(&self) -> PinnacleRelicView {
        PinnacleRelicView {
            artifact_id: self.artifact_id@,
        }
    }
}

impl Clone for PinnacleRelic {
    fn clone(&self) -> (copy: PinnacleRelic)
        ensures
            copy == *self,
    {
        PinnacleRelic {
            artifact_id: self.artifact_id.clone(),
        }
    }
}

/// A relic that the pinnacle dropped.
#[derive(Debug, PartialEq, Eq)]
pub struct DigPinnacleRelicDrop {
    pub relic: PinnacleRelic,
    pub database_id: i64,
}

/// What a [`DigPinnacleRelicDrop`] holds.
#[verifier::ext_equal]
pub struct PinnacleDropView {
    pub relic: PinnacleRelicView,
    pub database_id: i64,
}

impl View for DigPinnacleRelicDrop {
    type V = PinnacleDropView;

    open spec fn view(&self) -> PinnacleDropView {
        PinnacleDropView {
            relic: self.relic@,
            database_id: self.database_id,
        }
    }
}

impl Clone for DigPinnacleRelicDrop {
    fn clone(&self) -> (copy: DigPinnacleRelicDrop)
        ensures
            copy == *self,
    {
        DigPinnacleRelicDrop {
            relic: self.relic.clone(),
            database_id: self.database_id,
        }
    }
}

/// Something about a fight that is announced.
#[derive(Debug, PartialEq, Eq)]
pub enum BossNotice {
    /// A fight waits for the answer to a question.
    PromptReady { key: PlayerKey, boss_id: String, prompt: PendingPrompt },
    /// A fight is settled.
    Resolved { key: PlayerKey, boss_id: String, won: bool, jc_delta: i64 },
}

/// What a [`BossNotice`] holds.
#[verifier::ext_equal]
pub enum NoticeView {
    PromptReady { key: PlayerKey, boss_id: Seq<char>, prompt: PromptView },
    Resolved { key: PlayerKey, boss_id: Seq<char>, won: bool, jc_delta: i64 },
}

impl View for BossNotice {
    type V = NoticeView;

    open spec fn view(&self) -> NoticeView {
        match self {
            BossNotice::PromptReady { key, boss_id, prompt } => NoticeView::PromptReady {
                key: *key,
                boss_id: boss_id@,
                prompt: prompt@,
            },
            BossNotice::Resolved { key, boss_id, won, jc_delta } => NoticeView::Resolved {
                key: *key,
                boss_id: boss_id@,
                won: *won,
                jc_delta: *jc_delta,
            },
        }
    }
}

/// What a list of notices holds.
pub open spec fn notice_views(notices: Seq<BossNotice>) -> Seq<NoticeView> {
    notices.map_values(|x: BossNotice| x@)
}

/// What the service hands back beside an outcome.
#[derive(Debug)]
pub struct DigBossRuntimeResult<T> {
    pub outcome: T,
    pub action_id: Option<i64>,
    pub abandoned_action_id: Option<i64>,
    pub abandoned_wager_forfeit: i64,
    /// Gear that broke in an abandoned fight.
    pub abandoned_gear_wear: Vec<i64>,
    pub gear_drop: Option<DigBossGearDrop>,
    pub prestige_relic_drop: Option<DigBossPrestigeRelicDrop>,
    pub broken_gear: Vec<DigBossBrokenGear>,
    /// What failed on the way without failing the action.
    pub warnings: Vec<String>,
    pub notices: Vec<BossNotice>,
}

/// Whether a result holds an outcome with nothing beside it but what is handed
/// in.
pub open spec fn is_bare<T>(
    result: DigBossRuntimeResult<T>,
    outcome: T,
    action_id: Option<i64>,
    warnings: Vec<String>,
) -> bool {
    &&& result.outcome == outcome
    &&& result.action_id == action_id
    &&& result.warnings == warnings
    &&& result.abandoned_action_id is None
    &&& result.abandoned_wager_forfeit == 0
    &&& result.abandoned_gear_wear@.len() == 0
    &&& result.gear_drop is None
    &&& result.prestige_relic_drop is None
    &&& result.broken_gear@.len() == 0
}

impl<T> DigBossRuntimeResult<T> {
    /// An outcome with nothing beside it but warnings.
    pub fn plain(outcome: T, action_id: Option<i64>, warnings: Vec<String>) -> (result:
        DigBossRuntimeResult<T>)
        ensures
            is_bare(result, outcome, action_id, warnings),
            result.notices@.len() == 0,
    {
        DigBossRuntimeResult::noticed(outcome, action_id, warnings, Vec::new())
    }

    /// A fight that waits for an answer: the question is announced.
    pub fn paused(
        outcome: T,
        warnings: Vec<String>,
        key: PlayerKey,
        boss_id: &str,
        prompt: &PendingPrompt,
    ) -> (result: DigBossRuntimeResult<T>)
        ensures
            is_bare(result, outcome, None, warnings),
            notice_views(result.notices@) == seq![
                NoticeView::PromptReady { key, boss_id: boss_id@, prompt: prompt@ },
            ],
    {
        let mut notices: Vec<BossNotice> = Vec::new();
        notices.push(
            BossNotice::PromptReady { key, boss_id: boss_id.to_owned(), prompt: prompt.clone() },
        );
        assert(notice_views(notices@) =~= seq![
            NoticeView::PromptReady { key, boss_id: boss_id@, prompt: prompt@ },
        ]);
        DigBossRuntimeResult::noticed(outcome, None, warnings, notices)
    }

    /// A settled fight: who won and what it paid is announced.
    pub fn resolved(
        outcome: T,
        action_id: Option<i64>,
        warnings: Vec<String>,
        key: PlayerKey,
        boss_id: &str,
        won: bool,
        jc_delta: i64,
    ) -> (result: DigBossRuntimeResult<T>)
        ensures
            is_bare(result, outcome, action_id, warnings),
            notice_views(result.notices@) == seq![
                NoticeView::Resolved { key, boss_id: boss_id@, won, jc_delta },
            ],
    {
        let mut notices: Vec<BossNotice> = Vec::new();
        notices.push(BossNotice::Resolved { key, boss_id: boss_id.to_owned(), won, jc_delta });
        assert(notice_views(notices@) =~= seq![
            NoticeView::Resolved { key, boss_id: boss_id@, won, jc_delta },
        ]);
        DigBossRuntimeResult::noticed(outcome, action_id, warnings, notices)
    }

    /// An outcome with nothing beside it but warnings and notices.
    pub fn noticed(
        outcome: T,
        action_id: Option<i64>,
        warnings: Vec<String>,
        notices: Vec<BossNotice>,
    ) -> (result: DigBossRuntimeResult<T>)
        ensures
            is_bare(result, outcome, action_id, warnings),
            result.notices == notices,
    {
        DigBossRuntimeResult {
            outcome,
            action_id,
            abandoned_action_id: None,
            abandoned_wager_forfeit: 0,
            abandoned_gear_wear: Vec::new(),
            gear_drop: None,
            prestige_relic_drop: None,
            broken_gear: Vec::new(),
            warnings,
            notices,
        }
    }

    /// The same result with another outcome, and the outcome it had.
    pub fn with_outcome<U>(self, outcome: U) -> (result: (DigBossRuntimeResult<U>, T))
        ensures
            result.1 == self.outcome,
            result.0.outcome == outcome,
            result.0.action_id == self.action_id,
            result.0.abandoned_action_id == self.abandoned_action_id,
            result.0.abandoned_wager_forfeit == self.abandoned_wager_forfeit,
            result.0.abandoned_gear_wear == self.abandoned_gear_wear,
            result.0.gear_drop == self.gear_drop,
            result.0.prestige_relic_drop == self.prestige_relic_drop,
            result.0.broken_gear == self.broken_gear,
            result.0.warnings == self.warnings,
            result.0.notices == self.notices,
    {
        (
            DigBossRuntimeResult {
                outcome,
                action_id: self.action_id,
                abandoned_action_id: self.abandoned_action_id,
                abandoned_wager_forfeit: self.abandoned_wager_forfeit,
                abandoned_gear_wear: self.abandoned_gear_wear,
                gear_drop: self.gear_drop,
                prestige_relic_drop: self.prestige_relic_drop,
                broken_gear: self.broken_gear,
                warnings: self.warnings,
                notices: self.notices,
            },
            self.outcome,
        )
    }

    /// Notes what became of an abandoned fight.
    pub fn note_abandoned(&mut self, action_id: Option<i64>, wager_forfeit: i64, gear_wear: Vec<i64>)
        ensures
            final(self).abandoned_action_id == action_id,
            final(self).abandoned_wager_forfeit == wager_forfeit,
            final(self).abandoned_gear_wear == gear_wear,
            final(self).outcome == old(self).outcome,
            final(self).action_id == old(self).action_id,
            final(self).gear_drop == old(self).gear_drop,
            final(self).prestige_relic_drop == old(self).prestige_relic_drop,
            final(self).broken_gear == old(self).broken_gear,
            final(self).warnings == old(self).warnings,
            final(self).notices == old(self).notices,
    {
        self.abandoned_action_id = action_id;
        self.abandoned_wager_forfeit = wager_forfeit;
        self.abandoned_gear_wear = gear_wear;
    }
}

/// The warnings of a fight in the order they are told: the economy, bankruptcy,
/// gear, preparation.
pub open spec fn all_warnings(
    economy: Seq<Seq<char>>,
    bankruptcy: Seq<Seq<char>>,
    gear: Option<Seq<char>>,
    preparation: Option<Seq<char>>,
) -> Seq<Seq<char>> {
    let told = economy + bankruptcy;
    let told = match gear {
        Some(warning) => told.push(warning),
        None => told,
    };
    match preparation {
        Some(warning) => told.push(warning),
        None => told,
    }
}

fn append_texts(list: &mut Vec<String>, more: &Vec<String>)
    ensures
        texts(final(list)@) == texts(old(list)@) + texts(more@),
{
    let ghost before = texts(list@);
    let ghost added = texts(more@);
    let mut i: usize = 0;
    assert(before + added.subrange(0, 0) =~= before);
    while i < more.len()
        invariant
            i <= more.len(),
            added == texts(more@),
            texts(list@) == before + added.subrange(0, i as int),
        decreases more.len() - i,
    {
        let ghost so_far = texts(list@);
        list.push(more[i].clone());
        proof {
            assert(texts(list@) =~= so_far.push(more@[i as int]@));
            assert(added.subrange(0, i + 1) =~= added.subrange(0, i as int).push(
                more@[i as int]@,
            ));
            assert(before + added.subrange(0, i + 1) =~= so_far.push(more@[i as int]@));
        }
        i = i + 1;
    }
    assert(added.subrange(0, i as int) =~= added);
}

/// Collects the warnings of a fight.
pub fn collect_warnings(
    economy: Vec<String>,
    bankruptcy: &Vec<String>,
    gear: Option<String>,
    preparation: Option<String>,
) -> (warnings: Vec<String>)
    ensures
        texts(warnings@) == all_warnings(
            texts(economy@),
            texts(bankruptcy@),
            text_view(gear),
            text_view(preparation),
        ),
{
    let mut warnings = economy;
    append_texts(&mut warnings, bankruptcy);
    match gear {
        Some(warning) => {
            let ghost before = texts(warnings@);
            let ghost text = warning@;
            warnings.push(warning);
            assert(texts(warnings@) =~= before.push(text));
        },
        None => {},
    }
    match preparation {
        Some(warning) => {
            let ghost before = texts(warnings@);
            let ghost text = warning@;
            warnings.push(warning);
            assert(texts(warnings@) =~= before.push(text));
        },
        None => {},
    }
    warnings
}

/// Decides whether a composed action failed underneath: a failure of the record
/// goes before one of the preparation.
pub fn composed_failure(record: Option<String>, preparation: Option<String>) -> (failure: Option<
    DigBossRuntimeError,
>)
    ensures
        match failure {
            Some(error) => error@ == BossErrorView::Infrastructure(
                if record is Some {
                    record->0@
                } else {
                    preparation->0@
                },
            ) && (record is Some || preparation is Some),
            None => record is None && preparation is None,
        },
{
    match record {
        Some(text) => Some(DigBossRuntimeError::Infrastructure(text)),
        None => match preparation {
            Some(text) => Some(DigBossRuntimeError::Infrastructure(text)),
            None => None,
        },
    }
}

/// What went wrong beside an action that a store and a policy carried out.
#[derive(Debug)]
pub struct ComposedTroubles {
    /// A failure of the record, which fails the action.
    pub record: Option<String>,
    /// A failure to make a preparation ready, which fails the action.
    pub activation: Option<String>,
    pub economy: Vec<String>,
    pub bankruptcy: Vec<String>,
    pub gear: Option<String>,
    pub preparation: Option<String>,
}

/// The warnings that an action leaves.
pub open spec fn left_warnings(troubles: ComposedTroubles) -> Seq<Seq<char>> {
    all_warnings(
        texts(troubles.economy@),
        texts(troubles.bankruptcy@),
        text_view(troubles.gear),
        text_view(troubles.preparation),
    )
}

/// Whether an answer is one to an action: a failure underneath goes before a
/// rule that was broken, and nothing else that went wrong is lost.
pub open spec fn is_composed<T>(
    answer: Result<DigBossRuntimeResult<T>, DigBossRuntimeError>,
    outcome: Result<T, BossServiceError>,
    troubles: ComposedTroubles,
    action_id: Option<i64>,
    notices: Vec<BossNotice>,
) -> bool {
    match answer {
        Ok(result) => {
            &&& troubles.record is None
            &&& troubles.activation is None
            &&& outcome is Ok
            &&& is_bare(result, outcome->Ok_0, action_id, result.warnings)
            &&& texts(result.warnings@) == left_warnings(troubles)
            &&& result.notices == notices
        },
        Err(error) => if troubles.record is Some {
            error@ == BossErrorView::Infrastructure(troubles.record->0@)
        } else if troubles.activation is Some {
            error@ == BossErrorView::Infrastructure(troubles.activation->0@)
        } else {
            outcome matches Err(rule) && error@ == BossErrorView::Policy(rule@)
        },
    }
}

/// Answers an action that a store and a policy carried out.
pub fn finish_composed<T>(
    outcome: Result<T, BossServiceError>,
    troubles: ComposedTroubles,
    action_id: Option<i64>,
    notices: Vec<BossNotice>,
) -> (answer: Result<DigBossRuntimeResult<T>, DigBossRuntimeError>)
    ensures
        is_composed(answer, outcome, troubles, action_id, notices),
{
    match composed_failure(troubles.record, troubles.activation) {
        Some(error) => Err(error),
        None => match outcome {
            Ok(outcome) => {
                let warnings = collect_warnings(
                    troubles.economy,
                    &troubles.bankruptcy,
                    troubles.gear,
                    troubles.preparation,
                );
                Ok(DigBossRuntimeResult::noticed(outcome, action_id, warnings, notices))
            },
            Err(rule) => Err(DigBossRuntimeError::Policy(rule)),
        },
    }
}

/// Narrows the boundary that blocks a tunnel. A tunnel that none blocks is not
/// at a boss.
pub fn current_boundary(boundary: Option<i64>) -> (narrow: Result<i32, DigBossRuntimeError>)
    ensures
        match boundary {
            None => narrow matches Err(error) && error@ == BossErrorView::Policy(
                BossServiceErrorView::NotAtBossBoundary,
            ),
            Some(boundary) => match narrow {
                Ok(narrow) => narrow == boundary,
                Err(error) => !fits(boundary) && error@ == BossErrorView::Infrastructure(
                    out_of_range("boss boundary"@),
                ),
            },
        },
{
    match boundary {
        None => Err(DigBossRuntimeError::Policy(BossServiceError::NotAtBossBoundary)),
        Some(boundary) => match narrow_i32(boundary, "boss boundary") {
            Ok(narrow) => Ok(narrow),
            Err(message) => Err(DigBossRuntimeError::Infrastructure(message)),
        },
    }
}

/// Decides whether a tunnel is blocked by the pinnacle.
pub fn require_pinnacle(boundary: Option<i64>, pinnacle_depth: i32) -> (answer: Result<
    (),
    DigBossRuntimeError,
>)
    ensures
        match answer {
            Ok(_) => boundary == Some(pinnacle_depth as i64),
            Err(error) => boundary != Some(pinnacle_depth as i64) && error@ == BossErrorView::Policy(
                BossServiceErrorView::NotAtBossBoundary,
            ),
        },
{
    match boundary {
        Some(boundary) => {
            if boundary == pinnacle_depth as i64 {
                return Ok(());
            }
        },
        None => {},
    }
    Err(DigBossRuntimeError::Policy(BossServiceError::NotAtBossBoundary))
}

/// Names a piece of gear: by its own name, by that of its tier, or by its number.
pub fn gear_presentation_name(
    gear_id: i64,
    unique_name: Option<&str>,
    tier_name: Option<&str>,
) -> (name: String)
    ensures
        name@ == (match str_view(unique_name) {
            Some(name) => name,
            None => match str_view(tier_name) {
                Some(name) => name,
                None => "Gear #"@ + int_text(gear_id as int),
            },
        }),
{
    match unique_name {
        Some(name) => name.to_owned(),
        None => match tier_name {
            Some(name) => name.to_owned(),
            None => join2("Gear #", integer_text(gear_id).as_str()),
        },
    }
}

/// Whether a fight can drop something: written, won, and not merely a phase.
pub fn drops_loot(committed: bool, won: bool, phase_changed: bool) -> (drops: bool)
    ensures
        drops == (committed && won && !phase_changed),
{
    committed && won && !phase_changed
}

/// The slot of a drop, by a roll.
pub open spec fn slot_of_roll(rolled: usize) -> GearSlot {
    if rolled % 4 == 0 {
        GearSlot::Weapon
    } else if rolled % 4 == 1 {
        GearSlot::Armor
    } else if rolled % 4 == 2 {
        GearSlot::Boots
    } else {
        GearSlot::Amulet
    }
}

/// Picks the slot of a drop.
pub fn drop_slot(rolled: usize) -> (slot: GearSlot)
    ensures
        slot == slot_of_roll(rolled),
{
    if rolled % 4 == 0 {
        GearSlot::Weapon
    } else if rolled % 4 == 1 {
        GearSlot::Armor
    } else if rolled % 4 == 2 {
        GearSlot::Boots
    } else {
        GearSlot::Amulet
    }
}

/// An artifact that can be found.
#[derive(Debug, PartialEq, Eq)]
pub struct CatalogueArtifact {
    pub id: String,
    pub name: String,
    pub rarity: String,
    pub is_relic: bool,
    pub trophy: bool,
    pub min_prestige: i64,
}

/// What a [`CatalogueArtifact`] holds.
#[verifier::ext_equal]
pub struct CatalogueArtifactView {
    pub id: Seq<char>,
    pub name: Seq<char>,
    pub rarity: Seq<char>,
    pub is_relic: bool,
    pub trophy: bool,
    pub min_prestige: i64,
}

impl View for CatalogueArtifact {
    type V = CatalogueArtifactView;

    open spec fn view(&self) -> CatalogueArtifactView {
        CatalogueArtifactView {
            id: self.id@,
            name: self.name@,
            rarity: self.rarity@,
            is_relic: self.is_relic,
            trophy: self.trophy,
            min_prestige: self.min_prestige,
        }
    }
}

impl Clone for CatalogueArtifact {
    fn clone(&self) -> (copy: CatalogueArtifact)
        ensures
            copy == *self,
    {
        CatalogueArtifact {
            id: self.id.clone(),
            name: self.name.clone(),
            rarity: self.rarity.clone(),
            is_relic: self.is_relic,
            trophy: self.trophy,
            min_prestige: self.min_prestige,
        }
    }
}

/// Whether a relic can drop: one of the prestige, not a trophy, and not owned.
pub open spec fn can_drop(artifact: CatalogueArtifactView, prestige: i64, owned: Seq<Seq<char>>)
    -> bool {
    &&& artifact.is_relic
    &&& !artifact.trophy
    &&& artifact.min_prestige > 0
    &&& artifact.min_prestige <= prestige
    &&& !owned.contains(artifact.id)
}

/// The places in a catalogue of the relics that can drop, in their order.
pub open spec fn droppable(
    catalogue: Seq<CatalogueArtifactView>,
    prestige: i64,
    owned: Seq<Seq<char>>,
) -> Seq<usize>
    decreases catalogue.len(),
{
    if catalogue.len() == 0 {
        Seq::empty()
    } else {
        let rest = droppable(catalogue.drop_last(), prestige, owned);
        if can_drop(catalogue.last(), prestige, owned) {
            rest.push((catalogue.len() - 1) as usize)
        } else {
            rest
        }
    }
}

/// What a catalogue holds.
pub open spec fn catalogue_views(catalogue: Seq<CatalogueArtifact>) -> Seq<CatalogueArtifactView> {
    catalogue.map_values(|x: CatalogueArtifact| x@)
}

/// Lists the relics that can drop.
pub fn list_droppable(
    catalogue: &Vec<CatalogueArtifact>,
    prestige: i64,
    owned: &Vec<String>,
) -> (places: Vec<usize>)
    ensures
        places@ == droppable(catalogue_views(catalogue@), prestige, texts(owned@)),
{
    let ghost views = catalogue_views(catalogue@);
    let mut places: Vec<usize> = Vec::new();
    let mut i: usize = 0;
    while i < catalogue.len()
        invariant
            i <= catalogue.len(),
            views == catalogue_views(catalogue@),
            places@ == droppable(views.subrange(0, i as int), prestige, texts(owned@)),
        decreases catalogue.len() - i,
    {
        proof {
            let next = views.subrange(0, i + 1);
            assert(next.drop_last() =~= views.subrange(0, i as int));
            assert(next.last() == catalogue@[i as int]@);
        }
        let artifact = &catalogue[i];
        if artifact.is_relic && !artifact.trophy && artifact.min_prestige > 0
            && artifact.min_prestige <= prestige && !list_has(owned, artifact.id.as_str()) {
            places.push(i);
        }
        i = i + 1;
    }
    assert(views.subrange(0, i as int) =~= views);
    places
}

/// Picks the relic that drops: `rolled` counts around the list.
pub fn pick_drop(places: &Vec<usize>, rolled: usize) -> (place: Option<usize>)
    ensures
        place == (if places.len() == 0 {
            None
        } else {
            Some(places@[rolled as int % places.len() as int])
        }),
{
    if places.len() == 0 {
        None
    } else {
        Some(places[rolled % places.len()])
    }
}

/// Only relics that can drop are listed.
pub proof fn law_only_droppable_relics_drop(
    catalogue: Seq<CatalogueArtifactView>,
    prestige: i64,
    owned: Seq<Seq<char>>,
    i: int,
)
    requires
        catalogue.len() <= usize::MAX,
        0 <= i < droppable(catalogue, prestige, owned).len(),
    ensures
        ({
            let place = droppable(catalogue, prestige, owned)[i];
            place < catalogue.len() && can_drop(catalogue[place as int], prestige, owned)
        }),
    decreases catalogue.len(),
{
    let rest = droppable(catalogue.drop_last(), prestige, owned);
    if i < rest.len() {
        law_only_droppable_relics_drop(catalogue.drop_last(), prestige, owned, i);
    }
}

} // verus!
