//! One consistent read of a player: wallet, tunnel, inventory, artifacts, gear
//! and weather.

use crate::arith::{larger, max_of};
use crate::text::{copy_text, int_text, integer_text, join2, text_view};
use vstd::prelude::*;

verus! {

/// One inventory row of the Dig aggregate.
#[derive(Debug, PartialEq, Eq, Hash)]
pub struct DigRuntimeInventoryItem {
    pub id: i64,
    pub item_type: String,
    pub queued: bool,
}

/// What a [`DigRuntimeInventoryItem`] holds.
#[verifier::ext_equal]
pub struct ItemView {
    pub id: i64,
    pub item_type: Seq<char>,
    pub queued: bool,
}

impl View for DigRuntimeInventoryItem {
    type V = ItemView;

    open spec fn view(&self) -> ItemView {
        ItemView {
            id: self.id,
            item_type: self.item_type@,
            queued: self.queued,
        }
    }
}

impl Clone for DigRuntimeInventoryItem {
    fn clone(&self) -> (copy: DigRuntimeInventoryItem)
        ensures
            copy == *self,
    {
        DigRuntimeInventoryItem {
            id: self.id,
            item_type: self.item_type.clone(),
            queued: self.queued,
        }
    }
}

/// One artifact row of the Dig aggregate.
#[derive(Debug, PartialEq, Eq, Hash)]
pub struct DigRuntimeArtifact {
    pub id: i64,
    pub artifact_id: String,
    pub is_relic: bool,
    pub equipped: bool,
}

/// What a [`DigRuntimeArtifact`] holds.
#[verifier::ext_equal]
pub struct ArtifactView {
    pub id: i64,
    pub artifact_id: Seq<char>,
    pub is_relic: bool,
    pub equipped: bool,
}

impl View for DigRuntimeArtifact {
    type V = ArtifactView;

    open spec fn view(&self) -> ArtifactView {
        ArtifactView {
            id: self.id,
            artifact_id: self.artifact_id@,
            is_relic: self.is_relic,
            equipped: self.equipped,
        }
    }
}

impl Clone for DigRuntimeArtifact {
    fn clone(&self) -> (copy: DigRuntimeArtifact)
        ensures
            copy == *self,
    {
        DigRuntimeArtifact {
            id: self.id,
            artifact_id: self.artifact_id.clone(),
            is_relic: self.is_relic,
            equipped: self.equipped,
        }
    }
}

/// One gear row. Gear belongs to the snapshot so that equipping a piece cannot
/// race a concurrent dig.
#[derive(Debug, PartialEq, Eq, Hash)]
pub struct DigRuntimeGear {
    pub id: i64,
    pub slot: String,
    pub tier: i64,
    pub durability: i64,
    pub equipped: bool,
    pub acquired_at: i64,
    pub source: String,
    pub item_id: Option<String>,
}

/// What a [`DigRuntimeGear`] holds.
#[verifier::ext_equal]
pub struct GearView {
    pub id: i64,
    pub slot: Seq<char>,
    pub tier: i64,
    pub durability: i64,
    pub equipped: bool,
    pub acquired_at: i64,
    pub source: Seq<char>,
    pub item_id: Option<Seq<char>>,
}

impl View for DigRuntimeGear {
    type V = GearView;

    open spec fn view(&self) -> GearView {
        GearView {
            id: self.id,
            slot: self.slot@,
            tier: self.tier,
            durability: self.durability,
            equipped: self.equipped,
            acquired_at: self.acquired_at,
            source: self.source@,
            item_id: text_view(self.item_id),
        }
    }
}

impl Clone for DigRuntimeGear {
    fn clone(&self) -> (copy: DigRuntimeGear)
        ensures
            copy == *self,
    {
        DigRuntimeGear {
            id: self.id,
            slot: self.slot.clone(),
            tier: self.tier,
            durability: self.durability,
            equipped: self.equipped,
            acquired_at: self.acquired_at,
            source: self.source.clone(),
            item_id: copy_text(&self.item_id),
        }
    }
}

/// The forecast row of one layer for the current game date.
#[derive(Debug, PartialEq, Eq, Hash)]
pub struct DigRuntimeWeather {
    pub layer_name: String,
    pub weather_id: String,
}

/// What a [`DigRuntimeWeather`] holds.
#[verifier::ext_equal]
pub struct WeatherView {
    pub layer_name: Seq<char>,
    pub weather_id: Seq<char>,
}

impl View for DigRuntimeWeather {
    type V = WeatherView;

    open spec fn view(&self) -> WeatherView {
        WeatherView {
            layer_name: self.layer_name@,
            weather_id: self.weather_id@,
        }
    }
}

impl Clone for DigRuntimeWeather {
    fn clone(&self) -> (copy: DigRuntimeWeather)
        ensures
            copy == *self,
    {
        DigRuntimeWeather {
            layer_name: self.layer_name.clone(),
            weather_id: self.weather_id.clone(),
        }
    }
}

/// The tunnel columns that a Dig commit touches.
#[derive(Debug, PartialEq, Eq, Hash)]
pub struct DigRuntimeTunnel {
    pub discord_id: i64,
    pub guild_id: i64,
    pub depth: i64,
    pub max_depth: i64,
    pub total_digs: i64,
    pub total_jc_earned: i64,
    pub last_dig_at: Option<i64>,
    pub luminosity: i64,
    pub tunnel_name: String,
    pub prestige_level: i64,
    pub prestige_perks: String,
    pub boss_progress: String,
    pub boss_attempts: String,
    pub route_state: Option<String>,
    pub injury_state: Option<String>,
    pub hard_hat_charges: i64,
    pub reinforced_until: i64,
    pub void_bait_digs: i64,
    pub sonar_skip_pending: bool,
    pub temp_buffs: Option<String>,
    pub temp_curses: Option<String>,
    pub stat_strength: i64,
    pub stat_smarts: i64,
    pub stat_stamina: i64,
    pub stat_points: i64,
    pub paid_digs_today: i64,
    pub paid_dig_date: Option<String>,
    pub pickaxe_tier: i64,
    pub current_run_jc: i64,
    pub current_run_artifacts: i64,
    pub current_run_events: i64,
    pub best_run_score: i64,
    pub total_prestige_score: i64,
    pub streak_days: i64,
    pub streak_last_date: Option<String>,
    pub auto_buy_torch: bool,
    pub auto_buy_hard_hat: bool,
    pub trap_active: bool,
    pub trap_free_today: bool,
    pub trap_date: Option<String>,
    pub insured_until: Option<i64>,
    pub revenge_target: Option<i64>,
    pub revenge_type: Option<String>,
    pub revenge_until: Option<i64>,
    pub cheer_data: Option<String>,
    pub grappling_hook_charges: i64,
    pub lantern_stub_date: Option<String>,
    pub thick_skin_date: Option<String>,
    pub mutations: Option<String>,
    pub miner_origin: String,
    pub miner_about: String,
    pub engine_mode: String,
    pub stat_boss_awards: String,
    pub stinger_curse: Option<String>,
    pub last_lum_update_at: Option<i64>,
    pub pinnacle_boss_id: Option<String>,
    pub pinnacle_phase: i64,
    pub pinnacle_hp_remaining: Option<i64>,
    pub pinnacle_last_engaged_at: Option<i64>,
    pub retreat_cooldown_until: Option<i64>,
    pub last_cheer_at: Option<i64>,
    pub cavein_free_streak: i64,
    pub relic_trim_notice: bool,
}

/// What a [`DigRuntimeTunnel`] holds.
#[verifier::ext_equal]
pub struct TunnelView {
    pub discord_id: i64,
    pub guild_id: i64,
    pub depth: i64,
    pub max_depth: i64,
    pub total_digs: i64,
    pub total_jc_earned: i64,
    pub last_dig_at: Option<i64>,
    pub luminosity: i64,
    pub tunnel_name: Seq<char>,
    pub prestige_level: i64,
    pub prestige_perks: Seq<char>,
    pub boss_progress: Seq<char>,
    pub boss_attempts: Seq<char>,
    pub route_state: Option<Seq<char>>,
    pub injury_state: Option<Seq<char>>,
    pub hard_hat_charges: i64,
    pub reinforced_until: i64,
    pub void_bait_digs: i64,
    pub sonar_skip_pending: bool,
    pub temp_buffs: Option<Seq<char>>,
    pub temp_curses: Option<Seq<char>>,
    pub stat_strength: i64,
    pub stat_smarts: i64,
    pub stat_stamina: i64,
    pub stat_points: i64,
    pub paid_digs_today: i64,
    pub paid_dig_date: Option<Seq<char>>,
    pub pickaxe_tier: i64,
    pub current_run_jc: i64,
    pub current_run_artifacts: i64,
    pub current_run_events: i64,
    pub best_run_score: i64,
    pub total_prestige_score: i64,
    pub streak_days: i64,
    pub streak_last_date: Option<Seq<char>>,
    pub auto_buy_torch: bool,
    pub auto_buy_hard_hat: bool,
    pub trap_active: bool,
    pub trap_free_today: bool,
    pub trap_date: Option<Seq<char>>,
    pub insured_until: Option<i64>,
    pub revenge_target: Option<i64>,
    pub revenge_type: Option<Seq<char>>,
    pub revenge_until: Option<i64>,
    pub cheer_data: Option<Seq<char>>,
    pub grappling_hook_charges: i64,
    pub lantern_stub_date: Option<Seq<char>>,
    pub thick_skin_date: Option<Seq<char>>,
    pub mutations: Option<Seq<char>>,
    pub miner_origin: Seq<char>,
    pub miner_about: Seq<char>,
    pub engine_mode: Seq<char>,
    pub stat_boss_awards: Seq<char>,
    pub stinger_curse: Option<Seq<char>>,
    pub last_lum_update_at: Option<i64>,
    pub pinnacle_boss_id: Option<Seq<char>>,
    pub pinnacle_phase: i64,
    pub pinnacle_hp_remaining: Option<i64>,
    pub pinnacle_last_engaged_at: Option<i64>,
    pub retreat_cooldown_until: Option<i64>,
    pub last_cheer_at: Option<i64>,
    pub cavein_free_streak: i64,
    pub relic_trim_notice: bool,
}

impl View for DigRuntimeTunnel {
    type V = TunnelView;

    open spec fn view(&self) -> TunnelView {
        TunnelView {
            discord_id: self.discord_id,
            guild_id: self.guild_id,
            depth: self.depth,
            max_depth: self.max_depth,
            total_digs: self.total_digs,
            total_jc_earned: self.total_jc_earned,
            last_dig_at: self.last_dig_at,
            luminosity: self.luminosity,
            tunnel_name: self.tunnel_name@,
            prestige_level: self.prestige_level,
            prestige_perks: self.prestige_perks@,
            boss_progress: self.boss_progress@,
            boss_attempts: self.boss_attempts@,
            route_state: text_view(self.route_state),
            injury_state: text_view(self.injury_state),
            hard_hat_charges: self.hard_hat_charges,
            reinforced_until: self.reinforced_until,
            void_bait_digs: self.void_bait_digs,
            sonar_skip_pending: self.sonar_skip_pending,
            temp_buffs: text_view(self.temp_buffs),
            temp_curses: text_view(self.temp_curses),
            stat_strength: self.stat_strength,
            stat_smarts: self.stat_smarts,
            stat_stamina: self.stat_stamina,
            stat_points: self.stat_points,
            paid_digs_today: self.paid_digs_today,
            paid_dig_date: text_view(self.paid_dig_date),
            pickaxe_tier: self.pickaxe_tier,
            current_run_jc: self.current_run_jc,
            current_run_artifacts: self.current_run_artifacts,
            current_run_events: self.current_run_events,
            best_run_score: self.best_run_score,
            total_prestige_score: self.total_prestige_score,
            streak_days: self.streak_days,
            streak_last_date: text_view(self.streak_last_date),
            auto_buy_torch: self.auto_buy_torch,
            auto_buy_hard_hat: self.auto_buy_hard_hat,
            trap_active: self.trap_active,
            trap_free_today: self.trap_free_today,
            trap_date: text_view(self.trap_date),
            insured_until: self.insured_until,
            revenge_target: self.revenge_target,
            revenge_type: text_view(self.revenge_type),
            revenge_until: self.revenge_until,
            cheer_data: text_view(self.cheer_data),
            grappling_hook_charges: self.grappling_hook_charges,
            lantern_stub_date: text_view(self.lantern_stub_date),
            thick_skin_date: text_view(self.thick_skin_date),
            mutations: text_view(self.mutations),
            miner_origin: self.miner_origin@,
            miner_about: self.miner_about@,
            engine_mode: self.engine_mode@,
            stat_boss_awards: self.stat_boss_awards@,
            stinger_curse: text_view(self.stinger_curse),
            last_lum_update_at: self.last_lum_update_at,
            pinnacle_boss_id: text_view(self.pinnacle_boss_id),
            pinnacle_phase: self.pinnacle_phase,
            pinnacle_hp_remaining: self.pinnacle_hp_remaining,
            pinnacle_last_engaged_at: self.pinnacle_last_engaged_at,
            retreat_cooldown_until: self.retreat_cooldown_until,
            last_cheer_at: self.last_cheer_at,
            cavein_free_streak: self.cavein_free_streak,
            relic_trim_notice: self.relic_trim_notice,
        }
    }
}

impl Clone for DigRuntimeTunnel {
    fn clone(&self) -> (copy: DigRuntimeTunnel)
        ensures
            copy == *self,
    {
        DigRuntimeTunnel {
            discord_id: self.discord_id,
            guild_id: self.guild_id,
            depth: self.depth,
            max_depth: self.max_depth,
            total_digs: self.total_digs,
            total_jc_earned: self.total_jc_earned,
            last_dig_at: self.last_dig_at,
            luminosity: self.luminosity,
            tunnel_name: self.tunnel_name.clone(),
            prestige_level: self.prestige_level,
            prestige_perks: self.prestige_perks.clone(),
            boss_progress: self.boss_progress.clone(),
            boss_attempts: self.boss_attempts.clone(),
            route_state: copy_text(&self.route_state),
            injury_state: copy_text(&self.injury_state),
            hard_hat_charges: self.hard_hat_charges,
            reinforced_until: self.reinforced_until,
            void_bait_digs: self.void_bait_digs,
            sonar_skip_pending: self.sonar_skip_pending,
            temp_buffs: copy_text(&self.temp_buffs),
            temp_curses: copy_text(&self.temp_curses),
            stat_strength: self.stat_strength,
            stat_smarts: self.stat_smarts,
            stat_stamina: self.stat_stamina,
            stat_points: self.stat_points,
            paid_digs_today: self.paid_digs_today,
            paid_dig_date: copy_text(&self.paid_dig_date),
            pickaxe_tier: self.pickaxe_tier,
            current_run_jc: self.current_run_jc,
            current_run_artifacts: self.current_run_artifacts,
            current_run_events: self.current_run_events,
            best_run_score: self.best_run_score,
            total_prestige_score: self.total_prestige_score,
            streak_days: self.streak_days,
            streak_last_date: copy_text(&self.streak_last_date),
            auto_buy_torch: self.auto_buy_torch,
            auto_buy_hard_hat: self.auto_buy_hard_hat,
            trap_active: self.trap_active,
            trap_free_today: self.trap_free_today,
            trap_date: copy_text(&self.trap_date),
            insured_until: self.insured_until,
            revenge_target: self.revenge_target,
            revenge_type: copy_text(&self.revenge_type),
            revenge_until: self.revenge_until,
            cheer_data: copy_text(&self.cheer_data),
            grappling_hook_charges: self.grappling_hook_charges,
            lantern_stub_date: copy_text(&self.lantern_stub_date),
            thick_skin_date: copy_text(&self.thick_skin_date),
            mutations: copy_text(&self.mutations),
            miner_origin: self.miner_origin.clone(),
            miner_about: self.miner_about.clone(),
            engine_mode: self.engine_mode.clone(),
            stat_boss_awards: self.stat_boss_awards.clone(),
            stinger_curse: copy_text(&self.stinger_curse),
            last_lum_update_at: self.last_lum_update_at,
            pinnacle_boss_id: copy_text(&self.pinnacle_boss_id),
            pinnacle_phase: self.pinnacle_phase,
            pinnacle_hp_remaining: self.pinnacle_hp_remaining,
            pinnacle_last_engaged_at: self.pinnacle_last_engaged_at,
            retreat_cooldown_until: self.retreat_cooldown_until,
            last_cheer_at: self.last_cheer_at,
            cavein_free_streak: self.cavein_free_streak,
            relic_trim_notice: self.relic_trim_notice,
        }
    }
}

/// One consistent read of the player, tunnel, inventory and artifacts.
#[derive(Debug, PartialEq, Eq)]
pub struct DigRuntimeSnapshot {
    pub registered: bool,
    pub balance: i64,
    pub tunnel: Option<DigRuntimeTunnel>,
    pub inventory: Vec<DigRuntimeInventoryItem>,
    pub artifacts: Vec<DigRuntimeArtifact>,
    pub gear: Vec<DigRuntimeGear>,
    pub weather: Vec<DigRuntimeWeather>,
}

/// What a [`DigRuntimeSnapshot`] holds.
#[verifier::ext_equal]
pub struct SnapshotView {
    pub registered: bool,
    pub balance: i64,
    pub tunnel: Option<TunnelView>,
    pub inventory: Seq<ItemView>,
    pub artifacts: Seq<ArtifactView>,
    pub gear: Seq<GearView>,
    pub weather: Seq<WeatherView>,
}

impl View for DigRuntimeSnapshot {
    type V = SnapshotView;

    open spec fn view(&self) -> SnapshotView {
        SnapshotView {
            registered: self.registered,
            balance: self.balance,
            tunnel: match self.tunnel { Some(x) => Some(x@), None => None },
            inventory: self.inventory@.map_values(|x: DigRuntimeInventoryItem| x@),
            artifacts: self.artifacts@.map_values(|x: DigRuntimeArtifact| x@),
            gear: self.gear@.map_values(|x: DigRuntimeGear| x@),
            weather: self.weather@.map_values(|x: DigRuntimeWeather| x@),
        }
    }
}

impl Clone for DigRuntimeSnapshot {
    fn clone(&self) -> (copy: DigRuntimeSnapshot)
        ensures
            copy@ == self@,
    {
        let copy = DigRuntimeSnapshot {
            registered: self.registered,
            balance: self.balance,
            tunnel: self.tunnel.clone(),
            inventory: self.inventory.clone(),
            artifacts: self.artifacts.clone(),
            gear: self.gear.clone(),
            weather: self.weather.clone(),
        };
        assert(copy@ =~= self@);
        copy
    }
}

/// Strength, smarts and stamina with the points earned so far.
#[derive(Clone, Copy, Debug, PartialEq, Eq, Structural)]
pub struct MinerAllocation {
    pub strength: i64,
    pub smarts: i64,
    pub stamina: i64,
    pub stat_points: i64,
}

/// A tunnel that was never dug.
pub open spec fn new_tunnel(discord_id: i64, guild_id: i64) -> TunnelView {
    TunnelView {
        discord_id: discord_id,
        guild_id: guild_id,
        depth: 0,
        max_depth: 0,
        total_digs: 0,
        total_jc_earned: 0,
        last_dig_at: None,
        luminosity: 100,
        tunnel_name: "Miner "@ + int_text(discord_id as int),
        prestige_level: 0,
        prestige_perks: "[]"@,
        boss_progress: "{}"@,
        boss_attempts: "{}"@,
        route_state: None,
        injury_state: None,
        hard_hat_charges: 0,
        reinforced_until: 0,
        void_bait_digs: 0,
        sonar_skip_pending: false,
        temp_buffs: None,
        temp_curses: None,
        stat_strength: 0,
        stat_smarts: 0,
        stat_stamina: 0,
        stat_points: 5,
        paid_digs_today: 0,
        paid_dig_date: None,
        pickaxe_tier: 0,
        current_run_jc: 0,
        current_run_artifacts: 0,
        current_run_events: 0,
        best_run_score: 0,
        total_prestige_score: 0,
        streak_days: 0,
        streak_last_date: None,
        auto_buy_torch: false,
        auto_buy_hard_hat: false,
        trap_active: false,
        trap_free_today: true,
        trap_date: None,
        insured_until: None,
        revenge_target: None,
        revenge_type: None,
        revenge_until: None,
        cheer_data: None,
        grappling_hook_charges: 0,
        lantern_stub_date: None,
        thick_skin_date: None,
        mutations: None,
        miner_origin: Seq::empty(),
        miner_about: Seq::empty(),
        engine_mode: "legacy"@,
        stat_boss_awards: "[]"@,
        stinger_curse: None,
        last_lum_update_at: None,
        pinnacle_boss_id: None,
        pinnacle_phase: 0,
        pinnacle_hp_remaining: None,
        pinnacle_last_engaged_at: None,
        retreat_cooldown_until: None,
        last_cheer_at: None,
        cavein_free_streak: 0,
        relic_trim_notice: false,
    }
}

/// A registered player whose tunnel was never dug.
pub open spec fn fresh_snapshot(discord_id: i64, guild_id: i64, balance: i64) -> SnapshotView {
    SnapshotView {
        registered: true,
        balance,
        tunnel: Some(new_tunnel(discord_id, guild_id)),
        inventory: Seq::empty(),
        artifacts: Seq::empty(),
        gear: Seq::empty(),
        weather: Seq::empty(),
    }
}

impl DigRuntimeTunnel {
    /// The tunnel of a miner who has not dug yet.
    pub fn new(discord_id: i64, guild_id: i64, _now: i64) -> (tunnel: DigRuntimeTunnel)
        ensures
            tunnel@ == new_tunnel(discord_id, guild_id),
    {
        let tunnel = DigRuntimeTunnel {
            discord_id,
            guild_id,
            depth: 0,
            max_depth: 0,
            total_digs: 0,
            total_jc_earned: 0,
            last_dig_at: None,
            luminosity: 100,
            tunnel_name: join2("Miner ", integer_text(discord_id).as_str()),
            prestige_level: 0,
            prestige_perks: "[]".to_owned(),
            boss_progress: "{}".to_owned(),
            boss_attempts: "{}".to_owned(),
            route_state: None,
            injury_state: None,
            hard_hat_charges: 0,
            reinforced_until: 0,
            void_bait_digs: 0,
            sonar_skip_pending: false,
            temp_buffs: None,
            temp_curses: None,
            stat_strength: 0,
            stat_smarts: 0,
            stat_stamina: 0,
            stat_points: 5,
            paid_digs_today: 0,
            paid_dig_date: None,
            pickaxe_tier: 0,
            current_run_jc: 0,
            current_run_artifacts: 0,
            current_run_events: 0,
            best_run_score: 0,
            total_prestige_score: 0,
            streak_days: 0,
            streak_last_date: None,
            auto_buy_torch: false,
            auto_buy_hard_hat: false,
            trap_active: false,
            trap_free_today: true,
            trap_date: None,
            insured_until: None,
            revenge_target: None,
            revenge_type: None,
            revenge_until: None,
            cheer_data: None,
            grappling_hook_charges: 0,
            lantern_stub_date: None,
            thick_skin_date: None,
            mutations: None,
            miner_origin: String::new(),
            miner_about: String::new(),
            engine_mode: "legacy".to_owned(),
            stat_boss_awards: "[]".to_owned(),
            stinger_curse: None,
            last_lum_update_at: None,
            pinnacle_boss_id: None,
            pinnacle_phase: 0,
            pinnacle_hp_remaining: None,
            pinnacle_last_engaged_at: None,
            retreat_cooldown_until: None,
            last_cheer_at: None,
            cavein_free_streak: 0,
            relic_trim_notice: false,
        };
        assert(tunnel@ =~= new_tunnel(discord_id, guild_id));
        tunnel
    }

    /// The miner statistics of this tunnel, a negative column reading as zero.
    pub fn stats(&self) -> (stats: MinerAllocation)
        ensures
            stats.strength == larger(self.stat_strength, 0),
            stats.smarts == larger(self.stat_smarts, 0),
            stats.stamina == larger(self.stat_stamina, 0),
            stats.stat_points == larger(self.stat_points, 0),
    {
        MinerAllocation {
            strength: max_of(self.stat_strength, 0),
            smarts: max_of(self.stat_smarts, 0),
            stamina: max_of(self.stat_stamina, 0),
            stat_points: max_of(self.stat_points, 0),
        }
    }
}

impl DigRuntimeSnapshot {
    /// A registered player with a new tunnel and nothing else.
    pub fn fresh(discord_id: i64, guild_id: i64, balance: i64, now: i64) -> (snapshot:
        DigRuntimeSnapshot)
        ensures
            snapshot@ == fresh_snapshot(discord_id, guild_id, balance),
    {
        let snapshot = DigRuntimeSnapshot {
            registered: true,
            balance,
            tunnel: Some(DigRuntimeTunnel::new(discord_id, guild_id, now)),
            inventory: Vec::new(),
            artifacts: Vec::new(),
            gear: Vec::new(),
            weather: Vec::new(),
        };
        assert(snapshot@ =~= fresh_snapshot(discord_id, guild_id, balance));
        snapshot
    }
}

} // verus!
