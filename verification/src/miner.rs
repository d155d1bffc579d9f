//! The miner profile: what is asked of the store, and how its answer is told.

use crate::arith::{larger, max_of, nearest, sat_add, sat_sub};
use crate::awards::{awards_boss, stat_boss_awards, DIG_STARTING_STAT_POINTS};
use crate::sorted::is_ascending;
use crate::text::{
    blank, borrow_text, copy_text, int_text, integer_text, is_blank, join2, join3, join5, text_view,
};
use vstd::prelude::*;

verus! {

/// Characters that a miner backstory can have.
pub const MINER_BACKSTORY_MAX_LENGTH: usize = 500;

/// What a respec costs.
pub const MINER_RESPEC_COST: i64 = 50;

/// The columns of a tunnel that the profile reads.
#[derive(Debug, PartialEq, Eq)]
pub struct DigMinerTunnelSnapshot {
    pub tunnel_name: String,
    /// The backstory, empty until it is set.
    pub miner_about: String,
    pub prestige_level: i64,
    pub stat_strength: i64,
    pub stat_smarts: i64,
    pub stat_stamina: i64,
    pub stat_points: i64,
    pub stat_boss_awards_json: Option<String>,
    pub auto_buy_torch: bool,
    pub auto_buy_hard_hat: bool,
    pub auto_buy_grappling_hook: bool,
}

/// What a [`DigMinerTunnelSnapshot`] holds.
#[verifier::ext_equal]
pub struct MinerTunnelView {
    pub tunnel_name: Seq<char>,
    pub miner_about: Seq<char>,
    pub prestige_level: i64,
    pub stat_strength: i64,
    pub stat_smarts: i64,
    pub stat_stamina: i64,
    pub stat_points: i64,
    pub stat_boss_awards_json: Option<Seq<char>>,
    pub auto_buy_torch: bool,
    pub auto_buy_hard_hat: bool,
    pub auto_buy_grappling_hook: bool,
}

impl View for DigMinerTunnelSnapshot {
    type V = MinerTunnelView;

    open spec fn view(&self) -> MinerTunnelView {
        MinerTunnelView {
            tunnel_name: self.tunnel_name@,
            miner_about: self.miner_about@,
            prestige_level: self.prestige_level,
            stat_strength: self.stat_strength,
            stat_smarts: self.stat_smarts,
            stat_stamina: self.stat_stamina,
            stat_points: self.stat_points,
            stat_boss_awards_json: text_view(self.stat_boss_awards_json),
            auto_buy_torch: self.auto_buy_torch,
            auto_buy_hard_hat: self.auto_buy_hard_hat,
            auto_buy_grappling_hook: self.auto_buy_grappling_hook,
        }
    }
}

impl Clone for DigMinerTunnelSnapshot {
    fn clone(&self) -> (copy: DigMinerTunnelSnapshot)
        ensures
            copy == *self,
    {
        DigMinerTunnelSnapshot {
            tunnel_name: self.tunnel_name.clone(),
            miner_about: self.miner_about.clone(),
            prestige_level: self.prestige_level,
            stat_strength: self.stat_strength,
            stat_smarts: self.stat_smarts,
            stat_stamina: self.stat_stamina,
            stat_points: self.stat_points,
            stat_boss_awards_json: copy_text(&self.stat_boss_awards_json),
            auto_buy_torch: self.auto_buy_torch,
            auto_buy_hard_hat: self.auto_buy_hard_hat,
            auto_buy_grappling_hook: self.auto_buy_grappling_hook,
        }
    }
}

/// What the store knows of a miner.
#[derive(Debug, PartialEq, Eq)]
pub struct DigMinerSnapshot {
    pub player_exists: bool,
    pub tunnel: Option<DigMinerTunnelSnapshot>,
}

/// What a [`DigMinerSnapshot`] holds.
#[verifier::ext_equal]
pub struct MinerSnapshotView {
    pub player_exists: bool,
    pub tunnel: Option<MinerTunnelView>,
}

impl View for DigMinerSnapshot {
    type V = MinerSnapshotView;

    open spec fn view(&self) -> MinerSnapshotView {
        MinerSnapshotView {
            player_exists: self.player_exists,
            tunnel: match self.tunnel { Some(x) => Some(x@), None => None },
        }
    }
}

/// A miner's stats.
#[derive(Clone, Copy, Debug, PartialEq, Eq, Structural)]
pub struct DigMinerStats {
    pub strength: i64,
    pub smarts: i64,
    pub stamina: i64,
    pub stat_points: i64,
    pub spent_points: i64,
    pub unspent_points: i64,
}

/// Which items a miner buys automatically.
#[derive(Clone, Copy, Debug, PartialEq, Eq, Structural)]
pub struct DigMinerAutoBuy {
    pub torch: bool,
    pub hard_hat: bool,
    pub grappling_hook: bool,
}

/// A change of the automatic purchases; an absent setting stays as it is.
#[derive(Clone, Copy, Debug, PartialEq, Eq)]
pub struct DigMinerAutoBuyUpdate {
    pub torch: Option<bool>,
    pub hard_hat: Option<bool>,
    pub grappling_hook: Option<bool>,
}

/// Points to spend.
#[derive(Clone, Copy, Debug, PartialEq, Eq, Structural)]
pub struct DigMinerAllocation {
    pub strength: i64,
    pub smarts: i64,
    pub stamina: i64,
}

/// A miner profile. The effects of the stats are worked out by its reader.
#[derive(Debug, PartialEq, Eq)]
pub struct DigMinerProfile {
    pub tunnel_name: String,
    pub backstory: String,
    pub stats: DigMinerStats,
    /// Bosses that awarded a stat point this prestige, in ascending order.
    pub awarded_bosses: Vec<i64>,
    pub auto_buy: DigMinerAutoBuy,
}

/// A finished respec.
#[derive(Clone, Copy, Debug, PartialEq, Eq, Structural)]
pub struct DigMinerRespecResult {
    pub cost: i64,
    pub returned_points: i64,
    pub stats: DigMinerStats,
    pub action_id: i64,
}

/// How the store answered a change.
#[derive(Clone, Copy, Debug, PartialEq, Eq, Structural)]
pub enum DigMinerMutationStatus {
    Applied,
    Locked,
    Conflict,
    MissingPlayer,
    InsufficientPoints,
    NoAllocatedPoints,
    InsufficientBalance,
}

/// Why a miner action was turned away.
#[derive(Debug, PartialEq, Eq)]
pub enum DigMinerRuntimeError {
    MissingPlayer,
    BackstoryLocked,
    MissingBackstory,
    NegativeStats,
    EmptyAllocation,
    InsufficientPoints { requested: i64, available: i64 },
    MissingAutoBuySetting,
    NoAllocatedPoints,
    InsufficientRespecBalance,
    Conflict,
    /// The store failed, in its own words.
    Repository(String),
    InvalidState(String),
}

/// What a [`DigMinerRuntimeError`] says.
pub enum MinerErrorView {
    MissingPlayer,
    BackstoryLocked,
    MissingBackstory,
    NegativeStats,
    EmptyAllocation,
    InsufficientPoints { requested: i64, available: i64 },
    MissingAutoBuySetting,
    NoAllocatedPoints,
    InsufficientRespecBalance,
    Conflict,
    Repository(Seq<char>),
    InvalidState(Seq<char>),
}

impl View for DigMinerRuntimeError {
    type V = MinerErrorView;

    open spec fn view(&self) -> MinerErrorView {
        match *self {
            DigMinerRuntimeError::MissingPlayer => MinerErrorView::MissingPlayer,
            DigMinerRuntimeError::BackstoryLocked => MinerErrorView::BackstoryLocked,
            DigMinerRuntimeError::MissingBackstory => MinerErrorView::MissingBackstory,
            DigMinerRuntimeError::NegativeStats => MinerErrorView::NegativeStats,
            DigMinerRuntimeError::EmptyAllocation => MinerErrorView::EmptyAllocation,
            DigMinerRuntimeError::InsufficientPoints { requested, available } => {
                MinerErrorView::InsufficientPoints { requested, available }
            },
            DigMinerRuntimeError::MissingAutoBuySetting => MinerErrorView::MissingAutoBuySetting,
            DigMinerRuntimeError::NoAllocatedPoints => MinerErrorView::NoAllocatedPoints,
            DigMinerRuntimeError::InsufficientRespecBalance => {
                MinerErrorView::InsufficientRespecBalance
            },
            DigMinerRuntimeError::Conflict => MinerErrorView::Conflict,
            DigMinerRuntimeError::Repository(text) => MinerErrorView::Repository(text@),
            DigMinerRuntimeError::InvalidState(text) => MinerErrorView::InvalidState(text@),
        }
    }
}

impl MinerErrorView {
    /// The message of an error.
    pub open spec fn text(self) -> Seq<char> {
        match self {
            MinerErrorView::MissingPlayer => {
                "You need to register first. Use /player register."@
            },
            MinerErrorView::BackstoryLocked => {
                "Your miner backstory is already set and cannot be changed."@
            },
            MinerErrorView::MissingBackstory => "Provide a backstory to lock in."@,
            MinerErrorView::NegativeStats => "S stats cannot be negative."@,
            MinerErrorView::EmptyAllocation => "Spend at least one point."@,
            MinerErrorView::InsufficientPoints { requested, available } => "That spends "@
                + int_text(requested as int) + " points, but you only have "@ + int_text(
                available as int,
            ) + " unspent."@,
            MinerErrorView::MissingAutoBuySetting => {
                "Choose at least one auto-buy setting to update."@
            },
            MinerErrorView::NoAllocatedPoints => {
                "You don't have any allocated S points to reset."@
            },
            MinerErrorView::InsufficientRespecBalance => {
                "You need 50 JC to respec your S points."@
            },
            MinerErrorView::Conflict => {
                "That miner profile changed while this action was processing. Try again."@
            },
            MinerErrorView::Repository(text) => text,
            MinerErrorView::InvalidState(text) => "invalid Dig miner state: "@ + text,
        }
    }
}

impl DigMinerRuntimeError {
    /// The message of this error.
    pub fn message(&self) -> (text: String)
        ensures
            text@ == self@.text(),
    {
        match self {
            DigMinerRuntimeError::MissingPlayer => {
                "You need to register first. Use /player register.".to_owned()
            },
            DigMinerRuntimeError::BackstoryLocked => {
                "Your miner backstory is already set and cannot be changed.".to_owned()
            },
            DigMinerRuntimeError::MissingBackstory => {
                "Provide a backstory to lock in.".to_owned()
            },
            DigMinerRuntimeError::NegativeStats => "S stats cannot be negative.".to_owned(),
            DigMinerRuntimeError::EmptyAllocation => "Spend at least one point.".to_owned(),
            DigMinerRuntimeError::InsufficientPoints { requested, available } => join5(
                "That spends ",
                integer_text(*requested).as_str(),
                " points, but you only have ",
                integer_text(*available).as_str(),
                " unspent.",
            ),
            DigMinerRuntimeError::MissingAutoBuySetting => {
                "Choose at least one auto-buy setting to update.".to_owned()
            },
            DigMinerRuntimeError::NoAllocatedPoints => {
                "You don't have any allocated S points to reset.".to_owned()
            },
            DigMinerRuntimeError::InsufficientRespecBalance => {
                "You need 50 JC to respec your S points.".to_owned()
            },
            DigMinerRuntimeError::Conflict => {
                "That miner profile changed while this action was processing. Try again.".to_owned()
            },
            DigMinerRuntimeError::Repository(text) => text.clone(),
            DigMinerRuntimeError::InvalidState(text) => {
                join2("invalid Dig miner state: ", text.as_str())
            },
        }
    }
}

/// The name of a status.
pub open spec fn status_word(status: DigMinerMutationStatus) -> Seq<char> {
    match status {
        DigMinerMutationStatus::Applied => "Applied"@,
        DigMinerMutationStatus::Locked => "Locked"@,
        DigMinerMutationStatus::Conflict => "Conflict"@,
        DigMinerMutationStatus::MissingPlayer => "MissingPlayer"@,
        DigMinerMutationStatus::InsufficientPoints => "InsufficientPoints"@,
        DigMinerMutationStatus::NoAllocatedPoints => "NoAllocatedPoints"@,
        DigMinerMutationStatus::InsufficientBalance => "InsufficientBalance"@,
    }
}

/// The error about a status that does not answer a change.
pub open spec fn unexpected(context: Seq<char>, status: DigMinerMutationStatus) -> MinerErrorView {
    MinerErrorView::InvalidState("unexpected "@ + context + " status "@ + status_word(status))
}

/// Makes the error about a status that does not answer a change.
pub fn unexpected_status(context: &str, status: DigMinerMutationStatus) -> (error:
    DigMinerRuntimeError)
    ensures
        error@ == unexpected(context@, status),
{
    let word = match status {
        DigMinerMutationStatus::Applied => "Applied",
        DigMinerMutationStatus::Locked => "Locked",
        DigMinerMutationStatus::Conflict => "Conflict",
        DigMinerMutationStatus::MissingPlayer => "MissingPlayer",
        DigMinerMutationStatus::InsufficientPoints => "InsufficientPoints",
        DigMinerMutationStatus::NoAllocatedPoints => "NoAllocatedPoints",
        DigMinerMutationStatus::InsufficientBalance => "InsufficientBalance",
    };
    DigMinerRuntimeError::InvalidState(join2(join3("unexpected ", context, " status ").as_str(), word))
}

/// The stats that a tunnel has. Negative stats count as none, and every miner
/// has the starting points.
pub open spec fn miner_stats(tunnel: MinerTunnelView) -> DigMinerStats {
    let strength = larger(tunnel.stat_strength, 0);
    let smarts = larger(tunnel.stat_smarts, 0);
    let stamina = larger(tunnel.stat_stamina, 0);
    let stat_points = larger(tunnel.stat_points, DIG_STARTING_STAT_POINTS);
    let spent_points = nearest(nearest(strength + smarts) + stamina);
    DigMinerStats {
        strength,
        smarts,
        stamina,
        stat_points,
        spent_points,
        unspent_points: larger(nearest(stat_points - spent_points), 0),
    }
}

/// Reads the stats of a tunnel.
pub fn stats_from_tunnel(tunnel: &DigMinerTunnelSnapshot) -> (stats: DigMinerStats)
    ensures
        stats == miner_stats(tunnel@),
{
    let strength = max_of(tunnel.stat_strength, 0);
    let smarts = max_of(tunnel.stat_smarts, 0);
    let stamina = max_of(tunnel.stat_stamina, 0);
    let stat_points = max_of(tunnel.stat_points, DIG_STARTING_STAT_POINTS);
    let spent_points = sat_add(sat_add(strength, smarts), stamina);
    DigMinerStats {
        strength,
        smarts,
        stamina,
        stat_points,
        spent_points,
        unspent_points: max_of(sat_sub(stat_points, spent_points), 0),
    }
}

/// Whether a profile is that of a tunnel.
pub open spec fn is_profile(profile: DigMinerProfile, tunnel: MinerTunnelView) -> bool {
    &&& profile.tunnel_name@ == tunnel.tunnel_name
    &&& profile.backstory@ == tunnel.miner_about
    &&& profile.stats == miner_stats(tunnel)
    &&& is_ascending(profile.awarded_bosses@)
    &&& forall|boss: i64| #[trigger]
        profile.awarded_bosses@.contains(boss) <==> awards_boss(
            tunnel.stat_boss_awards_json,
            tunnel.prestige_level,
            boss,
        )
    &&& profile.auto_buy == (DigMinerAutoBuy {
        torch: tunnel.auto_buy_torch,
        hard_hat: tunnel.auto_buy_hard_hat,
        grappling_hook: tunnel.auto_buy_grappling_hook,
    })
}

/// Whether an answer is the profile of a snapshot, or says that there is no
/// tunnel to have one.
pub open spec fn answers_profile(
    answer: Result<DigMinerProfile, DigMinerRuntimeError>,
    snapshot: MinerSnapshotView,
) -> bool {
    match snapshot.tunnel {
        Some(tunnel) => answer matches Ok(profile) && is_profile(profile, tunnel),
        None => answer matches Err(error) && error@ == MinerErrorView::InvalidState(
            "missing profile tunnel"@,
        ),
    }
}

/// Makes the profile of a snapshot.
pub fn profile_from_snapshot(snapshot: &DigMinerSnapshot) -> (answer: Result<
    DigMinerProfile,
    DigMinerRuntimeError,
>)
    ensures
        answers_profile(answer, snapshot@),
{
    match &snapshot.tunnel {
        Some(tunnel) => Ok(
            DigMinerProfile {
                tunnel_name: tunnel.tunnel_name.clone(),
                backstory: tunnel.miner_about.clone(),
                stats: stats_from_tunnel(tunnel),
                awarded_bosses: stat_boss_awards(
                    borrow_text(&tunnel.stat_boss_awards_json),
                    tunnel.prestige_level,
                ),
                auto_buy: DigMinerAutoBuy {
                    torch: tunnel.auto_buy_torch,
                    hard_hat: tunnel.auto_buy_hard_hat,
                    grappling_hook: tunnel.auto_buy_grappling_hook,
                },
            },
        ),
        None => Err(DigMinerRuntimeError::InvalidState("missing profile tunnel".to_owned())),
    }
}

/// Decides whether a tunnel has to be created before a profile can be read.
pub fn needs_tunnel(snapshot: &DigMinerSnapshot) -> (answer: Result<bool, DigMinerRuntimeError>)
    ensures
        match answer {
            Ok(missing) => snapshot@.player_exists && missing == snapshot@.tunnel is None,
            Err(error) => !snapshot@.player_exists && error@ == MinerErrorView::MissingPlayer,
        },
{
    if !snapshot.player_exists {
        Err(DigMinerRuntimeError::MissingPlayer)
    } else {
        Ok(snapshot.tunnel.is_none())
    }
}

/// Decides what the answer to creating a tunnel means.
pub fn creation_answer(status: DigMinerMutationStatus) -> (answer: Result<
    (),
    DigMinerRuntimeError,
>)
    ensures
        match answer {
            Ok(_) => status == DigMinerMutationStatus::Applied,
            Err(error) => status != DigMinerMutationStatus::Applied && error@ == (if status
                == DigMinerMutationStatus::MissingPlayer {
                MinerErrorView::MissingPlayer
            } else {
                unexpected("profile creation"@, status)
            }),
        },
{
    match status {
        DigMinerMutationStatus::Applied => Ok(()),
        DigMinerMutationStatus::MissingPlayer => Err(DigMinerRuntimeError::MissingPlayer),
        _ => Err(unexpected_status("profile creation", status)),
    }
}

/// What stands against locking in a backstory.
pub open spec fn backstory_obstacle(snapshot: MinerSnapshotView, sanitized: Seq<char>) -> Option<
    MinerErrorView,
> {
    match snapshot.tunnel {
        None => Some(MinerErrorView::InvalidState("missing ensured tunnel"@)),
        Some(tunnel) => if !blank(tunnel.miner_about) {
            Some(MinerErrorView::BackstoryLocked)
        } else if sanitized.len() == 0 {
            Some(MinerErrorView::MissingBackstory)
        } else {
            None
        },
    }
}

/// Decides whether a backstory can be locked in. `sanitized` is what is left
/// of it once it is cleaned up.
pub fn check_backstory(snapshot: &DigMinerSnapshot, sanitized: &str) -> (answer: Result<
    (),
    DigMinerRuntimeError,
>)
    ensures
        match answer {
            Ok(_) => backstory_obstacle(snapshot@, sanitized@) is None,
            Err(error) => backstory_obstacle(snapshot@, sanitized@) == Some(error@),
        },
{
    match &snapshot.tunnel {
        None => Err(DigMinerRuntimeError::InvalidState("missing ensured tunnel".to_owned())),
        Some(tunnel) => {
            if !is_blank(tunnel.miner_about.as_str()) {
                Err(DigMinerRuntimeError::BackstoryLocked)
            } else if sanitized.unicode_len() == 0 {
                Err(DigMinerRuntimeError::MissingBackstory)
            } else {
                Ok(())
            }
        },
    }
}

/// Tells the answer to locking in a backstory.
pub fn backstory_answer(status: DigMinerMutationStatus, snapshot: &DigMinerSnapshot) -> (answer:
    Result<DigMinerProfile, DigMinerRuntimeError>)
    ensures
        status == DigMinerMutationStatus::Applied ==> answers_profile(answer, snapshot@),
        status != DigMinerMutationStatus::Applied ==> (answer matches Err(error) && error@ == (
        match status {
            DigMinerMutationStatus::Locked => MinerErrorView::BackstoryLocked,
            DigMinerMutationStatus::Conflict => MinerErrorView::Conflict,
            DigMinerMutationStatus::MissingPlayer => MinerErrorView::MissingPlayer,
            _ => unexpected("backstory"@, status),
        })),
{
    match status {
        DigMinerMutationStatus::Applied => profile_from_snapshot(snapshot),
        DigMinerMutationStatus::Locked => Err(DigMinerRuntimeError::BackstoryLocked),
        DigMinerMutationStatus::Conflict => Err(DigMinerRuntimeError::Conflict),
        DigMinerMutationStatus::MissingPlayer => Err(DigMinerRuntimeError::MissingPlayer),
        _ => Err(unexpected_status("backstory", status)),
    }
}

/// The points that an allocation spends.
pub open spec fn allocation_total(allocation: DigMinerAllocation) -> i64 {
    nearest(nearest(allocation.strength + allocation.smarts) + allocation.stamina)
}

/// What stands against spending points.
pub open spec fn allocation_obstacle(
    snapshot: MinerSnapshotView,
    allocation: DigMinerAllocation,
) -> Option<MinerErrorView> {
    if allocation.strength < 0 || allocation.smarts < 0 || allocation.stamina < 0 {
        Some(MinerErrorView::NegativeStats)
    } else if allocation_total(allocation) == 0 {
        Some(MinerErrorView::EmptyAllocation)
    } else {
        match snapshot.tunnel {
            None => Some(MinerErrorView::InvalidState("missing ensured tunnel"@)),
            Some(tunnel) => if allocation_total(allocation) > miner_stats(tunnel).unspent_points {
                Some(
                    MinerErrorView::InsufficientPoints {
                        requested: allocation_total(allocation),
                        available: miner_stats(tunnel).unspent_points,
                    },
                )
            } else {
                None
            },
        }
    }
}

/// Decides whether points can be spent, and how many that spends.
pub fn check_allocation(snapshot: &DigMinerSnapshot, allocation: DigMinerAllocation) -> (answer:
    Result<i64, DigMinerRuntimeError>)
    ensures
        match answer {
            Ok(requested) => allocation_obstacle(snapshot@, allocation) is None && requested
                == allocation_total(allocation),
            Err(error) => allocation_obstacle(snapshot@, allocation) == Some(error@),
        },
{
    if allocation.strength < 0 || allocation.smarts < 0 || allocation.stamina < 0 {
        return Err(DigMinerRuntimeError::NegativeStats);
    }
    let requested = sat_add(sat_add(allocation.strength, allocation.smarts), allocation.stamina);
    if requested == 0 {
        return Err(DigMinerRuntimeError::EmptyAllocation);
    }
    match &snapshot.tunnel {
        None => Err(DigMinerRuntimeError::InvalidState("missing ensured tunnel".to_owned())),
        Some(tunnel) => {
            let available = stats_from_tunnel(tunnel).unspent_points;
            if requested > available {
                Err(DigMinerRuntimeError::InsufficientPoints { requested, available })
            } else {
                Ok(requested)
            }
        },
    }
}

/// The unspent points of a snapshot.
pub open spec fn unspent_of(snapshot: MinerSnapshotView) -> i64 {
    match snapshot.tunnel {
        Some(tunnel) => miner_stats(tunnel).unspent_points,
        None => 0,
    }
}

/// Tells the answer to spending points.
pub fn allocation_answer(
    status: DigMinerMutationStatus,
    snapshot: &DigMinerSnapshot,
    requested: i64,
) -> (answer: Result<DigMinerProfile, DigMinerRuntimeError>)
    ensures
        status == DigMinerMutationStatus::Applied ==> answers_profile(answer, snapshot@),
        status != DigMinerMutationStatus::Applied ==> (answer matches Err(error) && error@ == (
        match status {
            DigMinerMutationStatus::InsufficientPoints => MinerErrorView::InsufficientPoints {
                requested,
                available: unspent_of(snapshot@),
            },
            DigMinerMutationStatus::Conflict => MinerErrorView::Conflict,
            _ => unexpected("stat allocation"@, status),
        })),
{
    match status {
        DigMinerMutationStatus::Applied => profile_from_snapshot(snapshot),
        DigMinerMutationStatus::InsufficientPoints => {
            let available = match &snapshot.tunnel {
                Some(tunnel) => stats_from_tunnel(tunnel).unspent_points,
                None => 0,
            };
            Err(DigMinerRuntimeError::InsufficientPoints { requested, available })
        },
        DigMinerMutationStatus::Conflict => Err(DigMinerRuntimeError::Conflict),
        _ => Err(unexpected_status("stat allocation", status)),
    }
}

/// Decides whether a change of the automatic purchases changes torches or hard
/// hats; a grappling hook alone is not asked for.
pub fn check_auto_buy(update: DigMinerAutoBuyUpdate) -> (answer: Result<(), DigMinerRuntimeError>)
    ensures
        match answer {
            Ok(_) => update.torch is Some || update.hard_hat is Some,
            Err(error) => update.torch is None && update.hard_hat is None && error@
                == MinerErrorView::MissingAutoBuySetting,
        },
{
    if update.torch.is_none() && update.hard_hat.is_none() {
        Err(DigMinerRuntimeError::MissingAutoBuySetting)
    } else {
        Ok(())
    }
}

/// Tells the answer to a change of the automatic purchases.
pub fn auto_buy_answer(status: DigMinerMutationStatus, snapshot: &DigMinerSnapshot) -> (answer:
    Result<DigMinerProfile, DigMinerRuntimeError>)
    ensures
        status == DigMinerMutationStatus::Applied ==> answers_profile(answer, snapshot@),
        status != DigMinerMutationStatus::Applied ==> (answer matches Err(error) && error@ == (
        if status == DigMinerMutationStatus::Conflict {
            MinerErrorView::Conflict
        } else {
            unexpected("auto-buy"@, status)
        })),
{
    match status {
        DigMinerMutationStatus::Applied => profile_from_snapshot(snapshot),
        DigMinerMutationStatus::Conflict => Err(DigMinerRuntimeError::Conflict),
        _ => Err(unexpected_status("auto-buy", status)),
    }
}

/// What stands against a respec.
pub open spec fn respec_obstacle(snapshot: MinerSnapshotView) -> Option<MinerErrorView> {
    if !snapshot.player_exists {
        Some(MinerErrorView::MissingPlayer)
    } else {
        match snapshot.tunnel {
            None => Some(MinerErrorView::NoAllocatedPoints),
            Some(tunnel) => if miner_stats(tunnel).spent_points <= 0 {
                Some(MinerErrorView::NoAllocatedPoints)
            } else {
                None
            },
        }
    }
}

/// Decides whether a miner can respec.
pub fn check_respec(snapshot: &DigMinerSnapshot) -> (answer: Result<(), DigMinerRuntimeError>)
    ensures
        match answer {
            Ok(_) => respec_obstacle(snapshot@) is None,
            Err(error) => respec_obstacle(snapshot@) == Some(error@),
        },
{
    if !snapshot.player_exists {
        return Err(DigMinerRuntimeError::MissingPlayer);
    }
    match &snapshot.tunnel {
        None => Err(DigMinerRuntimeError::NoAllocatedPoints),
        Some(tunnel) => {
            if stats_from_tunnel(tunnel).spent_points <= 0 {
                Err(DigMinerRuntimeError::NoAllocatedPoints)
            } else {
                Ok(())
            }
        },
    }
}

/// What a respec is answered.
pub open spec fn respec_told(
    status: DigMinerMutationStatus,
    snapshot: MinerSnapshotView,
    returned_points: i64,
    action_id: Option<i64>,
) -> Result<DigMinerRespecResult, MinerErrorView> {
    match status {
        DigMinerMutationStatus::Applied => match snapshot.tunnel {
            None => Err(MinerErrorView::InvalidState("missing profile tunnel"@)),
            Some(tunnel) => match action_id {
                Some(action_id) => Ok(
                    DigMinerRespecResult {
                        cost: MINER_RESPEC_COST,
                        returned_points,
                        stats: miner_stats(tunnel),
                        action_id,
                    },
                ),
                None => Err(MinerErrorView::InvalidState("missing respec action id"@)),
            },
        },
        DigMinerMutationStatus::NoAllocatedPoints => Err(MinerErrorView::NoAllocatedPoints),
        DigMinerMutationStatus::InsufficientBalance => Err(
            MinerErrorView::InsufficientRespecBalance,
        ),
        DigMinerMutationStatus::Conflict => Err(MinerErrorView::Conflict),
        _ => Err(unexpected("respec"@, status)),
    }
}

/// Tells the answer to a respec.
pub fn respec_answer(
    status: DigMinerMutationStatus,
    snapshot: &DigMinerSnapshot,
    returned_points: i64,
    action_id: Option<i64>,
) -> (answer: Result<DigMinerRespecResult, DigMinerRuntimeError>)
    ensures
        match answer {
            Ok(result) => respec_told(status, snapshot@, returned_points, action_id) == Ok::<
                DigMinerRespecResult,
                MinerErrorView,
            >(result),
            Err(error) => respec_told(status, snapshot@, returned_points, action_id) == Err::<
                DigMinerRespecResult,
                MinerErrorView,
            >(error@),
        },
{
    match status {
        DigMinerMutationStatus::Applied => match &snapshot.tunnel {
            None => Err(DigMinerRuntimeError::InvalidState("missing profile tunnel".to_owned())),
            Some(tunnel) => match action_id {
                Some(action_id) => Ok(
                    DigMinerRespecResult {
                        cost: MINER_RESPEC_COST,
                        returned_points,
                        stats: stats_from_tunnel(tunnel),
                        action_id,
                    },
                ),
                None => Err(
                    DigMinerRuntimeError::InvalidState("missing respec action id".to_owned()),
                ),
            },
        },
        DigMinerMutationStatus::NoAllocatedPoints => Err(DigMinerRuntimeError::NoAllocatedPoints),
        DigMinerMutationStatus::InsufficientBalance => Err(
            DigMinerRuntimeError::InsufficientRespecBalance,
        ),
        DigMinerMutationStatus::Conflict => Err(DigMinerRuntimeError::Conflict),
        _ => Err(unexpected_status("respec", status)),
    }
}

/// Stats are never negative, a miner has at least the starting points, and
/// where no more points are spent than there are, spent and unspent points are
/// all the points.
pub proof fn law_stats_add_up(tunnel: MinerTunnelView)
    ensures
        ({
            let stats = miner_stats(tunnel);
            &&& stats.strength >= 0 && stats.smarts >= 0 && stats.stamina >= 0
            &&& stats.stat_points >= DIG_STARTING_STAT_POINTS
            &&& stats.unspent_points >= 0
            &&& stats.spent_points <= stats.stat_points ==> stats.spent_points
                + stats.unspent_points == stats.stat_points
        }),
{
}

/// Spending points that the check lets through takes exactly those points from
/// the unspent ones.
pub proof fn law_allocation_spends_what_it_asks(
    tunnel: MinerTunnelView,
    allocation: DigMinerAllocation,
)
    requires
        allocation_obstacle(
            MinerSnapshotView { player_exists: true, tunnel: Some(tunnel) },
            allocation,
        ) is None,
    ensures
        ({
            let stats = miner_stats(tunnel);
            let after = miner_stats(
                MinerTunnelView {
                    stat_strength: nearest(stats.strength + allocation.strength),
                    stat_smarts: nearest(stats.smarts + allocation.smarts),
                    stat_stamina: nearest(stats.stamina + allocation.stamina),
                    ..tunnel
                },
            );
            &&& after.unspent_points == stats.unspent_points - allocation_total(allocation)
            &&& after.spent_points == stats.spent_points + allocation_total(allocation)
        }),
{
}

} // verus!
