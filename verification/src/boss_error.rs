//! Why an action at a boss was turned away.

use crate::text::{int_text, integer_text, join2, join3, join5};
use vstd::prelude::*;

verus! {

/// A rule of boss fights that stands against an action.
#[derive(Debug, PartialEq, Eq)]
pub enum BossServiceError {
    MissingTunnel,
    NotAtBossBoundary,
    NoActiveDuel,
    NegativeWager,
    WagerNotAllowed,
    LanternRequired,
    InsufficientBalance { wager: i64, balance: i64 },
    UnknownMechanic(String),
}

/// What a [`BossServiceError`] says.
pub enum BossServiceErrorView {
    MissingTunnel,
    NotAtBossBoundary,
    NoActiveDuel,
    NegativeWager,
    WagerNotAllowed,
    LanternRequired,
    InsufficientBalance { wager: i64, balance: i64 },
    UnknownMechanic(Seq<char>),
}

impl View for BossServiceError {
    type V = BossServiceErrorView;

    open spec fn view(&self) -> BossServiceErrorView {
        match *self {
            BossServiceError::MissingTunnel => BossServiceErrorView::MissingTunnel,
            BossServiceError::NotAtBossBoundary => BossServiceErrorView::NotAtBossBoundary,
            BossServiceError::NoActiveDuel => BossServiceErrorView::NoActiveDuel,
            BossServiceError::NegativeWager => BossServiceErrorView::NegativeWager,
            BossServiceError::WagerNotAllowed => BossServiceErrorView::WagerNotAllowed,
            BossServiceError::LanternRequired => BossServiceErrorView::LanternRequired,
            BossServiceError::InsufficientBalance { wager, balance } => {
                BossServiceErrorView::InsufficientBalance { wager, balance }
            },
            BossServiceError::UnknownMechanic(id) => BossServiceErrorView::UnknownMechanic(id@),
        }
    }
}

/// Why an action at a boss was turned away.
#[derive(Debug, PartialEq, Eq)]
pub enum DigBossRuntimeError {
    /// A rule of boss fights, which speaks for itself.
    Policy(BossServiceError),
    WagerTooLarge { requested: i64, maximum: i64 },
    InvalidPinnacle(String),
    SelfCheer,
    CheerTargetMissing,
    CheerTargetNotAtBoss,
    CheerCooldown { remaining_seconds: i64 },
    CheerFull,
    Infrastructure(String),
}

/// What a [`DigBossRuntimeError`] says.
pub enum BossErrorView {
    Policy(BossServiceErrorView),
    WagerTooLarge { requested: i64, maximum: i64 },
    InvalidPinnacle(Seq<char>),
    SelfCheer,
    CheerTargetMissing,
    CheerTargetNotAtBoss,
    CheerCooldown { remaining_seconds: i64 },
    CheerFull,
    Infrastructure(Seq<char>),
}

impl View for DigBossRuntimeError {
    type V = BossErrorView;

    open spec fn view(&self) -> BossErrorView {
        match *self {
            DigBossRuntimeError::Policy(error) => BossErrorView::Policy(error@),
            DigBossRuntimeError::WagerTooLarge { requested, maximum } => {
                BossErrorView::WagerTooLarge { requested, maximum }
            },
            DigBossRuntimeError::InvalidPinnacle(text) => BossErrorView::InvalidPinnacle(text@),
            DigBossRuntimeError::SelfCheer => BossErrorView::SelfCheer,
            DigBossRuntimeError::CheerTargetMissing => BossErrorView::CheerTargetMissing,
            DigBossRuntimeError::CheerTargetNotAtBoss => BossErrorView::CheerTargetNotAtBoss,
            DigBossRuntimeError::CheerCooldown { remaining_seconds } => {
                BossErrorView::CheerCooldown { remaining_seconds }
            },
            DigBossRuntimeError::CheerFull => BossErrorView::CheerFull,
            DigBossRuntimeError::Infrastructure(text) => BossErrorView::Infrastructure(text@),
        }
    }
}

impl BossErrorView {
    /// The message of an error. A rule of boss fights has its own.
    pub open spec fn text(self) -> Option<Seq<char>> {
        match self {
            BossErrorView::Policy(_) => None,
            BossErrorView::WagerTooLarge { requested, maximum } => Some(
                "Boss wagers cannot exceed "@ + int_text(maximum as int) + " JC (received "@
                    + int_text(requested as int) + ")."@,
            ),
            BossErrorView::InvalidPinnacle(text) => Some(
                "the active pinnacle state is invalid: "@ + text,
            ),
            BossErrorView::SelfCheer => Some("You can't cheer for yourself."@),
            BossErrorView::CheerTargetMissing => Some("That player doesn't have a tunnel."@),
            BossErrorView::CheerTargetNotAtBoss => Some(
                "That player is not at a boss boundary."@,
            ),
            BossErrorView::CheerCooldown { remaining_seconds } => Some(
                "Cheer cooldown ("@ + int_text(remaining_seconds as int) + "s remaining)."@,
            ),
            BossErrorView::CheerFull => Some("Boss already at full cheer boost (3/3)."@),
            BossErrorView::Infrastructure(text) => Some(
                "Dig boss infrastructure failed: "@ + text,
            ),
        }
    }
}

impl DigBossRuntimeError {
    /// The message of this error, unless it is a rule of boss fights.
    pub fn message(&self) -> (text: Option<String>)
        ensures
            crate::text::text_view(text) == self@.text(),
    {
        match self {
            DigBossRuntimeError::Policy(_) => None,
            DigBossRuntimeError::WagerTooLarge { requested, maximum } => Some(
                join5(
                    "Boss wagers cannot exceed ",
                    integer_text(*maximum).as_str(),
                    " JC (received ",
                    integer_text(*requested).as_str(),
                    ").",
                ),
            ),
            DigBossRuntimeError::InvalidPinnacle(text) => Some(
                join2("the active pinnacle state is invalid: ", text.as_str()),
            ),
            DigBossRuntimeError::SelfCheer => Some("You can't cheer for yourself.".to_owned()),
            DigBossRuntimeError::CheerTargetMissing => Some(
                "That player doesn't have a tunnel.".to_owned(),
            ),
            DigBossRuntimeError::CheerTargetNotAtBoss => Some(
                "That player is not at a boss boundary.".to_owned(),
            ),
            DigBossRuntimeError::CheerCooldown { remaining_seconds } => Some(
                join3(
                    "Cheer cooldown (",
                    integer_text(*remaining_seconds).as_str(),
                    "s remaining).",
                ),
            ),
            DigBossRuntimeError::CheerFull => Some(
                "Boss already at full cheer boost (3/3).".to_owned(),
            ),
            DigBossRuntimeError::Infrastructure(text) => Some(
                join2("Dig boss infrastructure failed: ", text.as_str()),
            ),
        }
    }
}

} // verus!
