//! Miner profiles: backstories, stat points, automatic purchases and resets.

use cama_dig::awards::{first_clear_award, stat_boss_awards, DIG_STARTING_STAT_POINTS};
use cama_dig::miner::{
    allocation_answer, auto_buy_answer, backstory_answer, check_allocation, check_auto_buy,
    check_backstory, check_respec, creation_answer, needs_tunnel, profile_from_snapshot,
    respec_answer, stats_from_tunnel, unexpected_status, DigMinerAllocation, DigMinerAutoBuy,
    DigMinerAutoBuyUpdate, DigMinerMutationStatus, DigMinerProfile, DigMinerRespecResult,
    DigMinerRuntimeError, DigMinerSnapshot, DigMinerStats, DigMinerTunnelSnapshot,
    MINER_BACKSTORY_MAX_LENGTH, MINER_RESPEC_COST,
};

/// A repository of one player that keeps the promises of the stored one.
struct Ledger {
    balance: i64,
    actions: i64,
    snapshot: DigMinerSnapshot,
}

fn first_tunnel() -> DigMinerTunnelSnapshot {
    DigMinerTunnelSnapshot {
        tunnel_name: "The Whispering Descent".to_owned(),
        miner_about: String::new(),
        prestige_level: 0,
        stat_strength: 0,
        stat_smarts: 0,
        stat_stamina: 0,
        stat_points: DIG_STARTING_STAT_POINTS,
        stat_boss_awards_json: None,
        auto_buy_torch: false,
        auto_buy_hard_hat: false,
        auto_buy_grappling_hook: false,
    }
}

fn fixture(balance: i64) -> Ledger {
    Ledger { balance, actions: 0, snapshot: DigMinerSnapshot { player_exists: true, tunnel: None } }
}

impl Ledger {
    fn tunnel(&mut self) -> &mut DigMinerTunnelSnapshot {
        self.snapshot.tunnel.get_or_insert_with(first_tunnel)
    }

    fn profile(&mut self) -> Result<DigMinerProfile, DigMinerRuntimeError> {
        if needs_tunnel(&self.snapshot)? {
            self.tunnel();
            creation_answer(DigMinerMutationStatus::Applied)?;
        }
        profile_from_snapshot(&self.snapshot)
    }

    fn set_backstory(&mut self, sanitized: &str) -> Result<DigMinerProfile, DigMinerRuntimeError> {
        self.profile()?;
        check_backstory(&self.snapshot, sanitized)?;
        self.tunnel().miner_about = sanitized.to_owned();
        backstory_answer(DigMinerMutationStatus::Applied, &self.snapshot)
    }

    fn allocate(
        &mut self,
        allocation: DigMinerAllocation,
    ) -> Result<DigMinerProfile, DigMinerRuntimeError> {
        self.profile()?;
        let requested = check_allocation(&self.snapshot, allocation)?;
        let tunnel = self.tunnel();
        tunnel.stat_strength += allocation.strength;
        tunnel.stat_smarts += allocation.smarts;
        tunnel.stat_stamina += allocation.stamina;
        allocation_answer(DigMinerMutationStatus::Applied, &self.snapshot, requested)
    }

    fn set_auto_buy(
        &mut self,
        update: DigMinerAutoBuyUpdate,
    ) -> Result<DigMinerProfile, DigMinerRuntimeError> {
        check_auto_buy(update)?;
        self.profile()?;
        let tunnel = self.tunnel();
        tunnel.auto_buy_torch = update.torch.unwrap_or(tunnel.auto_buy_torch);
        tunnel.auto_buy_hard_hat = update.hard_hat.unwrap_or(tunnel.auto_buy_hard_hat);
        tunnel.auto_buy_grappling_hook =
            update.grappling_hook.unwrap_or(tunnel.auto_buy_grappling_hook);
        auto_buy_answer(DigMinerMutationStatus::Applied, &self.snapshot)
    }

    fn respec(&mut self) -> Result<DigMinerRespecResult, DigMinerRuntimeError> {
        check_respec(&self.snapshot)?;
        if self.balance < MINER_RESPEC_COST {
            return respec_answer(
                DigMinerMutationStatus::InsufficientBalance,
                &self.snapshot,
                0,
                None,
            );
        }
        self.balance -= MINER_RESPEC_COST;
        self.actions += 1;
        let tunnel = self.tunnel();
        let returned = tunnel.stat_strength + tunnel.stat_smarts + tunnel.stat_stamina;
        tunnel.stat_strength = 0;
        tunnel.stat_smarts = 0;
        tunnel.stat_stamina = 0;
        let action = self.actions;
        respec_answer(DigMinerMutationStatus::Applied, &self.snapshot, returned, Some(action))
    }
}

fn told<T>(answer: Result<T, DigMinerRuntimeError>) -> String {
    match answer {
        Ok(_) => panic!("an error was due"),
        Err(error) => error.message(),
    }
}

fn kept<T>(answer: Result<T, DigMinerRuntimeError>) -> T {
    match answer {
        Ok(value) => value,
        Err(error) => panic!("{}", error.message()),
    }
}

#[test]
fn profile_requires_registration_and_creates_an_exact_first_dig_tunnel() {
    let stranger = DigMinerSnapshot { player_exists: false, tunnel: None };
    assert_eq!(
        told(needs_tunnel(&stranger)),
        "You need to register first. Use /player register."
    );
    assert_eq!(
        told(profile_from_snapshot(&stranger)),
        "invalid Dig miner state: missing profile tunnel"
    );
    let mut service = fixture(100);
    let profile = kept(service.profile());
    assert_eq!(profile.tunnel_name, "The Whispering Descent");
    assert_eq!(
        profile.stats,
        DigMinerStats {
            strength: 0,
            smarts: 0,
            stamina: 0,
            stat_points: 5,
            spent_points: 0,
            unspent_points: 5,
        }
    );
    assert_eq!(
        profile.auto_buy,
        DigMinerAutoBuy { torch: false, hard_hat: false, grappling_hook: false }
    );
    assert_eq!(profile.awarded_bosses, Vec::<i64>::new());
}

#[test]
fn blank_backstory_is_rejected_after_profile_creation() {
    let mut service = fixture(100);
    assert_eq!(told(service.set_backstory("")), "Provide a backstory to lock in.");
    assert!(service.tunnel().miner_about.is_empty());
}

#[test]
fn a_backstory_locks_once() {
    let mut service = fixture(100);
    let profile = kept(service.set_backstory("Former cartographer"));
    assert_eq!(profile.backstory, "Former cartographer");
    assert!(profile.backstory.chars().count() <= MINER_BACKSTORY_MAX_LENGTH);
    assert_eq!(
        told(service.set_backstory("Actually a duke in exile.")),
        "Your miner backstory is already set and cannot be changed."
    );
}

#[test]
fn stat_allocation_returns_the_exact_budget() {
    let mut service = fixture(100);
    let profile =
        kept(service.allocate(DigMinerAllocation { strength: 2, smarts: 2, stamina: 1 }));
    assert_eq!(
        profile.stats,
        DigMinerStats {
            strength: 2,
            smarts: 2,
            stamina: 1,
            stat_points: 5,
            spent_points: 5,
            unspent_points: 0,
        }
    );
}

#[test]
fn stat_allocation_errors_match_python_service_copy() {
    let mut service = fixture(100);
    kept(service.profile());
    for (allocation, expected) in [
        (
            DigMinerAllocation { strength: -1, smarts: 0, stamina: 0 },
            "S stats cannot be negative.".to_owned(),
        ),
        (
            DigMinerAllocation { strength: 0, smarts: 0, stamina: 0 },
            "Spend at least one point.".to_owned(),
        ),
        (
            DigMinerAllocation { strength: 5, smarts: 1, stamina: 0 },
            "That spends 6 points, but you only have 5 unspent.".to_owned(),
        ),
    ] {
        assert_eq!(told(service.allocate(allocation)), expected);
    }
}

#[test]
fn auto_buy_partial_updates_match_profile_contract() {
    let mut service = fixture(100);
    let both = kept(service.set_auto_buy(DigMinerAutoBuyUpdate {
        torch: Some(true),
        hard_hat: Some(true),
        grappling_hook: None,
    }));
    assert_eq!(
        both.auto_buy,
        DigMinerAutoBuy { torch: true, hard_hat: true, grappling_hook: false }
    );
    let torch_off = kept(service.set_auto_buy(DigMinerAutoBuyUpdate {
        torch: Some(false),
        hard_hat: None,
        grappling_hook: None,
    }));
    assert_eq!(
        torch_off.auto_buy,
        DigMinerAutoBuy { torch: false, hard_hat: true, grappling_hook: false }
    );
    assert_eq!(
        told(service.set_auto_buy(DigMinerAutoBuyUpdate {
            torch: None,
            hard_hat: None,
            grappling_hook: None,
        })),
        "Choose at least one auto-buy setting to update."
    );
}

#[test]
fn profile_decodes_current_prestige_awards_and_rejects_stale_or_legacy_ledgers() {
    let mut service = fixture(100);
    kept(service.profile());
    let tunnel = service.tunnel();
    tunnel.prestige_level = 2;
    tunnel.stat_points = 8;
    tunnel.stat_boss_awards_json =
        Some(r#"{"prestige_level":2,"awards":[75,25,75,"bad"]}"#.to_owned());
    assert_eq!(kept(service.profile()).awarded_bosses, [25, 75]);
    service.tunnel().stat_boss_awards_json = Some("[25,50]".to_owned());
    assert!(kept(service.profile()).awarded_bosses.is_empty());
}

#[test]
fn respec_returns_allocated_and_total_unspent_separately() {
    let mut service = fixture(100);
    service.snapshot.tunnel = Some(DigMinerTunnelSnapshot {
        tunnel_name: "Deep Ledger".to_owned(),
        stat_strength: 2,
        stat_smarts: 1,
        stat_stamina: 2,
        stat_points: 12,
        ..first_tunnel()
    });
    let result = kept(service.respec());
    assert_eq!(result.cost, 50);
    assert_eq!(result.returned_points, 5);
    assert_eq!(result.stats.unspent_points, 12);
    assert_eq!(result.stats.stat_points, 12);
    assert_eq!(result.stats.spent_points, 0);
    assert_eq!(result.action_id, 1);
}

#[test]
fn respec_errors_match_python_and_preserve_state() {
    let mut service = fixture(49);
    assert_eq!(
        told(service.respec()),
        "You don't have any allocated S points to reset."
    );
    kept(service.allocate(DigMinerAllocation { strength: 3, smarts: 2, stamina: 0 }));
    assert_eq!(told(service.respec()), "You need 50 JC to respec your S points.");
    let profile = kept(service.profile());
    assert_eq!((profile.stats.strength, profile.stats.smarts), (3, 2));
}

#[test]
fn stored_refusals_become_errors() {
    let snapshot = fixture(100).snapshot;
    assert_eq!(
        told(creation_answer(DigMinerMutationStatus::MissingPlayer)),
        "You need to register first. Use /player register."
    );
    assert_eq!(
        told(allocation_answer(DigMinerMutationStatus::Conflict, &snapshot, 1)),
        "That miner profile changed while this action was processing. Try again."
    );
    assert_eq!(
        DigMinerRuntimeError::Repository("locked".to_owned()).message(),
        "locked"
    );
    assert_eq!(
        DigMinerRuntimeError::InvalidState("x".to_owned()).message(),
        "invalid Dig miner state: x"
    );
    assert!(unexpected_status("respec", DigMinerMutationStatus::Locked)
        .message()
        .starts_with("invalid Dig miner state: "));
}

#[test]
fn stats_add_up_to_their_points() {
    let tunnel = DigMinerTunnelSnapshot { stat_strength: 2, stat_points: 7, ..first_tunnel() };
    let stats = stats_from_tunnel(&tunnel);
    assert_eq!(stats.spent_points + stats.unspent_points, stats.stat_points);
}

#[test]
fn first_clears_are_awarded_once_per_prestige() {
    let award = match first_clear_award(5, 1, None, 25) {
        Ok(Some(award)) => award,
        other => panic!("no award: {}", other.is_ok()),
    };
    assert_eq!(award.stat_points, 6);
    assert_eq!(stat_boss_awards(Some(&award.ledger), 1), [25]);
    assert!(stat_boss_awards(Some(&award.ledger), 2).is_empty());
    assert!(matches!(first_clear_award(6, 1, Some(&award.ledger), 25), Ok(None)));
    assert_eq!(
        first_clear_award(6, 1, Some("{"), 25).err().as_deref(),
        Some("EOF while parsing an object at line 1 column 1")
    );
}
