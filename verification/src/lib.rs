//! Rules of the Dig mining game.
//!
//! A miner digs a tunnel, block by block, for coins. [`admission`] decides
//! whether a dig may happen and what it costs, [`turn`] takes it from there
//! through light, cave-ins, rewards and taxes, and [`report`] words what is
//! stored and told. Bosses block the way down: [`encounter`], [`wager`],
//! [`preparation`], [`attempt`], [`fight`] and [`pinnacle`] hold their rules.
//! [`miner`] and [`inventory`] serve what a player keeps between digs.
//!
//! Everything that rolls dice or touches a database stays with the caller, who
//! hands in what came of it.

pub mod actions;
pub mod admission;
pub mod arith;
pub mod attempt;
pub mod awards;
pub mod boss_error;
pub mod boss_service;
pub mod boss_store;
pub mod boss_tunnel;
pub mod cave_in;
pub mod combat;
pub mod condition;
pub mod curse;
pub mod duel;
pub mod duel_row;
pub mod encounter;
pub mod fight;
pub mod first_dig;
pub mod inventory;
pub mod json;
pub mod laws;
pub mod light;
pub mod loot;
pub mod miner;
pub mod outcome;
pub mod pinnacle;
pub mod preparation;
pub mod progress;
pub mod report;
pub mod ruling;
pub mod settlement;
pub mod snapshot;
pub mod sorted;
pub mod spoils;
pub mod store;
pub mod streak;
pub mod text;
pub mod turn;
pub mod upkeep;
pub mod version;
pub mod wager;
