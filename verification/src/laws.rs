//! What holds of the rules taken together: laws that say what an operation is
//! for through what it hands on, what another operation reads of it, or how two
//! of its answers relate.

pub mod arms;
pub mod bosses;
pub mod encounters;
pub mod fights;
pub mod handovers;
pub mod hazards;
pub mod miners;
pub mod numbers;
pub mod pinnacles;
pub mod reports;
pub mod requests;
pub mod rewards;
pub mod rows;
pub mod shops;
pub mod supplies;
pub mod versions;
pub mod words;
