//! Long-side pricing for a constant-power bonding-curve market maker:
//! converts a base-asset payment into the bonds a trader receives, projects
//! the pool's solvency after such a trade, and solves for the largest payment
//! a trader can make -- bounded by a budget and by the pool staying solvent.

pub mod fixed;
pub mod state;
pub mod curve;
pub mod long;
pub mod max_long;
