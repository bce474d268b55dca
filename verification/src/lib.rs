//! Sports Performance Protocol: a match ledger, a reward-tier catalog, a
//! reward/burn engine, an athlete profile registry and a token ledger.
//!
//! Every ledger is a plain value.  Its operations take the caller's
//! identity and the time as arguments, change nothing when they fail, and
//! append what they did to the ledger's own audit log.

pub mod athlete_nft;
pub mod deflatinary_burn;
pub mod performance_oracle;
pub mod primitives;
pub mod reward_tiers;
pub mod spp_token;
pub mod table;
pub mod u256;

pub use athlete_nft::AthleteNFT;
pub use deflatinary_burn::DeflatinaryBurn;
pub use performance_oracle::PerformanceOracle;
pub use primitives::{Address, FixedBytes};
pub use reward_tiers::RewardTiers;
pub use spp_token::SPPToken;
pub use u256::U256;
