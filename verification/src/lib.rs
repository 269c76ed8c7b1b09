//! Verified core of an esports competition's persistent game state:
//! team rosters, player skill records, match scheduling and resolution,
//! the stake lifecycle, and revenue distribution.
//!
//! Records are passive data with invariant-preserving mutators; systems
//! are stateless dispatchers that validate authority and preconditions,
//! then mutate the records they were handed. The surrounding runtime
//! (ledger storage, caller authentication, the clock, wire decoding)
//! stays outside: callers pass in the verified caller address and the
//! current timestamp, and commit or discard the mutated records.

pub mod addr;
pub mod creator_revenue;
pub mod match_queue;
pub mod match_system;
pub mod movement;
pub mod player_stats;
pub mod position;
pub mod revenue_system;
pub mod team_data;
pub mod team_stake;
pub mod team_system;
