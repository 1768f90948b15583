//! A multiplayer game platform, modelled as a pair of verified state machines.
//!
//! The platform is split into a central coordinating unit (the *hub*, holding
//! player profiles, leaderboards, tournaments, the social graph and a
//! directory of game rooms) and one isolated *shard* per room, holding the
//! authoritative state of a single match.  Hub and shards communicate only
//! through one-way messages; every transition here is a pure function from a
//! state and an incoming action or message to the next state and the messages
//! to send, so the surrounding runtime merely delivers what the outbox holds.

pub mod grid;
pub mod hub;
pub mod hub_messages;
pub mod hub_ops;
pub mod hub_rooms;
pub mod hub_social;
pub mod leaderboard;
pub mod numstr;
pub mod progression;
pub mod queries;
pub mod room;
pub mod strmap;
pub mod text;
pub mod tournament;
pub mod track;
pub mod types;
