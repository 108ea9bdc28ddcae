//! Verified position accounting for a leveraged yield-farming vault.

pub mod assets;
pub mod callbacks;
pub mod events;
pub mod closure;
pub mod execute;
pub mod health;
pub mod laws;
pub mod math;
pub mod messages;
pub mod mocks;
pub mod queries;
pub mod slots;
pub mod replies;
pub mod state;
pub mod strategy;
