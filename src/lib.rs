//! Record and state-machine layer of an online-course credentialing ledger:
//! course definitions, enrollment, per-lesson completion bitmaps, streaks,
//! a daily reward cap, one-time completion bonuses and the create-or-upgrade
//! decision for completion credentials. Every operation either returns the
//! updated records and the transfers to perform, or an error with the records
//! untouched; minting and credential artifacts are left to the caller.

pub mod address;
pub mod bitmap;
pub mod config;
pub mod course;
pub mod credential;
pub mod daily_xp;
pub mod enrollment;
pub mod errors;
pub mod keys;
pub mod ledger;
pub mod reward_mint;
pub mod state;
pub mod streak;
