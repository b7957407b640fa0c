//! Payments for a VPN service: the intent text that travels through payment
//! providers, normalisation of each provider's callbacks, and a ledger that
//! reconciles payment events exactly once and all or nothing. Alongside: the
//! referral leaderboard's display rules and V2Ray subscription links.

pub mod text;
pub mod intent;
pub mod amount;
pub mod webhook;
pub mod ledger;
pub mod laws;
pub mod referral;
pub mod panel;
pub mod invoice;
pub mod dispatch;
pub mod service;
pub mod subscription;
