//! Core decision logic for a Discord moderation service: enum registries
//! with wire-string conversions, the applicability filter that decides
//! whether a message is in scope, the model resolver that picks a concrete
//! classification model under a credit budget, the credit ledger, and the
//! action resolver that maps classification results to enforcement actions.

pub mod actions;
pub mod auth;
pub mod credits;
pub mod discord;
pub mod errors;
pub mod filter;
pub mod ledger;
pub mod moderate;
pub mod notifications;
pub mod pipeline;
pub mod pricing;
pub mod resolver;
pub mod text;
pub mod user;
