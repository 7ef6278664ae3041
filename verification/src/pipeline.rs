//! The pre-classification pipeline for one moderation event: check scope,
//! resolve the model, and charge the credits, all over one consistent
//! snapshot of the account's balance. The classifier call itself and the
//! post-classification step (`actions::decide`) belong to the caller.

use vstd::prelude::*;

use crate::discord::GuildConfig;
use crate::filter::{in_scope, in_scope_spec};
use crate::ledger::{apply_charge, charge, charge_cost, CreditState};
use crate::moderate::ModerationModel;
use crate::resolver::{models_contain, resolve, resolve_spec};

verus! {

/// What should happen with a message before the classifier is called: skip
/// it, refuse it for want of credits, or classify it with a concrete model
/// and commit the new balance.
#[derive(Clone, Copy, Debug, PartialEq, Eq, Structural)]
pub enum ModerationPlan {
    OutOfScope,
    InsufficientCredits,
    Proceed { model: ModerationModel, new_balance: i64 },
}

/// The request handed to the model resolver: the configured model, except
/// that the account's tier is the authoritative upper bound, so a concrete
/// configured model outside the allowed set is clamped back to `Auto` and
/// resolved like an automatic request.
pub open spec fn effective_request(
    configured: ModerationModel,
    allowed: Seq<ModerationModel>,
) -> ModerationModel {
    if configured is Auto || !allowed.contains(configured) {
        ModerationModel::Auto
    } else {
        configured
    }
}

/// What `plan_moderation` decides, over one snapshot of the credit state.
pub open spec fn plan_spec(
    config: GuildConfig,
    channel_id: Seq<char>,
    author_role_ids: Seq<String>,
    credit: CreditState,
    allowed: Seq<ModerationModel>,
    byte_length: int,
) -> ModerationPlan {
    if !in_scope_spec(config, channel_id, author_role_ids) {
        ModerationPlan::OutOfScope
    } else {
        let model = resolve_spec(
            effective_request(config.model, allowed),
            credit.remaining_credits as int,
            credit.max_monthly_credits as int,
            allowed,
        );
        match apply_charge(credit.remaining_credits as int, charge_cost(model, byte_length)) {
            Ok(balance) => ModerationPlan::Proceed { model, new_balance: balance as i64 },
            Err(_) => ModerationPlan::InsufficientCredits,
        }
    }
}

/// Plans one moderation event: a message of `byte_length` bytes in the given
/// channel by an author with the given roles, under the guild's
/// configuration and the account's tier-derived allowed models. Out-of-scope
/// messages are skipped before any model or credit work; otherwise the
/// configured model is resolved (clamped to the allowed set, `Auto`
/// budget-resolved) and the cost of the call is charged against the balance
/// snapshot.
pub fn plan_moderation(
    config: &GuildConfig,
    channel_id: &str,
    author_role_ids: &Vec<String>,
    credit: &CreditState,
    allowed_models: &Vec<ModerationModel>,
    byte_length: usize,
) -> (p: ModerationPlan)
    requires
        credit.wf(),
    ensures
        p == plan_spec(
            *config,
            channel_id@,
            author_role_ids@,
            *credit,
            allowed_models@,
            byte_length as int,
        ),
        p matches ModerationPlan::Proceed { model, new_balance } ==> !(model is Auto) && 0
            <= new_balance <= credit.remaining_credits,
{
    if !in_scope(config, channel_id, author_role_ids) {
        return ModerationPlan::OutOfScope;
    }
    let request: ModerationModel = if matches!(config.model, ModerationModel::Auto) {
        ModerationModel::Auto
    } else if models_contain(allowed_models, config.model) {
        config.model
    } else {
        ModerationModel::Auto
    };
    let model = resolve(
        request,
        credit.remaining_credits,
        credit.max_monthly_credits,
        allowed_models,
    );
    match charge(credit, model, byte_length) {
        Ok(balance) => ModerationPlan::Proceed { model, new_balance: balance },
        Err(_) => ModerationPlan::InsufficientCredits,
    }
}

} // verus!
