//! Scenario tests for the decision engine: applicability filter, model
//! resolver, credit ledger, action resolver, and the composed pipeline.

use moderation_core::actions::decide;
use moderation_core::auth::OAuthProviderType;
use moderation_core::discord::{
    ChannelInfo, GuildConfig, ModerationAction, RoleFilterMode, RoleInfo,
};
use moderation_core::errors::CreditError;
use moderation_core::filter::in_scope;
use moderation_core::ledger::{charge, CreditState};
use moderation_core::moderate::{ModerationLabel, ModerationModel, ModerationResponse};
use moderation_core::pipeline::{plan_moderation, ModerationPlan};
use moderation_core::pricing::{StripeSubscriptionInfo, Tier};
use moderation_core::resolver::resolve;

fn channel(id: &str) -> ChannelInfo {
    ChannelInfo {
        id: id.to_string(),
        name: format!("#{}", id),
        channel_type: "text".to_string(),
    }
}

fn role(id: &str) -> RoleInfo {
    RoleInfo {
        id: id.to_string(),
        name: format!("@{}", id),
        color: 0,
        position: 1,
    }
}

fn ids(list: &[&str]) -> Vec<String> {
    list.iter().map(|s| s.to_string()).collect()
}

#[test]
fn default_config_matches_documented_defaults() {
    let cfg = GuildConfig::default();
    assert!(cfg.is_active);
    assert!(cfg.moderate_all_channels);
    assert!(cfg.moderated_channels.is_empty());
    assert_eq!(cfg.enabled_labels, ModerationLabel::all_labels());
    assert!(cfg.moderate_all_roles);
    assert_eq!(cfg.role_filter_mode, RoleFilterMode::Exclude);
    assert!(cfg.filtered_roles.is_empty());
    assert_eq!(cfg.actions, vec![ModerationAction::Delete]);
    assert_eq!(cfg.model, ModerationModel::Observer);
    assert!(cfg.alerts_channel.is_none());
    assert_eq!(cfg.context_history_count, 5);
    assert!(!cfg.enable_context);
}

#[test]
fn inactive_config_is_never_in_scope() {
    let mut cfg = GuildConfig::default();
    cfg.is_active = false;
    assert!(!in_scope(&cfg, "general", &ids(&["admin"])));
    cfg.moderate_all_channels = true;
    cfg.moderate_all_roles = true;
    assert!(!in_scope(&cfg, "anything", &ids(&[])));
}

#[test]
fn channel_gate_uses_allow_list_when_not_all_channels() {
    let mut cfg = GuildConfig::default();
    cfg.moderate_all_channels = false;
    cfg.moderated_channels = vec![channel("general"), channel("memes")];
    assert!(in_scope(&cfg, "general", &ids(&[])));
    assert!(in_scope(&cfg, "memes", &ids(&[])));
    assert!(!in_scope(&cfg, "staff", &ids(&[])));
}

#[test]
fn exclude_mode_with_empty_filter_moderates_every_author() {
    let mut cfg = GuildConfig::default();
    cfg.moderate_all_roles = false;
    cfg.role_filter_mode = RoleFilterMode::Exclude;
    cfg.filtered_roles = Vec::new();
    assert!(in_scope(&cfg, "general", &ids(&[])));
    assert!(in_scope(&cfg, "general", &ids(&["mod", "admin"])));
}

#[test]
fn include_mode_with_empty_filter_moderates_nobody() {
    let mut cfg = GuildConfig::default();
    cfg.moderate_all_roles = false;
    cfg.role_filter_mode = RoleFilterMode::Include;
    cfg.filtered_roles = Vec::new();
    assert!(!in_scope(&cfg, "general", &ids(&[])));
    assert!(!in_scope(&cfg, "general", &ids(&["mod", "admin"])));
}

#[test]
fn include_mode_needs_one_listed_role() {
    let mut cfg = GuildConfig::default();
    cfg.moderate_all_roles = false;
    cfg.role_filter_mode = RoleFilterMode::Include;
    cfg.filtered_roles = vec![role("member")];
    assert!(in_scope(&cfg, "general", &ids(&["member", "artist"])));
    assert!(!in_scope(&cfg, "general", &ids(&["artist"])));
}

#[test]
fn exclude_mode_rejects_listed_roles() {
    let mut cfg = GuildConfig::default();
    cfg.moderate_all_roles = false;
    cfg.role_filter_mode = RoleFilterMode::Exclude;
    cfg.filtered_roles = vec![role("mod")];
    assert!(!in_scope(&cfg, "general", &ids(&["mod", "member"])));
    assert!(in_scope(&cfg, "general", &ids(&["member"])));
}

#[test]
fn resolver_echoes_concrete_request() {
    let allowed = vec![ModerationModel::Observer];
    assert_eq!(
        resolve(ModerationModel::Sentinel, 0, 0, &allowed),
        ModerationModel::Sentinel
    );
}

#[test]
fn resolver_falls_back_to_observer_on_empty_allowed_set() {
    assert_eq!(
        resolve(ModerationModel::Auto, 1_000, 1_200, &Vec::new()),
        ModerationModel::Observer
    );
    assert_eq!(
        resolve(ModerationModel::Auto, 1_000, 1_200, &vec![ModerationModel::Auto]),
        ModerationModel::Observer
    );
}

#[test]
fn resolver_boundaries_with_three_models() {
    // Ranks: Arbiter (threshold 0), Sentinel (3*1200/6 = 600),
    // Observer (5*1200/6 = 1000).
    let allowed = vec![
        ModerationModel::Observer,
        ModerationModel::Sentinel,
        ModerationModel::Arbiter,
    ];
    let pick = |remaining: i64| resolve(ModerationModel::Auto, remaining, 1_200, &allowed);
    assert_eq!(pick(1_500), ModerationModel::Arbiter);
    assert_eq!(pick(1_001), ModerationModel::Arbiter);
    assert_eq!(pick(1_000), ModerationModel::Sentinel);
    assert_eq!(pick(800), ModerationModel::Sentinel);
    assert_eq!(pick(601), ModerationModel::Sentinel);
    assert_eq!(pick(600), ModerationModel::Observer);
    assert_eq!(pick(500), ModerationModel::Observer);
    assert_eq!(pick(1), ModerationModel::Observer);
    assert_eq!(pick(0), ModerationModel::Observer);
    assert_eq!(pick(-5), ModerationModel::Observer);
}

#[test]
fn resolver_cost_is_monotone_in_remaining_credits() {
    let allowed = vec![
        ModerationModel::Observer,
        ModerationModel::Sentinel,
        ModerationModel::Arbiter,
    ];
    let mut last_cost = 0i64;
    for remaining in 0..2_000i64 {
        let m = resolve(ModerationModel::Auto, remaining, 1_200, &allowed);
        let cost = m.credits_per_byte();
        assert!(cost >= last_cost);
        last_cost = cost;
    }
}

#[test]
fn resolver_with_zero_cap_needs_only_positive_credits() {
    // A cap of zero makes every threshold zero: any positive balance buys
    // the strongest model, an empty one falls back to the cheapest.
    let allowed = vec![ModerationModel::Observer, ModerationModel::Arbiter];
    assert_eq!(
        resolve(ModerationModel::Auto, 1, 0, &allowed),
        ModerationModel::Arbiter
    );
    assert_eq!(
        resolve(ModerationModel::Auto, 0, 0, &allowed),
        ModerationModel::Observer
    );
}

#[test]
fn charge_at_exact_balance_succeeds_with_zero() {
    let state = CreditState {
        remaining_credits: 300,
        max_monthly_credits: 50_000,
    };
    // 100 bytes at 3 credits/byte costs exactly 300.
    assert_eq!(charge(&state, ModerationModel::Sentinel, 100), Ok(0));
}

#[test]
fn charge_one_credit_over_balance_is_refused() {
    let state = CreditState {
        remaining_credits: 299,
        max_monthly_credits: 50_000,
    };
    assert_eq!(
        charge(&state, ModerationModel::Sentinel, 100),
        Err(CreditError::InsufficientCredits)
    );
    // The snapshot is untouched; a smaller call still goes through.
    assert_eq!(charge(&state, ModerationModel::Sentinel, 99), Ok(2));
}

#[test]
fn charge_scales_with_model_cost() {
    let state = CreditState {
        remaining_credits: 1_000,
        max_monthly_credits: 50_000,
    };
    assert_eq!(charge(&state, ModerationModel::Observer, 10), Ok(990));
    assert_eq!(charge(&state, ModerationModel::Sentinel, 10), Ok(970));
    assert_eq!(charge(&state, ModerationModel::Arbiter, 10), Ok(910));
}

fn classification(labels: &[ModerationLabel]) -> ModerationResponse {
    ModerationResponse {
        flagged: !labels.is_empty(),
        labels: labels.to_vec(),
        needs_context: None,
        context_labels: None,
    }
}

#[test]
fn decide_keeps_only_enabled_labels() {
    let mut cfg = GuildConfig::default();
    cfg.enabled_labels = vec![ModerationLabel::S, ModerationLabel::V];
    cfg.actions = vec![ModerationAction::Delete];
    let cls = classification(&[ModerationLabel::V, ModerationLabel::SP]);
    let d = decide(&cls, &cfg);
    assert!(d.flagged);
    assert_eq!(d.active_labels, vec![ModerationLabel::V]);
    assert_eq!(d.actions, vec![ModerationAction::Delete]);
    assert!(!d.needs_context);
}

#[test]
fn decide_ignores_classifier_flag_when_intersection_is_empty() {
    let mut cfg = GuildConfig::default();
    cfg.enabled_labels = vec![ModerationLabel::S, ModerationLabel::V];
    let mut cls = classification(&[ModerationLabel::SP, ModerationLabel::T]);
    cls.flagged = true;
    let d = decide(&cls, &cfg);
    assert!(!d.flagged);
    assert!(d.active_labels.is_empty());
    assert!(d.actions.is_empty());
    assert!(!d.needs_context);
}

#[test]
fn decide_applies_configured_actions_uniformly() {
    let mut cfg = GuildConfig::default();
    cfg.actions = vec![ModerationAction::Delete, ModerationAction::Warn];
    let d = decide(&classification(&[ModerationLabel::H]), &cfg);
    assert!(d.flagged);
    assert_eq!(
        d.actions,
        vec![ModerationAction::Delete, ModerationAction::Warn]
    );
}

#[test]
fn decide_requests_context_only_for_active_ambiguous_labels() {
    let mut cfg = GuildConfig::default();
    cfg.enable_context = true;
    cfg.enabled_labels = vec![ModerationLabel::H, ModerationLabel::V];

    // Ambiguity on an active label: context pass requested.
    let mut cls = classification(&[ModerationLabel::H]);
    cls.needs_context = Some(true);
    cls.context_labels = Some(vec![ModerationLabel::H]);
    assert!(decide(&cls, &cfg).needs_context);

    // Ambiguity only on a disabled label: no context pass.
    let mut cls = classification(&[ModerationLabel::H, ModerationLabel::SP]);
    cls.needs_context = Some(true);
    cls.context_labels = Some(vec![ModerationLabel::SP]);
    assert!(!decide(&cls, &cfg).needs_context);

    // Classifier asked without naming labels: its flagged labels count.
    let mut cls = classification(&[ModerationLabel::V]);
    cls.needs_context = Some(true);
    assert!(decide(&cls, &cfg).needs_context);

    // Config has context disabled: never requested.
    let mut cls = classification(&[ModerationLabel::H]);
    cls.needs_context = Some(true);
    cls.context_labels = Some(vec![ModerationLabel::H]);
    let mut quiet = cfg.clone();
    quiet.enable_context = false;
    assert!(!decide(&cls, &quiet).needs_context);

    // Classifier did not ask: never requested.
    let mut cls = classification(&[ModerationLabel::H]);
    cls.needs_context = Some(false);
    assert!(!decide(&cls, &cfg).needs_context);
}

#[test]
fn end_to_end_scenario_flags_enabled_label_only() {
    let mut cfg = GuildConfig::default();
    cfg.is_active = true;
    cfg.moderate_all_channels = true;
    cfg.enabled_labels = vec![ModerationLabel::S, ModerationLabel::V];
    cfg.actions = vec![ModerationAction::Delete];

    assert!(in_scope(&cfg, "general", &ids(&["member"])));

    let cls = classification(&[ModerationLabel::V, ModerationLabel::SP]);
    let d = decide(&cls, &cfg);
    assert!(d.flagged);
    assert_eq!(d.active_labels, vec![ModerationLabel::V]);
    assert_eq!(d.actions, vec![ModerationAction::Delete]);
}

#[test]
fn plan_skips_out_of_scope_messages_before_charging() {
    let mut cfg = GuildConfig::default();
    cfg.is_active = false;
    let credit = CreditState {
        remaining_credits: 1_000,
        max_monthly_credits: 50_000,
    };
    let plan = plan_moderation(
        &cfg,
        "general",
        &ids(&[]),
        &credit,
        &Tier::Premium.allowed_models(),
        100,
    );
    assert_eq!(plan, ModerationPlan::OutOfScope);
}

#[test]
fn plan_resolves_charges_and_reports_balance() {
    let mut cfg = GuildConfig::default();
    cfg.model = ModerationModel::Auto;
    let credit = CreditState {
        remaining_credits: 22_500_000,
        max_monthly_credits: 22_500_000,
    };
    let plan = plan_moderation(
        &cfg,
        "general",
        &ids(&[]),
        &credit,
        &Tier::Premium.allowed_models(),
        1_000,
    );
    // A full budget resolves to the strongest model; 1000 bytes at 9/byte.
    assert_eq!(
        plan,
        ModerationPlan::Proceed {
            model: ModerationModel::Arbiter,
            new_balance: 22_500_000 - 9_000,
        }
    );
}

#[test]
fn plan_clamps_configured_model_outside_tier() {
    let mut cfg = GuildConfig::default();
    cfg.model = ModerationModel::Arbiter;
    let credit = CreditState {
        remaining_credits: 40_000,
        max_monthly_credits: 50_000,
    };
    // The free tier only allows Observer, so the configured Arbiter is
    // clamped back to an automatic choice among the allowed models.
    let plan = plan_moderation(
        &cfg,
        "general",
        &ids(&[]),
        &credit,
        &Tier::Free.allowed_models(),
        100,
    );
    assert_eq!(
        plan,
        ModerationPlan::Proceed {
            model: ModerationModel::Observer,
            new_balance: 39_900,
        }
    );
}

#[test]
fn plan_refuses_when_credits_run_out() {
    let cfg = GuildConfig::default();
    let credit = CreditState {
        remaining_credits: 99,
        max_monthly_credits: 50_000,
    };
    let plan = plan_moderation(
        &cfg,
        "general",
        &ids(&[]),
        &credit,
        &Tier::Free.allowed_models(),
        100,
    );
    assert_eq!(plan, ModerationPlan::InsufficientCredits);
}

#[test]
fn free_subscription_record() {
    let free = StripeSubscriptionInfo::free();
    assert_eq!(free.tier, Tier::Free);
    assert_eq!(free.status, "inactive");
    assert!(!free.is_active);
    assert!(free.price.is_none());
    assert!(free.currency.is_none());
    assert!(free.payment_method_id.is_none());
}

#[test]
fn provider_names() {
    assert_eq!(OAuthProviderType::Discord.as_str(), "discord");
    assert_eq!(OAuthProviderType::Google.as_str(), "google");
    assert_eq!(OAuthProviderType::GitHub.as_str(), "github");
}
