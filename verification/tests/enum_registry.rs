//! Wire-string round trips and lookup tables for every enum registry.

use moderation_core::discord::{ModerationAction, RoleFilterMode};
use moderation_core::errors::EnumParseError;
use moderation_core::moderate::{ModerationLabel, ModerationModel};
use moderation_core::pricing::{BillingCycle, FormattedPrice, Tier, TierPricing};

#[test]
fn model_wire_round_trip_all_variants() {
    let variants = [
        ModerationModel::Auto,
        ModerationModel::Observer,
        ModerationModel::Sentinel,
        ModerationModel::Arbiter,
    ];
    for m in variants {
        assert_eq!(ModerationModel::parse(m.to_wire_string()), Ok(m));
    }
}

#[test]
fn model_parse_is_case_insensitive() {
    assert_eq!(
        ModerationModel::parse("OBSERVER"),
        Ok(ModerationModel::Observer)
    );
    assert_eq!(
        ModerationModel::parse("Sentinel"),
        Ok(ModerationModel::Sentinel)
    );
    assert_eq!(
        ModerationModel::parse("aRbItEr"),
        Ok(ModerationModel::Arbiter)
    );
    assert_eq!(ModerationModel::parse("AUTO"), Ok(ModerationModel::Auto));
}

#[test]
fn model_parse_rejects_unknown() {
    assert_eq!(
        ModerationModel::parse("overseer"),
        Err(EnumParseError::UnknownVariant)
    );
    assert_eq!(
        ModerationModel::parse(""),
        Err(EnumParseError::UnknownVariant)
    );
}

#[test]
fn model_names_and_costs() {
    assert_eq!(ModerationModel::Observer.to_name(), "Observer");
    assert_eq!(ModerationModel::Sentinel.to_name(), "Sentinel");
    assert_eq!(ModerationModel::Arbiter.to_name(), "Arbiter");
    assert_eq!(ModerationModel::Observer.credits_per_byte(), 1);
    assert_eq!(ModerationModel::Sentinel.credits_per_byte(), 3);
    assert_eq!(ModerationModel::Arbiter.credits_per_byte(), 9);
}

#[test]
fn all_models_lists_concrete_models() {
    let models = ModerationModel::all_models();
    assert_eq!(
        models,
        vec![
            ModerationModel::Observer,
            ModerationModel::Sentinel,
            ModerationModel::Arbiter,
        ]
    );
}

#[test]
fn label_wire_round_trip_all_variants() {
    let variants = [
        ModerationLabel::S,
        ModerationLabel::H,
        ModerationLabel::V,
        ModerationLabel::HR,
        ModerationLabel::SH,
        ModerationLabel::S3,
        ModerationLabel::SP,
        ModerationLabel::SE,
        ModerationLabel::T,
    ];
    for l in variants {
        assert_eq!(ModerationLabel::parse(l.to_wire_string()), Ok(l));
    }
}

#[test]
fn label_parse_is_exact_case() {
    assert_eq!(ModerationLabel::parse("S"), Ok(ModerationLabel::S));
    assert_eq!(
        ModerationLabel::parse("s"),
        Err(EnumParseError::UnknownVariant)
    );
    assert_eq!(
        ModerationLabel::parse("hr"),
        Err(EnumParseError::UnknownVariant)
    );
    assert_eq!(
        ModerationLabel::parse("X"),
        Err(EnumParseError::UnknownVariant)
    );
}

#[test]
fn label_names() {
    assert_eq!(ModerationLabel::S.to_name(), "Sexual");
    assert_eq!(ModerationLabel::H.to_name(), "Harassment");
    assert_eq!(ModerationLabel::V.to_name(), "Violence");
    assert_eq!(ModerationLabel::HR.to_name(), "Hate/Racism");
    assert_eq!(ModerationLabel::SH.to_name(), "Self-Harm");
    assert_eq!(ModerationLabel::S3.to_name(), "Sexual (Severe/Minors)");
    assert_eq!(ModerationLabel::SP.to_name(), "Spam");
    assert_eq!(ModerationLabel::SE.to_name(), "Sensitive Content");
    assert_eq!(ModerationLabel::T.to_name(), "Toxicity");
}

#[test]
fn all_labels_excludes_toxicity() {
    let labels = ModerationLabel::all_labels();
    assert_eq!(labels.len(), 8);
    assert!(!labels.contains(&ModerationLabel::T));
    assert!(labels.contains(&ModerationLabel::S));
    assert!(labels.contains(&ModerationLabel::SE));
}

#[test]
fn action_wire_round_trip_all_variants() {
    let variants = [
        ModerationAction::Delete,
        ModerationAction::Timeout,
        ModerationAction::Warn,
    ];
    for a in variants {
        assert_eq!(ModerationAction::parse(a.to_wire_string()), Ok(a));
    }
}

#[test]
fn action_parse_is_exact_case() {
    assert_eq!(ModerationAction::parse("delete"), Ok(ModerationAction::Delete));
    assert_eq!(
        ModerationAction::parse("Delete"),
        Err(EnumParseError::UnknownVariant)
    );
    assert_eq!(
        ModerationAction::parse("ban"),
        Err(EnumParseError::UnknownVariant)
    );
}

#[test]
fn role_filter_mode_wire_round_trip_all_variants() {
    for m in [RoleFilterMode::Include, RoleFilterMode::Exclude] {
        assert_eq!(RoleFilterMode::parse(m.to_wire_string()), Ok(m));
    }
    assert_eq!(
        RoleFilterMode::parse("Include"),
        Err(EnumParseError::UnknownVariant)
    );
}

#[test]
fn tier_wire_round_trip_all_variants() {
    for t in [Tier::Free, Tier::Basic, Tier::Standard, Tier::Premium] {
        assert_eq!(Tier::parse(t.to_wire_string()), Ok(t));
    }
}

#[test]
fn tier_parse_is_case_insensitive() {
    assert_eq!(Tier::parse("FREE"), Ok(Tier::Free));
    assert_eq!(Tier::parse("Premium"), Ok(Tier::Premium));
    assert_eq!(Tier::parse("gold"), Err(EnumParseError::UnknownVariant));
}

#[test]
fn lenient_conversions_default_on_unknown_values() {
    assert_eq!(Tier::from("premium"), Tier::Premium);
    assert_eq!(Tier::from("STANDARD".to_string()), Tier::Standard);
    assert_eq!(Tier::from("gold"), Tier::Free);
    assert_eq!(Tier::from(String::new()), Tier::Free);
    assert_eq!(BillingCycle::from("annual"), BillingCycle::Annual);
    assert_eq!(
        BillingCycle::from("Triennial".to_string()),
        BillingCycle::Triennial
    );
    assert_eq!(BillingCycle::from("weekly"), BillingCycle::Monthly);
}

#[test]
fn tier_catalog() {
    assert_eq!(
        Tier::all_tiers(),
        vec![Tier::Free, Tier::Basic, Tier::Standard, Tier::Premium]
    );
    assert_eq!(Tier::Free.monthly_credit_cap(), 50_000);
    assert_eq!(Tier::Basic.monthly_credit_cap(), 2_500_000);
    assert_eq!(Tier::Standard.monthly_credit_cap(), 7_500_000);
    assert_eq!(Tier::Premium.monthly_credit_cap(), 22_500_000);
    assert_eq!(
        Tier::Free.allowed_models(),
        vec![ModerationModel::Observer]
    );
    assert_eq!(
        Tier::Basic.allowed_models(),
        vec![ModerationModel::Observer]
    );
    assert_eq!(
        Tier::Standard.allowed_models(),
        vec![ModerationModel::Observer, ModerationModel::Sentinel]
    );
    assert_eq!(
        Tier::Premium.allowed_models(),
        vec![
            ModerationModel::Observer,
            ModerationModel::Sentinel,
            ModerationModel::Arbiter,
        ]
    );
}

#[test]
fn tier_descriptions_and_features() {
    assert_eq!(Tier::Basic.get_description(), "For small communities.");
    assert_eq!(Tier::Standard.get_description(), "For growing communities.");
    assert_eq!(
        Tier::Premium.get_description(),
        "For large communities & orgs."
    );
    assert_eq!(
        Tier::Free.get_description(),
        "Free tier with limited features."
    );
    assert_eq!(
        Tier::Basic.get_features(),
        vec![
            "Access to Observer Model",
            "Discord Bot and Rest API Access",
            "Context Awareness",
            "2.5 Million Credits/Month",
        ]
    );
    assert_eq!(
        Tier::Premium.get_features(),
        vec![
            "Everything in Standard",
            "Access to Arbiter Model",
            "22.5 Million Credits/Month",
        ]
    );
    assert_eq!(Tier::Free.referral_multiplier_basis_points(), 0);
    assert_eq!(Tier::Basic.referral_multiplier_basis_points(), 500);
    assert_eq!(Tier::Standard.referral_multiplier_basis_points(), 750);
    assert_eq!(Tier::Premium.referral_multiplier_basis_points(), 1125);
}

#[test]
fn cycle_wire_round_trip_all_variants() {
    for c in [
        BillingCycle::Monthly,
        BillingCycle::Quarterly,
        BillingCycle::Annual,
        BillingCycle::Triennial,
    ] {
        assert_eq!(BillingCycle::parse(c.to_wire_string()), Ok(c));
    }
    assert_eq!(
        BillingCycle::parse("QUARTERLY"),
        Ok(BillingCycle::Quarterly)
    );
    assert_eq!(
        BillingCycle::parse("weekly"),
        Err(EnumParseError::UnknownVariant)
    );
}

#[test]
fn cycle_lookup_tables() {
    assert_eq!(BillingCycle::Monthly.period_suffix(), "month");
    assert_eq!(BillingCycle::Quarterly.period_suffix(), "3 months");
    assert_eq!(BillingCycle::Annual.period_suffix(), "year");
    assert_eq!(BillingCycle::Triennial.period_suffix(), "3 years");
    assert_eq!(BillingCycle::Monthly.stripe_interval(), "month");
    assert_eq!(BillingCycle::Quarterly.stripe_interval(), "month");
    assert_eq!(BillingCycle::Annual.stripe_interval(), "year");
    assert_eq!(BillingCycle::Triennial.stripe_interval(), "year");
    assert_eq!(BillingCycle::Monthly.stripe_interval_count(), 1);
    assert_eq!(BillingCycle::Quarterly.stripe_interval_count(), 3);
    assert_eq!(BillingCycle::Annual.stripe_interval_count(), 1);
    assert_eq!(BillingCycle::Triennial.stripe_interval_count(), 3);
    assert_eq!(
        BillingCycle::get_all_cycles(),
        vec![
            BillingCycle::Monthly,
            BillingCycle::Quarterly,
            BillingCycle::Annual,
            BillingCycle::Triennial,
        ]
    );
}

#[test]
fn currency_symbols() {
    let price = |code: &str| FormattedPrice {
        price_id: "price_1".to_string(),
        amount_cents: 999,
        currency: code.to_string(),
    };
    assert_eq!(price("usd").currency_symbol(), "$");
    assert_eq!(price("USD").currency_symbol(), "$");
    assert_eq!(price("EUR").currency_symbol(), "\u{20ac}");
    assert_eq!(price("gbp").currency_symbol(), "\u{a3}");
    assert_eq!(price("JPY").currency_symbol(), "\u{a5}");
    assert_eq!(price("CAD").currency_symbol(), "CA$");
    assert_eq!(price("AUD").currency_symbol(), "A$");
    assert_eq!(price("CHF").currency_symbol(), "CHF ");
    assert_eq!(price("CNY").currency_symbol(), "\u{a5}");
    assert_eq!(price("INR").currency_symbol(), "\u{20b9}");
    assert_eq!(price("sek").currency_symbol(), "sek");
}

#[test]
fn tier_pricing_delegates_to_tier() {
    let pricing = TierPricing {
        tier: Tier::Standard,
        prices: Vec::new(),
    };
    assert_eq!(pricing.description(), "For growing communities.");
    assert_eq!(pricing.features(), Tier::Standard.get_features());
}
