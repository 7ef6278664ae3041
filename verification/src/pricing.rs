//! Billing shapes and the tier and billing-cycle registries, including the
//! static tier catalog that feeds the model resolver its allowed models and
//! monthly credit cap.
//!
//! Monetary amounts are carried in minor currency units (cents, pence) and
//! usage ratios in basis points (hundredths of a percent); timestamps are
//! seconds since the Unix epoch. The service boundary owns any floating
//! point or calendar presentation of these values.

use vstd::prelude::*;

use vstd::string::StringExecFns;

use crate::errors::EnumParseError;
use crate::moderate::ModerationModel;
use crate::text::{ci_seq_eq, str_eq_ignore_case};

verus! {

/// A subscription tier.
#[derive(Clone, Copy, Debug, PartialEq, Eq, Structural)]
pub enum Tier {
    Free,
    Basic,
    Standard,
    Premium,
}

/// How often a subscription renews.
#[derive(Clone, Copy, Debug, PartialEq, Eq, Structural)]
pub enum BillingCycle {
    Monthly,
    Quarterly,
    Annual,
    Triennial,
}

#[derive(Clone, Debug)]
pub struct CreditBalance {
    pub used_current_period: i64,
    pub max_monthly_credits: i64,
    pub remaining_credits: i64,
    /// Share of the monthly allocation used, in basis points.
    pub usage_basis_points: u32,
    /// When the balance next resets, as epoch seconds.
    pub reset_date: Option<i64>,
}

#[derive(Clone, Debug)]
pub struct CreditTransaction {
    pub id: String,
    pub amount: i64,
    pub transaction_type: String,
    pub model_type: Option<String>,
    pub bytes_processed: Option<i64>,
    pub description: String,
    /// Epoch seconds.
    pub created_at: i64,
}

#[derive(Clone, Debug)]
pub struct StripeSubscriptionInfo {
    pub tier: Tier,
    pub billing_cycle: BillingCycle,
    pub status: String,
    /// Epoch seconds.
    pub current_period_end: Option<i64>,
    pub cancel_at_period_end: bool,
    pub is_active: bool,
    /// Price in the smallest currency unit (pence, cents).
    pub price: Option<i64>,
    /// Currency code, e.g. "gbp", "usd".
    pub currency: Option<String>,
    pub payment_method_id: Option<String>,
}

#[derive(Clone, Debug)]
pub struct SubscriptionInfo {
    pub tier: Tier,
    pub cycle: BillingCycle,
    /// Price in the smallest currency unit.
    pub price: i64,
    /// Epoch seconds.
    pub expires_at: Option<i64>,
    pub max_monthly_credits: i64,
    pub is_active: bool,
}

#[derive(Clone, Debug)]
pub struct CreditsInfoResponse {
    pub balance: i64,
    pub monthly_allocation: i64,
    pub used_this_month: i64,
    pub remaining_this_month: i64,
    /// Share of the monthly allocation used, in basis points.
    pub usage_basis_points: u32,
}

#[derive(Clone, Debug)]
pub struct CreateCheckoutSessionRequest {
    pub tier: Tier,
    pub billing_cycle: BillingCycle,
    pub referral_code: Option<String>,
}

#[derive(Clone, Debug)]
pub struct CreateCheckoutSessionResponse {
    pub checkout_url: String,
}

#[derive(Clone, Debug)]
pub struct SubscriptionUpdateResponse {
    pub success: bool,
    pub message: String,
}

#[derive(Clone, Debug)]
pub struct ChangePlanRequest {
    pub tier: Tier,
    pub billing_cycle: BillingCycle,
}

#[derive(Clone, Debug)]
pub struct PaymentMethodResponse {
    pub last4: String,
    pub brand: String,
    pub exp_month: u32,
    pub exp_year: u32,
}

#[derive(Clone, Debug)]
pub struct BillingPortalResponse {
    pub portal_url: String,
}

#[derive(Clone, Debug)]
pub struct ToggleAutoRenewalRequest {
    pub enable: bool,
}

#[derive(Clone, Debug)]
pub struct ToggleAutoRenewalResponse {
    pub success: bool,
    pub message: String,
}

#[derive(Clone, Debug)]
pub struct PriceInfo {
    pub price_id: String,
    pub product_id: String,
    pub tier: Tier,
    pub billing_cycle: BillingCycle,
    /// Amount in cents.
    pub amount: i64,
    pub currency: String,
    pub payment_link: Option<String>,
}

#[derive(Clone, Debug)]
pub struct FormattedPrice {
    pub price_id: String,
    /// Amount in cents; the display form in major units belongs to the
    /// presentation layer.
    pub amount_cents: i64,
    pub currency: String,
}

#[derive(Clone, Debug)]
pub struct TierPricing {
    pub tier: Tier,
    /// One price per billing cycle.
    pub prices: Vec<(BillingCycle, FormattedPrice)>,
}

#[derive(Clone, Debug)]
pub struct PricingData {
    pub tiers: Vec<TierPricing>,
    pub billing_cycles: Vec<BillingCycleInfo>,
}

#[derive(Clone, Debug)]
pub struct BillingCycleInfo {
    pub cycle: BillingCycle,
    pub display_name: String,
    pub period_suffix: String,
    pub discount_percentage: Option<i32>,
}

#[derive(Clone, Debug)]
pub struct ReferralStats {
    pub referral_code: String,
    pub total_referrals: usize,
    pub active_referrals: usize,
    /// Referral bonus multiplier, in basis points.
    pub current_multiplier_basis_points: u32,
    pub referral_breakdown: Vec<ReferralInfo>,
}

#[derive(Clone, Debug)]
pub struct ReferralInfo {
    pub user_id: String,
    pub created_at: String,
    pub tier: Tier,
    pub is_active: bool,
    /// This referral's share of the bonus multiplier, in basis points.
    pub multiplier_contribution_basis_points: u32,
}

/// The machine-readable (lowercase) wire form of each tier.
pub open spec fn tier_wire(t: Tier) -> Seq<char> {
    match t {
        Tier::Free => "free"@,
        Tier::Basic => "basic"@,
        Tier::Standard => "standard"@,
        Tier::Premium => "premium"@,
    }
}

/// The human-readable display name of each tier.
pub open spec fn tier_display_name(t: Tier) -> Seq<char> {
    match t {
        Tier::Free => "Free"@,
        Tier::Basic => "Basic"@,
        Tier::Standard => "Standard"@,
        Tier::Premium => "Premium"@,
    }
}

/// Parsing a tier wire string is case-insensitive.
pub open spec fn tier_from_wire(s: Seq<char>) -> Result<Tier, EnumParseError> {
    if ci_seq_eq(s, "free"@) {
        Ok(Tier::Free)
    } else if ci_seq_eq(s, "basic"@) {
        Ok(Tier::Basic)
    } else if ci_seq_eq(s, "standard"@) {
        Ok(Tier::Standard)
    } else if ci_seq_eq(s, "premium"@) {
        Ok(Tier::Premium)
    } else {
        Err(EnumParseError::UnknownVariant)
    }
}

/// Each tier's description line.
pub open spec fn tier_description(t: Tier) -> Seq<char> {
    match t {
        Tier::Free => "Free tier with limited features."@,
        Tier::Basic => "For small communities."@,
        Tier::Standard => "For growing communities."@,
        Tier::Premium => "For large communities & orgs."@,
    }
}

/// Each tier's feature lines.
pub open spec fn tier_features(t: Tier) -> Seq<Seq<char>> {
    match t {
        Tier::Free => seq![
            "Access to Observer Model"@,
            "Discord Bot and Rest API Access"@,
            "50000 Credits/Month"@,
        ],
        Tier::Basic => seq![
            "Access to Observer Model"@,
            "Discord Bot and Rest API Access"@,
            "Context Awareness"@,
            "2.5 Million Credits/Month"@,
        ],
        Tier::Standard => seq![
            "Everything in Basic"@,
            "Access to Sentinel Model"@,
            "7.5 Million Credits/Month"@,
        ],
        Tier::Premium => seq![
            "Everything in Standard"@,
            "Access to Arbiter Model"@,
            "22.5 Million Credits/Month"@,
        ],
    }
}

/// The concrete models a tier may use, cheapest first.
pub open spec fn tier_allowed_models(t: Tier) -> Seq<ModerationModel> {
    match t {
        Tier::Free => seq![ModerationModel::Observer],
        Tier::Basic => seq![ModerationModel::Observer],
        Tier::Standard => seq![ModerationModel::Observer, ModerationModel::Sentinel],
        Tier::Premium => seq![
            ModerationModel::Observer,
            ModerationModel::Sentinel,
            ModerationModel::Arbiter,
        ],
    }
}

/// The monthly credit allocation of each tier.
pub open spec fn tier_credit_cap(t: Tier) -> int {
    match t {
        Tier::Free => 50_000,
        Tier::Basic => 2_500_000,
        Tier::Standard => 7_500_000,
        Tier::Premium => 22_500_000,
    }
}

impl Tier {
    /// Every tier, cheapest first.
    pub fn all_tiers() -> (r: Vec<Tier>)
        ensures
            r@ == seq![Tier::Free, Tier::Basic, Tier::Standard, Tier::Premium],
    {
        let mut v: Vec<Tier> = Vec::new();
        v.push(Tier::Free);
        v.push(Tier::Basic);
        v.push(Tier::Standard);
        v.push(Tier::Premium);
        assert(v@ =~= seq![Tier::Free, Tier::Basic, Tier::Standard, Tier::Premium]);
        v
    }

    /// The machine-readable (lowercase) wire form of this tier.
    pub fn to_wire_string(&self) -> (r: &'static str)
        ensures
            r@ == tier_wire(*self),
    {
        match self {
            Tier::Free => "free",
            Tier::Basic => "basic",
            Tier::Standard => "standard",
            Tier::Premium => "premium",
        }
    }

    /// The human-readable display name of this tier.
    pub fn display_name(&self) -> (r: &'static str)
        ensures
            r@ == tier_display_name(*self),
    {
        match self {
            Tier::Free => "Free",
            Tier::Basic => "Basic",
            Tier::Standard => "Standard",
            Tier::Premium => "Premium",
        }
    }

    /// Parses a tier from its wire string, ignoring ASCII case.
    pub fn parse(s: &str) -> (r: Result<Tier, EnumParseError>)
        ensures
            r == tier_from_wire(s@),
    {
        if str_eq_ignore_case(s, "free") {
            Ok(Tier::Free)
        } else if str_eq_ignore_case(s, "basic") {
            Ok(Tier::Basic)
        } else if str_eq_ignore_case(s, "standard") {
            Ok(Tier::Standard)
        } else if str_eq_ignore_case(s, "premium") {
            Ok(Tier::Premium)
        } else {
            Err(EnumParseError::UnknownVariant)
        }
    }

    /// This tier's description line.
    pub fn get_description(&self) -> (r: &'static str)
        ensures
            r@ == tier_description(*self),
    {
        match self {
            Tier::Free => "Free tier with limited features.",
            Tier::Basic => "For small communities.",
            Tier::Standard => "For growing communities.",
            Tier::Premium => "For large communities & orgs.",
        }
    }

    /// This tier's feature lines.
    pub fn get_features(&self) -> (r: Vec<&'static str>)
        ensures
            r.deep_view() == tier_features(*self),
    {
        let mut v: Vec<&'static str> = Vec::new();
        match self {
            Tier::Free => {
                v.push("Access to Observer Model");
                v.push("Discord Bot and Rest API Access");
                v.push("50000 Credits/Month");
            },
            Tier::Basic => {
                v.push("Access to Observer Model");
                v.push("Discord Bot and Rest API Access");
                v.push("Context Awareness");
                v.push("2.5 Million Credits/Month");
            },
            Tier::Standard => {
                v.push("Everything in Basic");
                v.push("Access to Sentinel Model");
                v.push("7.5 Million Credits/Month");
            },
            Tier::Premium => {
                v.push("Everything in Standard");
                v.push("Access to Arbiter Model");
                v.push("22.5 Million Credits/Month");
            },
        }
        proof {
            assert(v.deep_view() =~= tier_features(*self));
        }
        v
    }

    /// The concrete models this tier may use, cheapest first. Together with
    /// `monthly_credit_cap` this is the static catalog that feeds the model
    /// resolver.
    pub fn allowed_models(&self) -> (r: Vec<ModerationModel>)
        ensures
            r@ == tier_allowed_models(*self),
    {
        let mut v: Vec<ModerationModel> = Vec::new();
        v.push(ModerationModel::Observer);
        match self {
            Tier::Free => {
            },
            Tier::Basic => {
            },
            Tier::Standard => {
                v.push(ModerationModel::Sentinel);
            },
            Tier::Premium => {
                v.push(ModerationModel::Sentinel);
                v.push(ModerationModel::Arbiter);
            },
        }
        proof {
            assert(v@ =~= tier_allowed_models(*self));
        }
        v
    }

    /// The monthly credit allocation of this tier.
    pub fn monthly_credit_cap(&self) -> (r: i64)
        ensures
            r == tier_credit_cap(*self),
    {
        match self {
            Tier::Free => 50_000,
            Tier::Basic => 2_500_000,
            Tier::Standard => 7_500_000,
            Tier::Premium => 22_500_000,
        }
    }

    /// The referral bonus multiplier this tier earns, in basis points.
    pub fn referral_multiplier_basis_points(&self) -> (r: u32)
        ensures
            r == match *self {
                Tier::Free => 0int,
                Tier::Basic => 500int,
                Tier::Standard => 750int,
                Tier::Premium => 1125int,
            },
    {
        match self {
            Tier::Free => 0,
            Tier::Basic => 500,
            Tier::Standard => 750,
            Tier::Premium => 1125,
        }
    }
}

/// The machine-readable (lowercase) wire form of each billing cycle.
pub open spec fn cycle_wire(c: BillingCycle) -> Seq<char> {
    match c {
        BillingCycle::Monthly => "monthly"@,
        BillingCycle::Quarterly => "quarterly"@,
        BillingCycle::Annual => "annual"@,
        BillingCycle::Triennial => "triennial"@,
    }
}

/// The human-readable display name of each billing cycle.
pub open spec fn cycle_display_name(c: BillingCycle) -> Seq<char> {
    match c {
        BillingCycle::Monthly => "Monthly"@,
        BillingCycle::Quarterly => "Quarterly"@,
        BillingCycle::Annual => "Annual"@,
        BillingCycle::Triennial => "Triennial"@,
    }
}

/// Parsing a billing-cycle wire string is case-insensitive.
pub open spec fn cycle_from_wire(s: Seq<char>) -> Result<BillingCycle, EnumParseError> {
    if ci_seq_eq(s, "monthly"@) {
        Ok(BillingCycle::Monthly)
    } else if ci_seq_eq(s, "quarterly"@) {
        Ok(BillingCycle::Quarterly)
    } else if ci_seq_eq(s, "annual"@) {
        Ok(BillingCycle::Annual)
    } else if ci_seq_eq(s, "triennial"@) {
        Ok(BillingCycle::Triennial)
    } else {
        Err(EnumParseError::UnknownVariant)
    }
}

impl BillingCycle {
    /// The suffix shown after a price for this cycle.
    pub fn period_suffix(&self) -> (r: &'static str)
        ensures
            r@ == match *self {
                BillingCycle::Monthly => "month"@,
                BillingCycle::Quarterly => "3 months"@,
                BillingCycle::Annual => "year"@,
                BillingCycle::Triennial => "3 years"@,
            },
    {
        match self {
            BillingCycle::Monthly => "month",
            BillingCycle::Quarterly => "3 months",
            BillingCycle::Annual => "year",
            BillingCycle::Triennial => "3 years",
        }
    }

    /// Every billing cycle, shortest first.
    pub fn get_all_cycles() -> (r: Vec<BillingCycle>)
        ensures
            r@ == seq![
                BillingCycle::Monthly,
                BillingCycle::Quarterly,
                BillingCycle::Annual,
                BillingCycle::Triennial,
            ],
    {
        let mut v: Vec<BillingCycle> = Vec::new();
        v.push(BillingCycle::Monthly);
        v.push(BillingCycle::Quarterly);
        v.push(BillingCycle::Annual);
        v.push(BillingCycle::Triennial);
        assert(v@ =~= seq![
            BillingCycle::Monthly,
            BillingCycle::Quarterly,
            BillingCycle::Annual,
            BillingCycle::Triennial,
        ]);
        v
    }

    /// The billing interval unit handed to the payment provider.
    pub fn stripe_interval(&self) -> (r: &'static str)
        ensures
            r@ == match *self {
                BillingCycle::Monthly => "month"@,
                BillingCycle::Quarterly => "month"@,
                BillingCycle::Annual => "year"@,
                BillingCycle::Triennial => "year"@,
            },
    {
        match self {
            BillingCycle::Monthly => "month",
            BillingCycle::Quarterly => "month",
            BillingCycle::Annual => "year",
            BillingCycle::Triennial => "year",
        }
    }

    /// How many interval units make up one billing period.
    pub fn stripe_interval_count(&self) -> (r: u32)
        ensures
            r == match *self {
                BillingCycle::Monthly => 1int,
                BillingCycle::Quarterly => 3int,
                BillingCycle::Annual => 1int,
                BillingCycle::Triennial => 3int,
            },
    {
        match self {
            BillingCycle::Monthly => 1,
            BillingCycle::Quarterly => 3,
            BillingCycle::Annual => 1,
            BillingCycle::Triennial => 3,
        }
    }

    /// The machine-readable (lowercase) wire form of this cycle.
    pub fn to_wire_string(&self) -> (r: &'static str)
        ensures
            r@ == cycle_wire(*self),
    {
        match self {
            BillingCycle::Monthly => "monthly",
            BillingCycle::Quarterly => "quarterly",
            BillingCycle::Annual => "annual",
            BillingCycle::Triennial => "triennial",
        }
    }

    /// The human-readable display name of this cycle.
    pub fn display_name(&self) -> (r: &'static str)
        ensures
            r@ == cycle_display_name(*self),
    {
        match self {
            BillingCycle::Monthly => "Monthly",
            BillingCycle::Quarterly => "Quarterly",
            BillingCycle::Annual => "Annual",
            BillingCycle::Triennial => "Triennial",
        }
    }

    /// Parses a billing cycle from its wire string, ignoring ASCII case.
    pub fn parse(s: &str) -> (r: Result<BillingCycle, EnumParseError>)
        ensures
            r == cycle_from_wire(s@),
    {
        if str_eq_ignore_case(s, "monthly") {
            Ok(BillingCycle::Monthly)
        } else if str_eq_ignore_case(s, "quarterly") {
            Ok(BillingCycle::Quarterly)
        } else if str_eq_ignore_case(s, "annual") {
            Ok(BillingCycle::Annual)
        } else if str_eq_ignore_case(s, "triennial") {
            Ok(BillingCycle::Triennial)
        } else {
            Err(EnumParseError::UnknownVariant)
        }
    }
}

impl TierPricing {
    /// This tier's description line, as an owned string.
    pub fn description(&self) -> (r: String)
        ensures
            r@ == tier_description(self.tier),
    {
        String::from_str(self.tier.get_description())
    }

    /// This tier's feature lines.
    pub fn features(&self) -> (r: Vec<&'static str>)
        ensures
            r.deep_view() == tier_features(self.tier),
    {
        self.tier.get_features()
    }
}

/// What the lenient tier conversions return: the parsed tier, with `Free`
/// as the documented fallback for an unrecognized stored value.
pub open spec fn tier_or_free(s: Seq<char>) -> Tier {
    match tier_from_wire(s) {
        Ok(t) => t,
        Err(_) => Tier::Free,
    }
}

/// What the lenient billing-cycle conversions return: the parsed cycle,
/// with `Monthly` as the documented fallback for an unrecognized stored
/// value.
pub open spec fn cycle_or_monthly(s: Seq<char>) -> BillingCycle {
    match cycle_from_wire(s) {
        Ok(c) => c,
        Err(_) => BillingCycle::Monthly,
    }
}

impl From<&str> for Tier {
    /// Lenient conversion for stored tier strings: case-insensitive, with
    /// `Free` as the documented default for unrecognized values.
    fn from(s: &str) -> (t: Tier) {
        match Tier::parse(s) {
            Ok(t) => t,
            Err(_) => Tier::Free,
        }
    }
}

impl vstd::std_specs::convert::FromSpecImpl<&str> for Tier {
    open spec fn obeys_from_spec() -> bool {
        true
    }

    open spec fn from_spec(s: &str) -> Tier {
        tier_or_free(s@)
    }
}

impl From<String> for Tier {
    /// Lenient conversion for stored tier strings: case-insensitive, with
    /// `Free` as the documented default for unrecognized values.
    fn from(s: String) -> (t: Tier) {
        match Tier::parse(s.as_str()) {
            Ok(t) => t,
            Err(_) => Tier::Free,
        }
    }
}

impl vstd::std_specs::convert::FromSpecImpl<String> for Tier {
    open spec fn obeys_from_spec() -> bool {
        true
    }

    open spec fn from_spec(s: String) -> Tier {
        tier_or_free(s@)
    }
}

impl From<&str> for BillingCycle {
    /// Lenient conversion for stored cycle strings: case-insensitive, with
    /// `Monthly` as the documented default for unrecognized values.
    fn from(s: &str) -> (c: BillingCycle) {
        match BillingCycle::parse(s) {
            Ok(c) => c,
            Err(_) => BillingCycle::Monthly,
        }
    }
}

impl vstd::std_specs::convert::FromSpecImpl<&str> for BillingCycle {
    open spec fn obeys_from_spec() -> bool {
        true
    }

    open spec fn from_spec(s: &str) -> BillingCycle {
        cycle_or_monthly(s@)
    }
}

impl From<String> for BillingCycle {
    /// Lenient conversion for stored cycle strings: case-insensitive, with
    /// `Monthly` as the documented default for unrecognized values.
    fn from(s: String) -> (c: BillingCycle) {
        match BillingCycle::parse(s.as_str()) {
            Ok(c) => c,
            Err(_) => BillingCycle::Monthly,
        }
    }
}

impl vstd::std_specs::convert::FromSpecImpl<String> for BillingCycle {
    open spec fn obeys_from_spec() -> bool {
        true
    }

    open spec fn from_spec(s: String) -> BillingCycle {
        cycle_or_monthly(s@)
    }
}

/// Law: for every tier, parsing the wire string gives the tier back.
pub proof fn lemma_tier_wire_round_trip(t: Tier)
    ensures
        tier_from_wire(tier_wire(t)) == Ok::<Tier, EnumParseError>(t),
{
    reveal_strlit("free");
    reveal_strlit("basic");
    reveal_strlit("standard");
    reveal_strlit("premium");
    match t {
        Tier::Free => {
            assert(ci_seq_eq("free"@, "free"@));
        },
        Tier::Basic => {
            assert(!ci_seq_eq("basic"@, "free"@));
            assert(ci_seq_eq("basic"@, "basic"@));
        },
        Tier::Standard => {
            assert(!ci_seq_eq("standard"@, "free"@));
            assert(!ci_seq_eq("standard"@, "basic"@));
            assert(ci_seq_eq("standard"@, "standard"@));
        },
        Tier::Premium => {
            assert(!ci_seq_eq("premium"@, "free"@));
            assert(!ci_seq_eq("premium"@, "basic"@));
            assert(!ci_seq_eq("premium"@, "standard"@));
            assert(ci_seq_eq("premium"@, "premium"@));
        },
    }
}

/// Law: for every billing cycle, parsing the wire string gives the cycle
/// back.
pub proof fn lemma_cycle_wire_round_trip(c: BillingCycle)
    ensures
        cycle_from_wire(cycle_wire(c)) == Ok::<BillingCycle, EnumParseError>(c),
{
    reveal_strlit("monthly");
    reveal_strlit("quarterly");
    reveal_strlit("annual");
    reveal_strlit("triennial");
    match c {
        BillingCycle::Monthly => {
            assert(ci_seq_eq("monthly"@, "monthly"@));
        },
        BillingCycle::Quarterly => {
            assert(!ci_seq_eq("quarterly"@, "monthly"@));
            assert(ci_seq_eq("quarterly"@, "quarterly"@));
        },
        BillingCycle::Annual => {
            assert(!ci_seq_eq("annual"@, "monthly"@));
            assert(!ci_seq_eq("annual"@, "quarterly"@));
            assert(ci_seq_eq("annual"@, "annual"@));
        },
        BillingCycle::Triennial => {
            assert(!ci_seq_eq("triennial"@, "monthly"@));
            assert(!crate::text::ci_char_eq("triennial"@[0], "quarterly"@[0]));
            assert(!ci_seq_eq("triennial"@, "quarterly"@));
            assert(!ci_seq_eq("triennial"@, "annual"@));
            assert(ci_seq_eq("triennial"@, "triennial"@));
        },
    }
}

/// The currency symbol shown for a currency code, compared ignoring ASCII
/// case; an unrecognized code is shown as itself.
pub open spec fn currency_symbol_spec(c: Seq<char>) -> Seq<char> {
    if ci_seq_eq(c, "USD"@) {
        "$"@
    } else if ci_seq_eq(c, "EUR"@) {
        "€"@
    } else if ci_seq_eq(c, "GBP"@) {
        "£"@
    } else if ci_seq_eq(c, "JPY"@) {
        "¥"@
    } else if ci_seq_eq(c, "CAD"@) {
        "CA$"@
    } else if ci_seq_eq(c, "AUD"@) {
        "A$"@
    } else if ci_seq_eq(c, "CHF"@) {
        "CHF "@
    } else if ci_seq_eq(c, "CNY"@) {
        "¥"@
    } else if ci_seq_eq(c, "INR"@) {
        "₹"@
    } else {
        c
    }
}

impl FormattedPrice {
    /// The symbol to show in front of this price.
    pub fn currency_symbol(&self) -> (r: &str)
        ensures
            r@ == currency_symbol_spec(self.currency@),
    {
        if str_eq_ignore_case(self.currency.as_str(), "USD") {
            "$"
        } else if str_eq_ignore_case(self.currency.as_str(), "EUR") {
            "€"
        } else if str_eq_ignore_case(self.currency.as_str(), "GBP") {
            "£"
        } else if str_eq_ignore_case(self.currency.as_str(), "JPY") {
            "¥"
        } else if str_eq_ignore_case(self.currency.as_str(), "CAD") {
            "CA$"
        } else if str_eq_ignore_case(self.currency.as_str(), "AUD") {
            "A$"
        } else if str_eq_ignore_case(self.currency.as_str(), "CHF") {
            "CHF "
        } else if str_eq_ignore_case(self.currency.as_str(), "CNY") {
            "¥"
        } else if str_eq_ignore_case(self.currency.as_str(), "INR") {
            "₹"
        } else {
            self.currency.as_str()
        }
    }
}

impl StripeSubscriptionInfo {
    /// The subscription record of an account without a paid plan: the free
    /// tier, inactive, with no price or payment method.
    pub fn free() -> (r: StripeSubscriptionInfo)
        ensures
            r.tier == Tier::Free,
            r.billing_cycle == BillingCycle::Monthly,
            r.status@ == "inactive"@,
            r.current_period_end is None,
            r.cancel_at_period_end == false,
            r.is_active == false,
            r.price is None,
            r.currency is None,
            r.payment_method_id is None,
    {
        StripeSubscriptionInfo {
            tier: Tier::Free,
            billing_cycle: BillingCycle::Monthly,
            status: String::from_str("inactive"),
            current_period_end: None,
            cancel_at_period_end: false,
            is_active: false,
            price: None,
            currency: None,
            payment_method_id: None,
        }
    }
}

} // verus!
