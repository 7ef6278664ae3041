//! Guild-facing shapes: guild/channel/role introspection data, the per-guild
//! moderation configuration, and the action and role-filter registries.
//!
//! Where the service keys collections by an id string, this library carries
//! them as lists whose entries hold their own id (or as lists of key/value
//! pairs); the surrounding service owns the keyed-map form.

use vstd::prelude::*;

use crate::errors::EnumParseError;
use crate::moderate::{ModerationLabel, ModerationModel};
use crate::text::str_eq;

verus! {

#[derive(Clone, Debug)]
pub struct GuildsInfoRequest {
    pub discord_id: String,
    pub admin_guild_ids: Vec<String>,
    pub guild_admin_ids: Vec<(String, Vec<String>)>,
}

#[derive(Clone, Debug)]
pub struct GuildsInfoResponse {
    pub guilds: Vec<GuildInfo>,
}

#[derive(Clone, Debug)]
pub struct GuildInfoRequest {
    pub discord_id: String,
    pub guild_admin_ids: Vec<String>,
}

#[derive(Clone, Debug)]
pub struct GuildInfo {
    pub id: String,
    pub name: String,
    pub owner_id: String,
    pub icon: Option<String>,
    pub channels: Vec<ChannelInfo>,
    pub roles: Vec<RoleInfo>,
    pub admins: Vec<UserInfo>,
}

#[derive(Clone, Debug)]
pub struct ChannelInfo {
    pub id: String,
    pub name: String,
    pub channel_type: String,
}

#[derive(Clone, Debug)]
pub struct RoleInfo {
    pub id: String,
    pub name: String,
    pub color: u32,
    pub position: u16,
}

#[derive(Clone, Debug)]
pub struct AdminInfo {
    pub user_info: UserInfo,
    pub subscription_tier: String,
    pub has_account: bool,
}

#[derive(Clone, Debug)]
pub struct AdminConfig {
    pub is_opted_in: bool,
}

#[derive(Clone, Debug)]
pub struct AdminData {
    pub admin_info: AdminInfo,
    pub admin_config: AdminConfig,
}

#[derive(Clone, Debug)]
pub struct DiscordStatusResponse {
    pub discord_id: Option<String>,
    pub email: Option<String>,
    pub username: Option<String>,
}

#[derive(Clone, Debug)]
pub struct UserInfo {
    pub discord_id: String,
    pub username: String,
    pub is_owner: bool,
    pub avatar: Option<String>,
}

#[derive(Clone, Debug)]
pub struct CheckAccountRequest {
    pub guild_id: String,
    pub owner_discord_id: String,
}

#[derive(Clone, Debug)]
pub struct CheckAccountResponse {
    pub has_account: bool,
    pub has_subscription: bool,
    pub account_tier: Option<String>,
}

#[derive(Clone, Debug)]
pub struct DiscordModerateRequest {
    pub guild_info: GuildInfo,
    pub text: String,
}

#[derive(Clone, Debug)]
pub struct DiscordDataResponse {
    pub discord_data: Vec<(String, DiscordData)>,
}

#[derive(Clone, Debug)]
pub struct DiscordData {
    pub guild_info: GuildInfo,
    pub guild_config: GuildConfig,
    pub admin_data: Vec<(String, AdminData)>,
}

/// Per-guild moderation settings. `moderated_channels` matters only when
/// `moderate_all_channels` is false, and `role_filter_mode` with
/// `filtered_roles` only when `moderate_all_roles` is false.
#[derive(Clone, Debug)]
pub struct GuildConfig {
    pub moderate_all_channels: bool,
    pub moderated_channels: Vec<ChannelInfo>,
    pub enabled_labels: Vec<ModerationLabel>,
    pub moderate_all_roles: bool,
    pub role_filter_mode: RoleFilterMode,
    pub filtered_roles: Vec<RoleInfo>,
    pub actions: Vec<ModerationAction>,
    pub is_active: bool,
    pub model: ModerationModel,
    pub alerts_channel: Option<String>,
    pub context_history_count: i32,
    pub enable_context: bool,
}

/// An enforcement operation applied when a message is flagged.
#[derive(Clone, Copy, Debug, PartialEq, Eq, Structural)]
pub enum ModerationAction {
    Delete,
    Timeout,
    Warn,
}

/// How `filtered_roles` is interpreted: `Include` moderates only authors
/// holding a listed role, `Exclude` moderates everyone else.
#[derive(Clone, Copy, Debug, PartialEq, Eq, Structural)]
pub enum RoleFilterMode {
    Include,
    Exclude,
}

impl Default for GuildConfig {
    /// The documented default configuration: active, all channels moderated,
    /// exclude-mode role filter with an empty exclusion set (so every role is
    /// moderated), every label enabled except `T`, a single `Delete` action,
    /// the `Observer` model, and context gathering disabled with a history
    /// count of 5.
    fn default() -> (r: GuildConfig)
        ensures
            r.moderate_all_channels == true,
            r.moderated_channels@ == Seq::<ChannelInfo>::empty(),
            r.enabled_labels@ == seq![
                ModerationLabel::S,
                ModerationLabel::H,
                ModerationLabel::V,
                ModerationLabel::HR,
                ModerationLabel::SH,
                ModerationLabel::S3,
                ModerationLabel::SP,
                ModerationLabel::SE,
            ],
            r.moderate_all_roles == true,
            r.role_filter_mode == RoleFilterMode::Exclude,
            r.filtered_roles@ == Seq::<RoleInfo>::empty(),
            r.actions@ == seq![ModerationAction::Delete],
            r.is_active == true,
            r.model == ModerationModel::Observer,
            r.alerts_channel is None,
            r.context_history_count == 5,
            r.enable_context == false,
    {
        let mut actions: Vec<ModerationAction> = Vec::new();
        actions.push(ModerationAction::Delete);
        assert(actions@ =~= seq![ModerationAction::Delete]);
        GuildConfig {
            moderate_all_channels: true,
            moderated_channels: Vec::new(),
            enabled_labels: ModerationLabel::all_labels(),
            moderate_all_roles: true,
            role_filter_mode: RoleFilterMode::Exclude,
            filtered_roles: Vec::new(),
            actions,
            is_active: true,
            model: ModerationModel::Observer,
            alerts_channel: None,
            context_history_count: 5,
            enable_context: false,
        }
    }
}

/// The wire form of each action.
pub open spec fn action_wire(a: ModerationAction) -> Seq<char> {
    match a {
        ModerationAction::Delete => "delete"@,
        ModerationAction::Timeout => "timeout"@,
        ModerationAction::Warn => "warn"@,
    }
}

/// Parsing an action wire string is exact-case.
pub open spec fn action_from_wire(s: Seq<char>) -> Result<ModerationAction, EnumParseError> {
    if s == "delete"@ {
        Ok(ModerationAction::Delete)
    } else if s == "timeout"@ {
        Ok(ModerationAction::Timeout)
    } else if s == "warn"@ {
        Ok(ModerationAction::Warn)
    } else {
        Err(EnumParseError::UnknownVariant)
    }
}

impl ModerationAction {
    /// The wire form of this action.
    pub fn to_wire_string(&self) -> (r: &'static str)
        ensures
            r@ == action_wire(*self),
    {
        match self {
            ModerationAction::Delete => "delete",
            ModerationAction::Timeout => "timeout",
            ModerationAction::Warn => "warn",
        }
    }

    /// Parses an action from its exact-case wire string.
    pub fn parse(s: &str) -> (r: Result<ModerationAction, EnumParseError>)
        ensures
            r == action_from_wire(s@),
    {
        if str_eq(s, "delete") {
            Ok(ModerationAction::Delete)
        } else if str_eq(s, "timeout") {
            Ok(ModerationAction::Timeout)
        } else if str_eq(s, "warn") {
            Ok(ModerationAction::Warn)
        } else {
            Err(EnumParseError::UnknownVariant)
        }
    }
}

/// The wire form of each role-filter mode.
pub open spec fn role_filter_mode_wire(m: RoleFilterMode) -> Seq<char> {
    match m {
        RoleFilterMode::Include => "include"@,
        RoleFilterMode::Exclude => "exclude"@,
    }
}

/// Parsing a role-filter mode is exact-case.
pub open spec fn role_filter_mode_from_wire(s: Seq<char>) -> Result<RoleFilterMode, EnumParseError> {
    if s == "include"@ {
        Ok(RoleFilterMode::Include)
    } else if s == "exclude"@ {
        Ok(RoleFilterMode::Exclude)
    } else {
        Err(EnumParseError::UnknownVariant)
    }
}

impl RoleFilterMode {
    /// The wire form of this mode.
    pub fn to_wire_string(&self) -> (r: &'static str)
        ensures
            r@ == role_filter_mode_wire(*self),
    {
        match self {
            RoleFilterMode::Include => "include",
            RoleFilterMode::Exclude => "exclude",
        }
    }

    /// Parses a role-filter mode from its exact-case wire string.
    pub fn parse(s: &str) -> (r: Result<RoleFilterMode, EnumParseError>)
        ensures
            r == role_filter_mode_from_wire(s@),
    {
        if str_eq(s, "include") {
            Ok(RoleFilterMode::Include)
        } else if str_eq(s, "exclude") {
            Ok(RoleFilterMode::Exclude)
        } else {
            Err(EnumParseError::UnknownVariant)
        }
    }
}

/// Law: for every action, parsing the wire string gives the action back.
pub proof fn lemma_action_wire_round_trip(a: ModerationAction)
    ensures
        action_from_wire(action_wire(a)) == Ok::<ModerationAction, EnumParseError>(a),
{
    reveal_strlit("delete");
    reveal_strlit("timeout");
    reveal_strlit("warn");
    match a {
        ModerationAction::Delete => {
        },
        ModerationAction::Timeout => {
            assert("timeout"@.len() != "delete"@.len());
        },
        ModerationAction::Warn => {
            assert("warn"@.len() != "delete"@.len());
            assert("warn"@.len() != "timeout"@.len());
        },
    }
}

/// Law: for every role-filter mode, parsing the wire string gives the mode
/// back.
pub proof fn lemma_role_filter_mode_wire_round_trip(m: RoleFilterMode)
    ensures
        role_filter_mode_from_wire(role_filter_mode_wire(m)) == Ok::<
            RoleFilterMode,
            EnumParseError,
        >(m),
{
    reveal_strlit("include");
    reveal_strlit("exclude");
    if m is Exclude {
        assert("exclude"@[0] != "include"@[0]);
    }
}

} // verus!
