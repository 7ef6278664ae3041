//! Applicability filter: decides whether a message in a given channel, by an
//! author holding given roles, is in scope for moderation under a guild's
//! configuration.

use vstd::prelude::*;

use crate::discord::{ChannelInfo, GuildConfig, RoleFilterMode, RoleInfo};
use crate::text::str_eq;

verus! {

/// A channel id appears in a channel list.
pub open spec fn channel_id_listed(channels: Seq<ChannelInfo>, id: Seq<char>) -> bool {
    exists|i: int| 0 <= i < channels.len() && #[trigger] channels[i].id@ == id
}

/// A role id appears in a role list.
pub open spec fn role_id_listed(roles: Seq<RoleInfo>, id: Seq<char>) -> bool {
    exists|i: int| 0 <= i < roles.len() && #[trigger] roles[i].id@ == id
}

/// The author holds at least one role from the filtered set.
pub open spec fn author_holds_filtered_role(filtered: Seq<RoleInfo>, author: Seq<String>) -> bool {
    exists|i: int| 0 <= i < author.len() && role_id_listed(filtered, #[trigger] author[i]@)
}

/// Channel gate: the channel is moderated, either because all channels are
/// or because it is on the explicit allow-list.
pub open spec fn channel_gate(c: GuildConfig, channel_id: Seq<char>) -> bool {
    c.moderate_all_channels || channel_id_listed(c.moderated_channels@, channel_id)
}

/// Role gate: all roles are moderated, or the author's roles pass the
/// configured filter mode. `Include` passes authors holding at least one
/// filtered role; `Exclude` passes authors holding none.
pub open spec fn role_gate(c: GuildConfig, author_role_ids: Seq<String>) -> bool {
    c.moderate_all_roles || (match c.role_filter_mode {
        RoleFilterMode::Include => author_holds_filtered_role(c.filtered_roles@, author_role_ids),
        RoleFilterMode::Exclude => !author_holds_filtered_role(
            c.filtered_roles@,
            author_role_ids,
        ),
    })
}

/// A message is in scope iff the configuration is active and both the
/// channel gate and the role gate pass. An inactive configuration outranks
/// every other rule.
pub open spec fn in_scope_spec(
    c: GuildConfig,
    channel_id: Seq<char>,
    author_role_ids: Seq<String>,
) -> bool {
    c.is_active && channel_gate(c, channel_id) && role_gate(c, author_role_ids)
}

/// Whether a channel list holds the given channel id.
fn channel_listed(channels: &Vec<ChannelInfo>, id: &str) -> (r: bool)
    ensures
        r == channel_id_listed(channels@, id@),
{
    let mut i: usize = 0;
    while i < channels.len()
        invariant
            i <= channels@.len(),
            forall|j: int| 0 <= j < i ==> #[trigger] channels@[j].id@ != id@,
        decreases channels@.len() - i,
    {
        if str_eq(channels[i].id.as_str(), id) {
            assert(channels@[i as int].id@ == id@);
            return true;
        }
        i = i + 1;
    }
    false
}

/// Whether a role list holds the given role id.
fn role_listed(roles: &Vec<RoleInfo>, id: &str) -> (r: bool)
    ensures
        r == role_id_listed(roles@, id@),
{
    let mut i: usize = 0;
    while i < roles.len()
        invariant
            i <= roles@.len(),
            forall|j: int| 0 <= j < i ==> #[trigger] roles@[j].id@ != id@,
        decreases roles@.len() - i,
    {
        if str_eq(roles[i].id.as_str(), id) {
            assert(roles@[i as int].id@ == id@);
            return true;
        }
        i = i + 1;
    }
    false
}

/// Whether the author holds at least one role from the filtered set.
fn holds_filtered_role(filtered: &Vec<RoleInfo>, author_role_ids: &Vec<String>) -> (r: bool)
    ensures
        r == author_holds_filtered_role(filtered@, author_role_ids@),
{
    let mut i: usize = 0;
    while i < author_role_ids.len()
        invariant
            i <= author_role_ids@.len(),
            forall|j: int| 0 <= j < i ==> !role_id_listed(filtered@, #[trigger] author_role_ids@[j]@),
        decreases author_role_ids@.len() - i,
    {
        if role_listed(filtered, author_role_ids[i].as_str()) {
            assert(role_id_listed(filtered@, author_role_ids@[i as int]@));
            return true;
        }
        i = i + 1;
    }
    false
}

/// Decides whether a message is in scope for moderation: the configuration
/// must be active, the channel must be moderated, and the author's roles
/// must pass the configured role filter.
pub fn in_scope(config: &GuildConfig, channel_id: &str, author_role_ids: &Vec<String>) -> (r:
    bool)
    ensures
        r == in_scope_spec(*config, channel_id@, author_role_ids@),
{
    if !config.is_active {
        return false;
    }
    let channel_ok = config.moderate_all_channels || channel_listed(
        &config.moderated_channels,
        channel_id,
    );
    if !channel_ok {
        return false;
    }
    if config.moderate_all_roles {
        return true;
    }
    let holds = holds_filtered_role(&config.filtered_roles, author_role_ids);
    match config.role_filter_mode {
        RoleFilterMode::Include => holds,
        RoleFilterMode::Exclude => !holds,
    }
}

/// Law: an inactive configuration is never in scope, whatever the other
/// fields say.
pub proof fn lemma_inactive_never_in_scope(
    c: GuildConfig,
    channel_id: Seq<char>,
    author_role_ids: Seq<String>,
)
    requires
        !c.is_active,
    ensures
        !in_scope_spec(c, channel_id, author_role_ids),
{
}

/// Law: in `Exclude` mode with an empty filtered set nothing is excluded,
/// so the role gate passes for every author.
pub proof fn lemma_exclude_empty_filter_passes(c: GuildConfig, author_role_ids: Seq<String>)
    requires
        c.role_filter_mode is Exclude,
        c.filtered_roles@.len() == 0,
    ensures
        role_gate(c, author_role_ids),
{
}

/// Law: in `Include` mode with an empty filtered set no author can hold a
/// listed role, so the role gate fails for every author. The mode is only
/// consulted when `moderate_all_roles` is off.
pub proof fn lemma_include_empty_filter_fails(c: GuildConfig, author_role_ids: Seq<String>)
    requires
        !c.moderate_all_roles,
        c.role_filter_mode is Include,
        c.filtered_roles@.len() == 0,
    ensures
        !role_gate(c, author_role_ids),
{
}

} // verus!
