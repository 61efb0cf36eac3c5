//! Guild channels as the service sees them, and the rule that picks the
//! managed ones.

use vstd::prelude::*;
use crate::app_config::DiscordConfig;

verus! {

/// The kind of a channel.
#[derive(Debug, Clone, Copy, PartialEq, Eq, Structural)]
pub enum ChannelType {
    Text,
    Private,
    Voice,
    Category,
    News,
    NewsThread,
    PublicThread,
    PrivateThread,
    Stage,
    Directory,
    Unknown,
}

/// What the service reads of a guild channel.
#[derive(Debug, Clone, Copy, PartialEq, Eq, Structural)]
pub struct GuildChannel {
    pub id: u64,
    pub kind: ChannelType,
    /// The category the channel sits in, if any.
    pub parent_id: Option<u64>,
}

/// A channel is managed when it is a voice channel directly under the
/// configured category and is not on the ignore list.
pub open spec fn managed(channel: GuildChannel, config: DiscordConfig) -> bool {
    &&& channel.kind == ChannelType::Voice
    &&& channel.parent_id == Some(config.vc_category)
    &&& !config.ignores(channel.id)
}

/// Decides whether `channel` is a managed voice channel under `config`.
pub fn is_managed(channel: &GuildChannel, config: &DiscordConfig) -> (yes: bool)
    ensures
        yes == managed(*channel, *config),
        channel.kind != ChannelType::Voice ==> !yes,
        channel.parent_id.is_none() ==> !yes,
        channel.parent_id.is_some() && channel.parent_id.unwrap() != config.vc_category ==> !yes,
        config.ignores(channel.id) ==> !yes,
{
    if channel.kind != ChannelType::Voice {
        return false;
    }
    let parent: u64 = match channel.parent_id {
        Some(id) => id,
        None => {
            return false;
        },
    };
    if parent != config.vc_category {
        return false;
    }
    !config.is_ignored(channel.id)
}

} // verus!
