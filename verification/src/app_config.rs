//! The static configuration of the service.

use vstd::prelude::*;

verus! {

/// The guild-specific part of the configuration.
#[derive(Debug, Clone)]
pub struct DiscordConfig {
    /// The category whose voice channels are managed.
    pub vc_category: u64,
    /// The text channel that receives announcements and hosts the threads.
    pub thread_channel: u64,
    /// Voice channels of the category that are left alone.
    pub vc_ignored_channels: Vec<u64>,
}

/// The configuration handed to the service at start-up.
#[derive(Debug, Clone)]
pub struct AppConfig {
    pub discord: DiscordConfig,
}

impl DiscordConfig {
    /// Whether `id` is one of the ignored channels.
    pub open spec fn ignores(&self, id: u64) -> bool {
        self.vc_ignored_channels@.contains(id)
    }

    /// Tells whether `id` is one of the ignored channels.
    pub fn is_ignored(&self, id: u64) -> (found: bool)
        ensures
            found == self.ignores(id),
    {
        let mut i: usize = 0;
        while i < self.vc_ignored_channels.len()
            invariant
                i <= self.vc_ignored_channels.len(),
                forall|j: int| 0 <= j < i ==> self.vc_ignored_channels@[j] != id,
            decreases self.vc_ignored_channels.len() - i,
        {
            if self.vc_ignored_channels[i] == id {
                return true;
            }
            i += 1;
        }
        false
    }
}

} // verus!
