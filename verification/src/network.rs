//! Network-related configuration.

use vstd::prelude::*;

verus! {

/// Default buffer capacity of an actor's channel.
pub const DEFAULT_ACTOR_CHANNEL_CAPACITY: u32 = 100;

/// Network configuration parameters.
#[derive(Debug, Clone, Copy, PartialEq, Eq, Structural)]
pub struct Configuration {
    /// Buffer capacity of an actor's MPSC channel.
    pub actor_channel_capacity: u32,
}

impl Default for Configuration {
    fn default() -> (config: Self)
        ensures
            config.actor_channel_capacity == DEFAULT_ACTOR_CHANNEL_CAPACITY,
    {
        Self { actor_channel_capacity: DEFAULT_ACTOR_CHANNEL_CAPACITY }
    }
}

} // verus!
