//! Blocks for streaming API.

use crate::block::VersionedCommittedBlock;
use vstd::prelude::*;

verus! {

/// Message sent by the stream producer.
/// Block sent by the peer.
#[derive(Debug, Clone, PartialEq, Eq)]
pub struct BlockMessage(pub VersionedCommittedBlock);

/// A block message in its versioned envelope. There is one version.
#[derive(Debug, Clone, PartialEq, Eq)]
pub enum VersionedBlockMessage {
    /// The first version.
    V1(BlockMessage),
}

impl VersionedBlockMessage {
    /// The message in the envelope.
    pub open spec fn spec_v1(&self) -> BlockMessage {
        match *self {
            VersionedBlockMessage::V1(message) => message,
        }
    }

    /// Converts from `&VersionedBlockMessage` to V1 reference
    pub fn as_v1(&self) -> (message: &BlockMessage)
        ensures
            *message == self.spec_v1(),
    {
        match self {
            Self::V1(v1) => v1,
        }
    }

    /// Converts from `&mut VersionedBlockMessage` to V1 mutable reference
    pub fn as_mut_v1(&mut self) -> (message: &mut BlockMessage)
        ensures
            *message == old(self).spec_v1(),
            *final(self) == VersionedBlockMessage::V1(*final(message)),
    {
        match self {
            Self::V1(v1) => v1,
        }
    }

    /// Performs the conversion from `VersionedBlockMessage` to V1
    pub fn into_v1(self) -> (message: BlockMessage)
        ensures
            message == self.spec_v1(),
    {
        match self {
            Self::V1(v1) => v1,
        }
    }
}

impl From<BlockMessage> for VersionedBlockMessage {
    fn from(message: BlockMessage) -> (versioned: Self) {
        VersionedBlockMessage::V1(message)
    }
}

impl vstd::std_specs::convert::FromSpecImpl<BlockMessage> for VersionedBlockMessage {
    open spec fn obeys_from_spec() -> bool {
        true
    }

    open spec fn from_spec(message: BlockMessage) -> Self {
        VersionedBlockMessage::V1(message)
    }
}

/// Message sent by the stream consumer.
/// Request sent to subscribe to blocks stream starting from the given height.
#[derive(Debug, Clone, Copy, PartialEq, Eq, Structural)]
pub struct BlockSubscriptionRequest(pub u64);

/// A subscription request in its versioned envelope. There is one version.
#[derive(Debug, Clone, Copy, PartialEq, Eq, Structural)]
pub enum VersionedBlockSubscriptionRequest {
    /// The first version.
    V1(BlockSubscriptionRequest),
}

impl VersionedBlockSubscriptionRequest {
    /// The request in the envelope.
    pub open spec fn spec_v1(&self) -> BlockSubscriptionRequest {
        match *self {
            VersionedBlockSubscriptionRequest::V1(request) => request,
        }
    }

    /// Converts from `&VersionedBlockSubscriptionRequest` to V1 reference
    pub fn as_v1(&self) -> (request: &BlockSubscriptionRequest)
        ensures
            *request == self.spec_v1(),
    {
        match self {
            Self::V1(v1) => v1,
        }
    }

    /// Converts from `&mut VersionedBlockSubscriptionRequest` to V1 mutable reference
    pub fn as_mut_v1(&mut self) -> (request: &mut BlockSubscriptionRequest)
        ensures
            *request == old(self).spec_v1(),
            *final(self) == VersionedBlockSubscriptionRequest::V1(*final(request)),
    {
        match self {
            Self::V1(v1) => v1,
        }
    }

    /// Performs the conversion from `VersionedBlockSubscriptionRequest` to V1
    pub fn into_v1(self) -> (request: BlockSubscriptionRequest)
        ensures
            request == self.spec_v1(),
    {
        match self {
            Self::V1(v1) => v1,
        }
    }
}

impl From<BlockSubscriptionRequest> for VersionedBlockSubscriptionRequest {
    fn from(request: BlockSubscriptionRequest) -> (versioned: Self) {
        VersionedBlockSubscriptionRequest::V1(request)
    }
}

impl vstd::std_specs::convert::FromSpecImpl<BlockSubscriptionRequest> for VersionedBlockSubscriptionRequest {
    open spec fn obeys_from_spec() -> bool {
        true
    }

    open spec fn from_spec(request: BlockSubscriptionRequest) -> Self {
        VersionedBlockSubscriptionRequest::V1(request)
    }
}

} // verus!
