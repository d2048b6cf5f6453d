//! Events that the pipeline emits as a block moves through its states.

use crate::hash;
use crate::transaction::RejectionReason;
use vstd::prelude::*;

verus! {

/// The kind of thing a pipeline event is about.
#[derive(Debug, Clone, Copy, PartialEq, Eq, Structural)]
pub enum PipelineEntityKind {
    /// A block.
    Block,
    /// A transaction.
    Transaction,
}

/// How far the entity of a pipeline event has come.
#[derive(Debug, Clone, Copy, PartialEq, Eq, Structural)]
pub enum PipelineStatus {
    /// The entity is in a block that peers are validating.
    Validating,
    /// The entity was rejected, for this reason.
    Rejected(RejectionReason),
    /// The entity is committed.
    Committed,
}

/// An event of the pipeline: an entity, by kind and hash, and its status.
#[derive(Debug, Clone, Copy, PartialEq, Eq)]
pub struct PipelineEvent {
    /// The kind of the entity.
    pub entity_kind: PipelineEntityKind,
    /// The status of the entity.
    pub status: PipelineStatus,
    /// The hash of the entity.
    pub hash: hash::Hash,
}

impl PipelineEvent {
    /// The event that says that the entity of this kind and hash has this
    /// status.
    pub fn new(entity_kind: PipelineEntityKind, status: PipelineStatus, hash: hash::Hash) -> (event:
        Self)
        ensures
            event == (PipelineEvent { entity_kind, status, hash }),
    {
        PipelineEvent { entity_kind, status, hash }
    }
}

/// An event.
#[derive(Debug, Clone, PartialEq, Eq)]
pub enum Event {
    /// An event of the pipeline.
    Pipeline(PipelineEvent),
    /// A data event, in its canonical encoding. Blocks carry such events as
    /// recommendations and do not look inside.
    Data(Vec<u8>),
}

impl Event {
    /// The event of a transaction with this hash and status.
    pub open spec fn of_transaction(status: PipelineStatus, hash: hash::Hash) -> Event {
        Event::Pipeline(
            PipelineEvent { entity_kind: PipelineEntityKind::Transaction, status, hash },
        )
    }

    /// The event of a block with this hash and status.
    pub open spec fn of_block(status: PipelineStatus, hash: hash::Hash) -> Event {
        Event::Pipeline(PipelineEvent { entity_kind: PipelineEntityKind::Block, status, hash })
    }
}

} // verus!
