//! The life cycle of a block in a permissioned ledger, and the blockchain in
//! memory.
//!
//! A block is carried from "proposed" to "committed" through a progression
//! of states, each a type of its own: [`block::PendingBlock`],
//! [`block::ChainedBlock`], [`block::ValidBlock`],
//! [`block::ValidSignedBlock`] and [`block::CommittedBlock`]. A transition
//! consumes the state that it starts from, so a committed block has passed
//! every check on the way. Between peers a block travels as a
//! [`candidate::CandidateBlock`], which the receiver revalidates against its
//! own world state. Committed blocks are held by height in a
//! [`chain::Chain`].
//!
//! The identity of a block is the hash of the encoding of its header, in
//! every state.
//!
//! Hashing, Merkle trees, signing, verifying and the validation of a single
//! transaction are not done here. They are collaborators, handed to the
//! functions that need them as functions. What such a function is asked, and
//! what is done with each of its answers, is said in the contracts.

pub mod block;
pub mod candidate;
pub mod chain;
pub mod codec;
pub mod collaborator;
pub mod events;
pub mod hash;
pub mod header;
pub mod network;
pub mod signature;
pub mod stream;
pub mod torii;
pub mod transaction;
pub mod wsv;
