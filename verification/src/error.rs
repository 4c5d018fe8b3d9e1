//! The failures that gossip handling can end in.

use vstd::prelude::*;
use crate::primitives::{ExecutorId, H256};

verus! {

/// A failure reported by, or on behalf of, the secondary chain client.
#[derive(Debug)]
pub enum ClientError {
    /// The backend failed; the text is its own message.
    Backend(String),
    /// No header is stored for this block hash.
    HeaderNotFound(H256),
    /// No block body is stored for this block hash.
    BlockBodyNotFound(H256),
    /// No execution receipt is stored for this block hash.
    ExecutionReceiptNotFound(H256),
}

/// The mathematical value of a [`ClientError`].
pub ghost enum ClientErrorView {
    Backend(Seq<char>),
    HeaderNotFound(H256),
    BlockBodyNotFound(H256),
    ExecutionReceiptNotFound(H256),
}

impl View for ClientError {
    type V = ClientErrorView;

    open spec fn view(&self) -> ClientErrorView {
        match *self {
            ClientError::Backend(message) => ClientErrorView::Backend(message@),
            ClientError::HeaderNotFound(hash) => ClientErrorView::HeaderNotFound(hash),
            ClientError::BlockBodyNotFound(hash) => ClientErrorView::BlockBodyNotFound(hash),
            ClientError::ExecutionReceiptNotFound(hash) => ClientErrorView::ExecutionReceiptNotFound(
                hash,
            ),
        }
    }
}

impl ClientError {
    /// Copies the error.
    pub fn duplicate(&self) -> (copy: ClientError)
        ensures
            copy@ == self@,
    {
        match self {
            ClientError::Backend(message) => ClientError::Backend(message.clone()),
            ClientError::HeaderNotFound(hash) => ClientError::HeaderNotFound(*hash),
            ClientError::BlockBodyNotFound(hash) => ClientError::BlockBodyNotFound(*hash),
            ClientError::ExecutionReceiptNotFound(hash) => ClientError::ExecutionReceiptNotFound(
                *hash,
            ),
        }
    }
}

/// Error type for gossip handling.
#[derive(Debug)]
pub enum GossipMessageError {
    /// Two distinct bundles were signed by one executor for one slot.
    BundleEquivocation,
    /// A state root is not a 32-byte hash.
    InvalidStateRootType,
    /// No extrinsic with this index is in the block whose execution is to be proved.
    InvalidExtrinsicIndex { index: usize, max: usize },
    /// The secondary chain client failed.
    Client(ClientError),
    /// A call into the primary chain runtime failed; the text is its message.
    RuntimeApi(String),
    /// The task that waits for the local receipt went away without an answer.
    RecvError,
    /// The local receipt could not be handed over because nobody waits for it any more.
    SendError,
    /// The signature of a bundle is invalid.
    BadBundleSignature,
    /// A bundle was signed by another executor than the elected one.
    InvalidBundleAuthor { got: ExecutorId, expected: ExecutorId },
    /// The signature of an execution receipt is invalid.
    BadExecutionReceiptSignature,
    /// An execution receipt was signed by another executor than the elected one.
    InvalidExecutionReceiptAuthor { got: ExecutorId, expected: ExecutorId },
}

/// The mathematical value of a [`GossipMessageError`].
pub ghost enum GossipMessageErrorView {
    BundleEquivocation,
    InvalidStateRootType,
    InvalidExtrinsicIndex { index: usize, max: usize },
    Client(ClientErrorView),
    RuntimeApi(Seq<char>),
    RecvError,
    SendError,
    BadBundleSignature,
    InvalidBundleAuthor { got: ExecutorId, expected: ExecutorId },
    BadExecutionReceiptSignature,
    InvalidExecutionReceiptAuthor { got: ExecutorId, expected: ExecutorId },
}

impl View for GossipMessageError {
    type V = GossipMessageErrorView;

    open spec fn view(&self) -> GossipMessageErrorView {
        match *self {
            GossipMessageError::BundleEquivocation => GossipMessageErrorView::BundleEquivocation,
            GossipMessageError::InvalidStateRootType => GossipMessageErrorView::InvalidStateRootType,
            GossipMessageError::InvalidExtrinsicIndex { index, max } => (
                GossipMessageErrorView::InvalidExtrinsicIndex { index, max }
            ),
            GossipMessageError::Client(error) => GossipMessageErrorView::Client(error@),
            GossipMessageError::RuntimeApi(message) => GossipMessageErrorView::RuntimeApi(message@),
            GossipMessageError::RecvError => GossipMessageErrorView::RecvError,
            GossipMessageError::SendError => GossipMessageErrorView::SendError,
            GossipMessageError::BadBundleSignature => GossipMessageErrorView::BadBundleSignature,
            GossipMessageError::InvalidBundleAuthor { got, expected } => (
                GossipMessageErrorView::InvalidBundleAuthor { got, expected }
            ),
            GossipMessageError::BadExecutionReceiptSignature => (
                GossipMessageErrorView::BadExecutionReceiptSignature
            ),
            GossipMessageError::InvalidExecutionReceiptAuthor { got, expected } => (
                GossipMessageErrorView::InvalidExecutionReceiptAuthor { got, expected }
            ),
        }
    }
}

impl From<ClientError> for GossipMessageError {
    /// Wraps a failure of the secondary chain client.
    fn from(error: ClientError) -> (wrapped: GossipMessageError) {
        GossipMessageError::Client(error)
    }
}

impl vstd::std_specs::convert::FromSpecImpl<ClientError> for GossipMessageError {
    open spec fn obeys_from_spec() -> bool {
        true
    }

    open spec fn from_spec(error: ClientError) -> GossipMessageError {
        GossipMessageError::Client(error)
    }
}

impl GossipMessageError {
    /// Copies the error.
    pub fn duplicate(&self) -> (copy: GossipMessageError)
        ensures
            copy@ == self@,
    {
        match self {
            GossipMessageError::BundleEquivocation => GossipMessageError::BundleEquivocation,
            GossipMessageError::InvalidStateRootType => GossipMessageError::InvalidStateRootType,
            GossipMessageError::InvalidExtrinsicIndex { index, max } => (
                GossipMessageError::InvalidExtrinsicIndex { index: *index, max: *max }
            ),
            GossipMessageError::Client(error) => GossipMessageError::Client(error.duplicate()),
            GossipMessageError::RuntimeApi(message) => GossipMessageError::RuntimeApi(
                message.clone(),
            ),
            GossipMessageError::RecvError => GossipMessageError::RecvError,
            GossipMessageError::SendError => GossipMessageError::SendError,
            GossipMessageError::BadBundleSignature => GossipMessageError::BadBundleSignature,
            GossipMessageError::InvalidBundleAuthor { got, expected } => (
                GossipMessageError::InvalidBundleAuthor { got: *got, expected: *expected }
            ),
            GossipMessageError::BadExecutionReceiptSignature => (
                GossipMessageError::BadExecutionReceiptSignature
            ),
            GossipMessageError::InvalidExecutionReceiptAuthor { got, expected } => (
                GossipMessageError::InvalidExecutionReceiptAuthor { got: *got, expected: *expected }
            ),
        }
    }
}

} // verus!
