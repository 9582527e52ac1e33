use vstd::prelude::*;

verus! {

/// Failure of a payment intent store operation.
#[derive(Clone, Debug, PartialEq, Eq)]
pub enum StorageError {
    /// The relational backend failed.
    DatabaseError(String),
    /// The record that was read or updated does not exist.
    ValueNotFound(String),
    /// A create would break the uniqueness of the natural key.
    DuplicateValue(String),
    /// The cache backend failed, encoded badly, or cannot serve the operation.
    KVError,
}

/// Failure of a connector-facing step (webhook handling, token refresh).
#[derive(Clone, Debug, PartialEq, Eq)]
pub enum ConnectorError {
    WebhookBodyDecodingFailed,
    WebhookSourceVerificationFailed,
    WebhookSignatureNotFound,
    WebhookReferenceIdNotFound,
    WebhookEventTypeNotFound,
    WebhookResourceObjectNotFound,
    ResponseDeserializationFailed,
    NotImplemented(String),
}

/// Failure reported by the router to its own caller.
#[derive(Clone, Copy, Debug, PartialEq, Eq, Structural)]
pub enum ApiErrorResponse {
    InternalServerError,
}

} // verus!
