//! The errors of the provider client, and how the failures of the layers
//! below it map onto them.

use vstd::prelude::*;
use vstd::std_specs::convert::FromSpecImpl;
use crate::codec::CodecError;

verus! {

/// The exchange with the provider did not take place or did not complete.
/// The transport tells no more than that: connecting, writing and reading
/// fail alike, and all a caller can do about any of them is to try again.
#[derive(Clone, Copy, Debug, PartialEq, Eq, Structural)]
pub struct TransportError;

/// Why an operation of the provider client failed.
#[derive(Clone, Copy, Debug, PartialEq, Eq, Structural)]
pub enum ProviderClientError {
    /// `register` was called while a token is held.
    ClientAlreadyRegisteredError,
    /// `retrieve_messages` was called while no token is held.
    EmptyAuthTokenError,
    /// The transport failed.
    NetworkError,
    /// The request could not be encoded.
    InvalidRequestError,
    /// The response is malformed, or is not the response to the request.
    InvalidResponseError,
    /// The length of the response is not what its header implies or declares.
    InvalidResponseLengthError,
}

/// The client error that stands for a failure of the codec.
pub open spec fn codec_failure(error: CodecError) -> ProviderClientError {
    match error {
        CodecError::MarshalError => ProviderClientError::InvalidRequestError,
        CodecError::UnmarshalError => ProviderClientError::InvalidResponseError,
        CodecError::UnmarshalErrorInvalidLength => ProviderClientError::InvalidResponseLengthError,
    }
}

impl From<TransportError> for ProviderClientError {
    fn from(_error: TransportError) -> (mapped: Self) {
        ProviderClientError::NetworkError
    }
}

impl FromSpecImpl<TransportError> for ProviderClientError {
    open spec fn obeys_from_spec() -> bool {
        true
    }

    open spec fn from_spec(_error: TransportError) -> Self {
        ProviderClientError::NetworkError
    }
}

impl From<CodecError> for ProviderClientError {
    fn from(error: CodecError) -> (mapped: Self) {
        match error {
            CodecError::MarshalError => ProviderClientError::InvalidRequestError,
            CodecError::UnmarshalError => ProviderClientError::InvalidResponseError,
            CodecError::UnmarshalErrorInvalidLength => {
                ProviderClientError::InvalidResponseLengthError
            },
        }
    }
}

impl FromSpecImpl<CodecError> for ProviderClientError {
    open spec fn obeys_from_spec() -> bool {
        true
    }

    open spec fn from_spec(error: CodecError) -> Self {
        codec_failure(error)
    }
}

} // verus!
