//! Requests of a client and their wire form.
//!
//! A request is of fixed size, so its length says all there is to say about
//! its bounds: no field in it declares a length.

use vstd::prelude::*;
use crate::codec::{CodecError, PULL_DISCRIMINATOR, REGISTER_DISCRIMINATOR};
use crate::identity::{AuthToken, DestinationAddressBytes};
use crate::wire::{be16, field_at, push_be16, push_bytes, read_be16, read_identifier};

verus! {

/// What a client asks of a provider.
#[derive(Clone, Copy, Debug, PartialEq, Eq)]
pub enum Request {
    /// Asks for an auth token for `address`.
    Register { address: DestinationAddressBytes },
    /// Asks for the messages buffered for `address`, proving the right to
    /// them with `token`.
    Pull { address: DestinationAddressBytes, token: AuthToken },
}

/// The logical content of a [`Request`].
pub enum RequestView {
    Register { address: Seq<u8> },
    Pull { address: Seq<u8>, token: Seq<u8> },
}

impl RequestView {
    /// Addresses and tokens have their fixed length.
    pub open spec fn well_formed(self) -> bool {
        match self {
            RequestView::Register { address } => address.len() == 32,
            RequestView::Pull { address, token } => address.len() == 32 && token.len() == 32,
        }
    }
}

impl View for Request {
    type V = RequestView;

    open spec fn view(&self) -> RequestView {
        match *self {
            Request::Register { address } => RequestView::Register { address: address@ },
            Request::Pull { address, token } => RequestView::Pull {
                address: address@,
                token: token@,
            },
        }
    }
}

/// The wire form of a request.
pub open spec fn encode_request_spec(request: RequestView) -> Seq<u8> {
    match request {
        RequestView::Register { address } => be16(REGISTER_DISCRIMINATOR as nat) + address,
        RequestView::Pull { address, token } => be16(PULL_DISCRIMINATOR as nat) + address + token,
    }
}

/// What a provider reads out of the bytes of a request.
pub open spec fn decode_request_spec(bytes: Seq<u8>) -> Result<RequestView, CodecError> {
    if bytes.len() < 2 {
        Err(CodecError::UnmarshalError)
    } else if field_at(bytes, 0) == REGISTER_DISCRIMINATOR {
        if bytes.len() < 34 {
            Err(CodecError::UnmarshalError)
        } else if bytes.len() > 34 {
            Err(CodecError::UnmarshalErrorInvalidLength)
        } else {
            Ok(RequestView::Register { address: bytes.subrange(2, 34) })
        }
    } else if field_at(bytes, 0) == PULL_DISCRIMINATOR {
        if bytes.len() < 66 {
            Err(CodecError::UnmarshalError)
        } else if bytes.len() > 66 {
            Err(CodecError::UnmarshalErrorInvalidLength)
        } else {
            Ok(RequestView::Pull { address: bytes.subrange(2, 34), token: bytes.subrange(34, 66) })
        }
    } else {
        Err(CodecError::UnmarshalError)
    }
}

/// A provider that decodes an encoded request reads the address and the
/// token that the client put into it.
pub proof fn lemma_request_round_trip(request: RequestView)
    requires
        request.well_formed(),
    ensures
        decode_request_spec(encode_request_spec(request)) == Ok::<RequestView, CodecError>(request),
{
    let bytes = encode_request_spec(request);
    match request {
        RequestView::Register { address } => {
            assert(bytes.subrange(2, 34) =~= address);
        },
        RequestView::Pull { address, token } => {
            assert(bytes.subrange(2, 34) =~= address);
            assert(bytes.subrange(34, 66) =~= token);
        },
    }
}

/// Only one byte sequence decodes to a given request: its encoding.
pub proof fn lemma_request_encoding_unique(bytes: Seq<u8>, request: RequestView)
    requires
        decode_request_spec(bytes) == Ok::<RequestView, CodecError>(request),
    ensures
        request.well_formed(),
        encode_request_spec(request) == bytes,
{
    assert(encode_request_spec(request) =~= bytes);
}

/// Encodes a request. There is no request that cannot be encoded.
pub fn encode_request(request: &Request) -> (bytes: Vec<u8>)
    ensures
        bytes@ == encode_request_spec(request@),
{
    let mut bytes: Vec<u8> = Vec::new();
    match request {
        Request::Register { address } => {
            push_be16(&mut bytes, REGISTER_DISCRIMINATOR);
            push_bytes(&mut bytes, address.as_slice());
        },
        Request::Pull { address, token } => {
            push_be16(&mut bytes, PULL_DISCRIMINATOR);
            push_bytes(&mut bytes, address.as_slice());
            push_bytes(&mut bytes, token.as_slice());
        },
    }
    assert(bytes@ =~= encode_request_spec(request@));
    bytes
}

/// Decodes a request, as a provider does.
pub fn decode_request(bytes: &[u8]) -> (decoded: Result<Request, CodecError>)
    ensures
        match decoded {
            Ok(request) => decode_request_spec(bytes@) == Ok::<RequestView, CodecError>(request@),
            Err(error) => decode_request_spec(bytes@) == Err::<RequestView, CodecError>(error),
        },
{
    if bytes.len() < 2 {
        return Err(CodecError::UnmarshalError);
    }
    let discriminator: u16 = read_be16(bytes, 0);
    if discriminator == REGISTER_DISCRIMINATOR {
        if bytes.len() < 34 {
            Err(CodecError::UnmarshalError)
        } else if bytes.len() > 34 {
            Err(CodecError::UnmarshalErrorInvalidLength)
        } else {
            Ok(Request::Register { address: read_identifier(bytes, 2) })
        }
    } else if discriminator == PULL_DISCRIMINATOR {
        if bytes.len() < 66 {
            Err(CodecError::UnmarshalError)
        } else if bytes.len() > 66 {
            Err(CodecError::UnmarshalErrorInvalidLength)
        } else {
            Ok(
                Request::Pull {
                    address: read_identifier(bytes, 2),
                    token: read_identifier(bytes, 34),
                },
            )
        }
    } else {
        Err(CodecError::UnmarshalError)
    }
}

} // verus!
