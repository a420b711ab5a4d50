//! The provider client: registers with a provider once, then pulls the
//! messages that the provider has buffered for it.
//!
//! The client is the only part that holds state, and its state is one slot:
//! the auth token. Without a token it is unregistered and can only register;
//! with one it is registered and can only pull. It never retries: every
//! failure goes back to the caller, typed.
//!
//! The client does no I/O itself. `register` and `retrieve_messages` take the
//! exchange with the provider as a function from the provider's location and
//! the request bytes to the response bytes. A caller that cannot block in
//! such a function uses the halves of the two operations instead:
//! `register_request`, then its own exchange, then `complete_registration`;
//! likewise `pull_request` and `read_messages`.
//!
//! A client is meant for one owner: an operation reads the token slot and may
//! write it, so two operations on one client must not interleave.

use vstd::prelude::*;
use crate::codec::CodecError;
use crate::error::{codec_failure, ProviderClientError, TransportError};
use crate::identity::{AuthToken, DestinationAddressBytes};
use crate::requests::{
    decode_request_spec, encode_request, encode_request_spec, lemma_request_round_trip, Request,
    RequestView,
};
use crate::responses::{
    decode_response, decode_response_spec, encode_response_spec, fits_table,
    lemma_response_round_trip, messages_view, Response, ResponseView,
};
use crate::transport::{ProviderLocation, PROVIDER_CLIENT_PORT};

verus! {

/// Whether a client holds a token.
#[derive(Clone, Copy, Debug, PartialEq, Eq, Structural)]
pub enum RegistrationState {
    Unregistered,
    Registered,
}

/// A client of one provider.
#[derive(Debug)]
pub struct ProviderClient {
    provider_network_address: ProviderLocation,
    our_address: DestinationAddressBytes,
    auth_token: Option<AuthToken>,
}

/// The logical content of a [`ProviderClient`].
pub struct ProviderClientView {
    /// Where the client reaches its provider.
    pub provider: ProviderLocation,
    /// The client's own address.
    pub address: Seq<u8>,
    /// The token that the client holds, if any.
    pub token: Option<Seq<u8>>,
}

/// The bytes of a token that may be absent.
pub open spec fn token_view(token: Option<AuthToken>) -> Option<Seq<u8>> {
    match token {
        Some(token) => Some(token@),
        None => None,
    }
}

/// The bytes that an exchange came to.
pub open spec fn reply_view(reply: Result<Vec<u8>, ProviderClientError>) -> Result<
    Seq<u8>,
    ProviderClientError,
> {
    match reply {
        Ok(bytes) => Ok(bytes@),
        Err(error) => Err(error),
    }
}

/// The bytes of the token that a registration came to.
pub open spec fn issued_view(outcome: Result<AuthToken, ProviderClientError>) -> Result<
    Seq<u8>,
    ProviderClientError,
> {
    match outcome {
        Ok(token) => Ok(token@),
        Err(error) => Err(error),
    }
}

/// The contents of the messages that a pull came to.
pub open spec fn retrieved_view(outcome: Result<Vec<Vec<u8>>, ProviderClientError>) -> Result<
    Seq<Seq<u8>>,
    ProviderClientError,
> {
    match outcome {
        Ok(messages) => Ok(messages_view(messages@)),
        Err(error) => Err(error),
    }
}

/// What the transport's result is to the client: its failure is a network
/// error.
pub open spec fn network_result(exchanged: Result<Vec<u8>, TransportError>) -> Result<
    Seq<u8>,
    ProviderClientError,
> {
    match exchanged {
        Ok(bytes) => Ok(bytes@),
        Err(_) => Err(ProviderClientError::NetworkError),
    }
}

impl ProviderClientView {
    /// Registered with a token, unregistered without.
    pub open spec fn state(self) -> RegistrationState {
        if self.token is Some {
            RegistrationState::Registered
        } else {
            RegistrationState::Unregistered
        }
    }

    /// The same client, holding `token`.
    pub open spec fn with_token(self, token: Seq<u8>) -> ProviderClientView {
        ProviderClientView { provider: self.provider, address: self.address, token: Some(token) }
    }

    /// The bytes of the Register request, which only an unregistered client
    /// sends.
    pub open spec fn register_request(self) -> Result<Seq<u8>, ProviderClientError> {
        if self.token is Some {
            Err(ProviderClientError::ClientAlreadyRegisteredError)
        } else {
            Ok(encode_request_spec(RequestView::Register { address: self.address }))
        }
    }

    /// The bytes of the Pull request, which only a registered client sends,
    /// and which carry the token that it holds.
    pub open spec fn pull_request(self) -> Result<Seq<u8>, ProviderClientError> {
        match self.token {
            None => Err(ProviderClientError::EmptyAuthTokenError),
            Some(token) => Ok(
                encode_request_spec(RequestView::Pull { address: self.address, token }),
            ),
        }
    }

    /// What a registration comes to when the exchange gave `reply`: the
    /// token that a Register response carries.
    pub open spec fn registration(self, reply: Result<Seq<u8>, ProviderClientError>) -> Result<
        Seq<u8>,
        ProviderClientError,
    > {
        if self.token is Some {
            Err(ProviderClientError::ClientAlreadyRegisteredError)
        } else {
            match reply {
                Err(error) => Err(error),
                Ok(response) => match decode_response_spec(response) {
                    Ok(ResponseView::Register { token }) => Ok(token),
                    Ok(ResponseView::Pull { .. }) => Err(ProviderClientError::InvalidResponseError),
                    Err(error) => Err(codec_failure(error)),
                },
            }
        }
    }

    /// The client after a registration: it holds the token if one was
    /// issued, and is as before if not.
    pub open spec fn after_registration(
        self,
        reply: Result<Seq<u8>, ProviderClientError>,
    ) -> ProviderClientView {
        match self.registration(reply) {
            Ok(token) => self.with_token(token),
            Err(_) => self,
        }
    }

    /// What a pull comes to when the exchange gave `reply`: the messages
    /// that a Pull response carries, as they came.
    pub open spec fn retrieval(self, reply: Result<Seq<u8>, ProviderClientError>) -> Result<
        Seq<Seq<u8>>,
        ProviderClientError,
    > {
        if self.token is None {
            Err(ProviderClientError::EmptyAuthTokenError)
        } else {
            match reply {
                Err(error) => Err(error),
                Ok(response) => match decode_response_spec(response) {
                    Ok(ResponseView::Pull { messages }) => Ok(messages),
                    Ok(ResponseView::Register { .. }) => Err(
                        ProviderClientError::InvalidResponseError,
                    ),
                    Err(error) => Err(codec_failure(error)),
                },
            }
        }
    }
}

impl View for ProviderClient {
    type V = ProviderClientView;

    closed spec fn view(&self) -> ProviderClientView {
        ProviderClientView {
            provider: self.provider_network_address,
            address: self.our_address@,
            token: token_view(self.auth_token),
        }
    }
}

impl ProviderClient {
    /// The provider is always reached at the port on which providers listen
    /// for clients.
    #[verifier::type_invariant]
    spec fn reaches_client_port(self) -> bool {
        self.provider_network_address.port == PROVIDER_CLIENT_PORT
    }

    /// A client of the provider at `provider_network_address`, known to it
    /// as `our_address`. Whatever port the location names, the client will
    /// use the port on which providers listen for clients.
    pub fn new(
        provider_network_address: ProviderLocation,
        our_address: DestinationAddressBytes,
        auth_token: Option<AuthToken>,
    ) -> (client: ProviderClient)
        ensures
            client@.provider.ip == provider_network_address.ip,
            client@.provider.port == PROVIDER_CLIENT_PORT,
            client@.address == our_address@,
            client@.token == token_view(auth_token),
    {
        ProviderClient {
            provider_network_address: provider_network_address.at_client_port(),
            our_address,
            auth_token,
        }
    }

    /// Replaces the token, whether or not one is held.
    pub fn update_token(&mut self, auth_token: AuthToken)
        ensures
            final(self)@ == old(self)@.with_token(auth_token@),
    {
        proof {
            use_type_invariant(&*self);
        }
        self.auth_token = Some(auth_token);
    }

    /// Where the client reaches its provider.
    pub fn provider_network_address(&self) -> (location: ProviderLocation)
        ensures
            location == self@.provider,
            location.port == PROVIDER_CLIENT_PORT,
    {
        proof {
            use_type_invariant(self);
        }
        self.provider_network_address
    }

    /// The client's own address.
    pub fn our_address(&self) -> (address: DestinationAddressBytes)
        ensures
            address@ == self@.address,
    {
        self.our_address
    }

    /// The token that the client holds, if any.
    pub fn auth_token(&self) -> (token: Option<AuthToken>)
        ensures
            token_view(token) == self@.token,
    {
        self.auth_token
    }

    /// Whether the client holds a token.
    pub fn state(&self) -> (state: RegistrationState)
        ensures
            state == self@.state(),
    {
        if self.auth_token.is_some() {
            RegistrationState::Registered
        } else {
            RegistrationState::Unregistered
        }
    }

    /// The first half of `register`: the bytes to send, or the refusal of a
    /// client that holds a token already.
    pub fn register_request(&self) -> (request: Result<Vec<u8>, ProviderClientError>)
        ensures
            reply_view(request) == self@.register_request(),
    {
        if self.auth_token.is_some() {
            return Err(ProviderClientError::ClientAlreadyRegisteredError);
        }
        Ok(encode_request(&Request::Register { address: self.our_address }))
    }

    /// The first half of `retrieve_messages`: the bytes to send, or the
    /// refusal of a client that holds no token.
    pub fn pull_request(&self) -> (request: Result<Vec<u8>, ProviderClientError>)
        ensures
            reply_view(request) == self@.pull_request(),
    {
        match self.auth_token {
            None => Err(ProviderClientError::EmptyAuthTokenError),
            Some(token) => Ok(encode_request(&Request::Pull { address: self.our_address, token })),
        }
    }

    /// Hands `bytes` to `exchange`, addressed to the provider, and gives
    /// back what came of it. A failure of the exchange is a network error.
    pub fn send_request<F>(&self, bytes: Vec<u8>, exchange: F) -> (reply: Result<
        Vec<u8>,
        ProviderClientError,
    >) where F: FnOnce(ProviderLocation, Vec<u8>) -> Result<Vec<u8>, TransportError>
        requires
            call_requires(exchange, (self@.provider, bytes)),
        ensures
            exists|exchanged: Result<Vec<u8>, TransportError>|
                #![trigger call_ensures(exchange, (self@.provider, bytes), exchanged)]
                call_ensures(exchange, (self@.provider, bytes), exchanged) && reply_view(reply)
                    == network_result(exchanged),
    {
        let exchanged = exchange(self.provider_network_address, bytes);
        match exchanged {
            Ok(response) => Ok(response),
            Err(error) => Err(ProviderClientError::from(error)),
        }
    }

    /// The second half of `register`: reads the token out of `reply`, the
    /// result of the exchange, and holds it from now on. Without a token in
    /// `reply` the client stays as it is.
    pub fn complete_registration(&mut self, reply: Result<Vec<u8>, ProviderClientError>) -> (issued:
        Result<AuthToken, ProviderClientError>)
        ensures
            issued_view(issued) == old(self)@.registration(reply_view(reply)),
            final(self)@ == old(self)@.after_registration(reply_view(reply)),
    {
        proof {
            use_type_invariant(&*self);
        }
        if self.auth_token.is_some() {
            return Err(ProviderClientError::ClientAlreadyRegisteredError);
        }
        match reply {
            Err(error) => Err(error),
            Ok(response) => match decode_response(response.as_slice()) {
                Ok(Response::Register { token }) => {
                    self.auth_token = Some(token);
                    Ok(token)
                },
                Ok(Response::Pull { .. }) => Err(ProviderClientError::InvalidResponseError),
                Err(error) => Err(ProviderClientError::from(error)),
            },
        }
    }

    /// The second half of `retrieve_messages`: reads the messages out of
    /// `reply`, the result of the exchange.
    pub fn read_messages(&self, reply: Result<Vec<u8>, ProviderClientError>) -> (retrieved: Result<
        Vec<Vec<u8>>,
        ProviderClientError,
    >)
        ensures
            retrieved_view(retrieved) == self@.retrieval(reply_view(reply)),
    {
        if self.auth_token.is_none() {
            return Err(ProviderClientError::EmptyAuthTokenError);
        }
        match reply {
            Err(error) => Err(error),
            Ok(response) => match decode_response(response.as_slice()) {
                Ok(Response::Pull { messages }) => Ok(messages),
                Ok(Response::Register { .. }) => Err(ProviderClientError::InvalidResponseError),
                Err(error) => Err(ProviderClientError::from(error)),
            },
        }
    }

    /// Registers with the provider. A client that holds a token is refused
    /// and `exchange` is not called. Otherwise `exchange` is called once,
    /// with the provider's location and a Register request for the client's
    /// address, and the token in the response is held from now on and
    /// returned.
    pub fn register<F>(&mut self, exchange: F) -> (issued: Result<
        AuthToken,
        ProviderClientError,
    >) where F: FnOnce(ProviderLocation, Vec<u8>) -> Result<Vec<u8>, TransportError>
        requires
            forall|bytes: Vec<u8>| call_requires(exchange, (old(self)@.provider, bytes)),
        ensures
            old(self)@.token is Some ==> issued == Err::<AuthToken, ProviderClientError>(
                ProviderClientError::ClientAlreadyRegisteredError,
            ) && final(self)@ == old(self)@,
            old(self)@.token is None ==> exists|
                sent: Vec<u8>,
                exchanged: Result<Vec<u8>, TransportError>,
            |
                #![trigger call_ensures(exchange, (old(self)@.provider, sent), exchanged)]
                {
                    &&& old(self)@.register_request() == Ok::<Seq<u8>, ProviderClientError>(sent@)
                    &&& call_ensures(exchange, (old(self)@.provider, sent), exchanged)
                    &&& issued_view(issued) == old(self)@.registration(network_result(exchanged))
                    &&& final(self)@ == old(self)@.after_registration(network_result(exchanged))
                },
    {
        match self.register_request() {
            Err(error) => Err(error),
            Ok(bytes) => {
                let reply = self.send_request(bytes, exchange);
                self.complete_registration(reply)
            },
        }
    }

    /// Pulls the messages that the provider holds for the client. A client
    /// that holds no token is refused and `exchange` is not called.
    /// Otherwise `exchange` is called once, with the provider's location and
    /// a Pull request for the client's address and token, and the messages
    /// in the response are returned as they came. The client stays as it is.
    pub fn retrieve_messages<F>(&self, exchange: F) -> (retrieved: Result<
        Vec<Vec<u8>>,
        ProviderClientError,
    >) where F: FnOnce(ProviderLocation, Vec<u8>) -> Result<Vec<u8>, TransportError>
        requires
            forall|bytes: Vec<u8>| call_requires(exchange, (self@.provider, bytes)),
        ensures
            self@.token is None ==> retrieved == Err::<Vec<Vec<u8>>, ProviderClientError>(
                ProviderClientError::EmptyAuthTokenError,
            ),
            self@.token is Some ==> exists|
                sent: Vec<u8>,
                exchanged: Result<Vec<u8>, TransportError>,
            |
                #![trigger call_ensures(exchange, (self@.provider, sent), exchanged)]
                {
                    &&& self@.pull_request() == Ok::<Seq<u8>, ProviderClientError>(sent@)
                    &&& call_ensures(exchange, (self@.provider, sent), exchanged)
                    &&& retrieved_view(retrieved) == self@.retrieval(network_result(exchanged))
                },
    {
        match self.pull_request() {
            Err(error) => Err(error),
            Ok(bytes) => {
                let reply = self.send_request(bytes, exchange);
                self.read_messages(reply)
            },
        }
    }
}

/// A client that holds a token has no Register request to send, and a
/// registration leaves it as it is, token and all, whatever the exchange
/// would have given.
pub proof fn lemma_registered_client_is_refused(
    client: ProviderClientView,
    reply: Result<Seq<u8>, ProviderClientError>,
)
    requires
        client.token is Some,
    ensures
        client.register_request() == Err::<Seq<u8>, ProviderClientError>(
            ProviderClientError::ClientAlreadyRegisteredError,
        ),
        client.registration(reply) == Err::<Seq<u8>, ProviderClientError>(
            ProviderClientError::ClientAlreadyRegisteredError,
        ),
        client.after_registration(reply) == client,
{
}

/// A client that holds no token has no Pull request to send, and a pull
/// fails for want of a token, whatever the exchange would have given.
pub proof fn lemma_unregistered_client_cannot_pull(
    client: ProviderClientView,
    reply: Result<Seq<u8>, ProviderClientError>,
)
    requires
        client.token is None,
    ensures
        client.pull_request() == Err::<Seq<u8>, ProviderClientError>(
            ProviderClientError::EmptyAuthTokenError,
        ),
        client.retrieval(reply) == Err::<Seq<Seq<u8>>, ProviderClientError>(
            ProviderClientError::EmptyAuthTokenError,
        ),
{
}

/// A registration that issues `token` leaves the client registered and
/// holding `token`, and the Pull request that the client sends next shows
/// the provider the client's address and exactly `token`.
pub proof fn lemma_registration_then_pull(
    client: ProviderClientView,
    reply: Result<Seq<u8>, ProviderClientError>,
    token: Seq<u8>,
)
    requires
        client.address.len() == 32,
        client.registration(reply) == Ok::<Seq<u8>, ProviderClientError>(token),
    ensures
        client.state() == RegistrationState::Unregistered,
        client.after_registration(reply).state() == RegistrationState::Registered,
        client.after_registration(reply).token == Some(token),
        client.after_registration(reply).pull_request() is Ok,
        decode_request_spec(client.after_registration(reply).pull_request()->Ok_0) == Ok::<
            RequestView,
            CodecError,
        >(RequestView::Pull { address: client.address, token }),
{
    lemma_request_round_trip(RequestView::Pull { address: client.address, token });
}

/// An unregistered client that is sent a Register response with `token`
/// is issued `token`.
pub proof fn lemma_registration_issues_token(client: ProviderClientView, token: Seq<u8>)
    requires
        client.token is None,
        token.len() == 32,
    ensures
        client.registration(
            Ok::<Seq<u8>, ProviderClientError>(
                encode_response_spec(ResponseView::Register { token }),
            ),
        ) == Ok::<Seq<u8>, ProviderClientError>(token),
{
    lemma_response_round_trip(ResponseView::Register { token });
}

/// A registered client that is sent `messages` retrieves them, each as it
/// was sent and in the order in which they were sent, and stays registered
/// with the token it had.
pub proof fn lemma_pull_delivers_messages(client: ProviderClientView, messages: Seq<Seq<u8>>)
    requires
        client.token is Some,
        fits_table(messages),
    ensures
        client.retrieval(
            Ok::<Seq<u8>, ProviderClientError>(
                encode_response_spec(ResponseView::Pull { messages }),
            ),
        ) == Ok::<Seq<Seq<u8>>, ProviderClientError>(messages),
{
    lemma_response_round_trip(ResponseView::Pull { messages });
}

/// When the transport fails, a registration and a pull that were not
/// refused fail with a network error, never with an error of the codec, and
/// the client stays as it is.
pub proof fn lemma_transport_failure_is_network_error(
    client: ProviderClientView,
    exchanged: Result<Vec<u8>, TransportError>,
)
    requires
        exchanged is Err,
    ensures
        client.token is None ==> client.registration(network_result(exchanged)) == Err::<
            Seq<u8>,
            ProviderClientError,
        >(ProviderClientError::NetworkError),
        client.token is Some ==> client.retrieval(network_result(exchanged)) == Err::<
            Seq<Seq<u8>>,
            ProviderClientError,
        >(ProviderClientError::NetworkError),
        client.after_registration(network_result(exchanged)) == client,
{
}

/// A response that does not decode fails a registration and a pull with the
/// client error that stands for the failure of the codec: malformed bytes
/// and a length mismatch stay apart.
pub proof fn lemma_decode_failure_is_passed_on(
    client: ProviderClientView,
    response: Seq<u8>,
    error: CodecError,
)
    requires
        decode_response_spec(response) == Err::<ResponseView, CodecError>(error),
    ensures
        client.token is None ==> client.registration(Ok(response)) == Err::<
            Seq<u8>,
            ProviderClientError,
        >(codec_failure(error)),
        client.token is Some ==> client.retrieval(Ok(response)) == Err::<
            Seq<Seq<u8>>,
            ProviderClientError,
        >(codec_failure(error)),
        error == CodecError::UnmarshalError ==> codec_failure(error)
            == ProviderClientError::InvalidResponseError,
        error == CodecError::UnmarshalErrorInvalidLength ==> codec_failure(error)
            == ProviderClientError::InvalidResponseLengthError,
        error != CodecError::MarshalError,
{
}

} // verus!
