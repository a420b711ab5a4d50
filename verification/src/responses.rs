//! Responses of a provider and their wire form.
//!
//! A Pull response carries any number of messages of any length, so its body
//! starts with a table: the number of messages, then the length of each. The
//! messages follow the table back to back, in the order of the table.

use vstd::prelude::*;
use crate::codec::{CodecError, PULL_DISCRIMINATOR, REGISTER_DISCRIMINATOR};
use crate::identity::AuthToken;
use crate::wire::{
    be16, copy_range, field_at, lemma_be16_canonical, lemma_be16_round_trip, push_be16,
    push_bytes, read_be16, read_identifier, FIELD_MAX,
};

verus! {

/// What a provider answers.
#[derive(Debug, PartialEq, Eq)]
pub enum Response {
    /// The token issued to the client that registered.
    Register { token: AuthToken },
    /// The messages that were buffered for the client, oldest first.
    Pull { messages: Vec<Vec<u8>> },
}

/// The logical content of a [`Response`].
pub enum ResponseView {
    Register { token: Seq<u8> },
    Pull { messages: Seq<Seq<u8>> },
}

/// The contents of a list of messages.
pub open spec fn messages_view(messages: Seq<Vec<u8>>) -> Seq<Seq<u8>> {
    Seq::new(messages.len(), |i: int| messages[i]@)
}

impl View for Response {
    type V = ResponseView;

    open spec fn view(&self) -> ResponseView {
        match *self {
            Response::Register { token } => ResponseView::Register { token: token@ },
            Response::Pull { messages } => ResponseView::Pull {
                messages: messages_view(messages@),
            },
        }
    }
}

/// The table can declare the number of the messages and the length of each.
pub open spec fn fits_table(messages: Seq<Seq<u8>>) -> bool {
    &&& messages.len() <= 0xffff
    &&& forall|i: int| 0 <= i < messages.len() ==> (#[trigger] messages[i]).len() <= 0xffff
}

impl ResponseView {
    /// The response has a wire form: a token has its fixed length, and
    /// messages fit the table.
    pub open spec fn encodable(self) -> bool {
        match self {
            ResponseView::Register { token } => token.len() == 32,
            ResponseView::Pull { messages } => fits_table(messages),
        }
    }
}

/// The lengths of the messages, each as a 16-bit field, in order.
pub open spec fn length_table(messages: Seq<Seq<u8>>) -> Seq<u8>
    decreases messages.len(),
{
    if messages.len() == 0 {
        Seq::empty()
    } else {
        length_table(messages.drop_last()) + be16(messages.last().len())
    }
}

/// The messages back to back, in order.
pub open spec fn payload(messages: Seq<Seq<u8>>) -> Seq<u8>
    decreases messages.len(),
{
    if messages.len() == 0 {
        Seq::empty()
    } else {
        payload(messages.drop_last()) + messages.last()
    }
}

/// The body of a Pull response: the table, then the messages.
pub open spec fn encode_pull_body(messages: Seq<Seq<u8>>) -> Seq<u8> {
    be16(messages.len()) + length_table(messages) + payload(messages)
}

/// The wire form of a response.
pub open spec fn encode_response_spec(response: ResponseView) -> Seq<u8> {
    match response {
        ResponseView::Register { token } => be16(REGISTER_DISCRIMINATOR as nat) + token,
        ResponseView::Pull { messages } => be16(PULL_DISCRIMINATOR as nat) + encode_pull_body(
            messages,
        ),
    }
}

/// The length that the table in `body` declares for message `i`.
pub open spec fn declared_length(body: Seq<u8>, i: int) -> nat {
    field_at(body, 2 + 2 * i)
}

/// Where message `i` starts among the messages, going by the table in
/// `body`: the lengths declared for the messages before it, added up.
pub open spec fn declared_offset(body: Seq<u8>, i: int) -> nat
    decreases i,
{
    if i <= 0 {
        0
    } else {
        declared_offset(body, i - 1) + declared_length(body, i - 1)
    }
}

/// What a client reads out of the body of a Pull response.
pub open spec fn decode_pull_body(body: Seq<u8>) -> Result<Seq<Seq<u8>>, CodecError> {
    if body.len() < 2 {
        Err(CodecError::UnmarshalError)
    } else {
        let count = field_at(body, 0);
        let start = 2 + 2 * (count as int);
        if body.len() < start {
            Err(CodecError::UnmarshalErrorInvalidLength)
        } else if declared_offset(body, count as int) != body.len() - start {
            Err(CodecError::UnmarshalErrorInvalidLength)
        } else {
            Ok(
                Seq::new(
                    count,
                    |i: int|
                        body.subrange(
                            start + declared_offset(body, i),
                            start + declared_offset(body, i + 1),
                        ),
                ),
            )
        }
    }
}

/// What a client reads out of the bytes of a response.
pub open spec fn decode_response_spec(bytes: Seq<u8>) -> Result<ResponseView, CodecError> {
    if bytes.len() < 2 {
        Err(CodecError::UnmarshalError)
    } else if field_at(bytes, 0) == REGISTER_DISCRIMINATOR {
        if bytes.len() < 34 {
            Err(CodecError::UnmarshalError)
        } else if bytes.len() > 34 {
            Err(CodecError::UnmarshalErrorInvalidLength)
        } else {
            Ok(ResponseView::Register { token: bytes.subrange(2, 34) })
        }
    } else if field_at(bytes, 0) == PULL_DISCRIMINATOR {
        match decode_pull_body(bytes.skip(2)) {
            Ok(messages) => Ok(ResponseView::Pull { messages }),
            Err(error) => Err(error),
        }
    } else {
        Err(CodecError::UnmarshalError)
    }
}

/// The declared offsets never step back.
pub proof fn lemma_declared_offset_monotonic(body: Seq<u8>, i: int, j: int)
    requires
        0 <= i <= j,
    ensures
        declared_offset(body, i) <= declared_offset(body, j),
    decreases j - i,
{
    if i < j {
        lemma_declared_offset_monotonic(body, i, j - 1);
    }
}

/// Decodes the body of a Pull response, which starts at the third byte.
fn decode_pull(bytes: &[u8]) -> (decoded: Result<Vec<Vec<u8>>, CodecError>)
    requires
        bytes@.len() >= 2,
    ensures
        match decoded {
            Ok(messages) => decode_pull_body(bytes@.skip(2)) == Ok::<Seq<Seq<u8>>, CodecError>(
                messages_view(messages@),
            ),
            Err(error) => decode_pull_body(bytes@.skip(2)) == Err::<Seq<Seq<u8>>, CodecError>(
                error,
            ),
        },
{
    let ghost body = bytes@.skip(2);
    let len: usize = bytes.len();
    if len < 4 {
        return Err(CodecError::UnmarshalError);
    }
    let count: usize = read_be16(bytes, 2) as usize;
    assert(count == field_at(body, 0));
    let start: usize = 4 + 2 * count;
    if len < start {
        return Err(CodecError::UnmarshalErrorInvalidLength);
    }
    let mut messages: Vec<Vec<u8>> = Vec::new();
    let mut at: usize = start;
    let mut i: usize = 0;
    while i < count
        invariant
            body == bytes@.skip(2),
            len == bytes@.len(),
            count == field_at(body, 0),
            count <= 0xffff,
            start == 4 + 2 * count,
            start <= at <= len,
            i <= count,
            at == start + declared_offset(body, i as int),
            messages@.len() == i,
            forall|k: int|
                0 <= k < i ==> (#[trigger] messages@[k])@ == body.subrange(
                    start - 2 + declared_offset(body, k),
                    start - 2 + declared_offset(body, k + 1),
                ),
        decreases count - i,
    {
        let declared: usize = read_be16(bytes, 4 + 2 * i) as usize;
        assert(declared == declared_length(body, i as int));
        if declared > len - at {
            proof {
                lemma_declared_offset_monotonic(body, i + 1, count as int);
            }
            return Err(CodecError::UnmarshalErrorInvalidLength);
        }
        let message = copy_range(bytes, at, at + declared);
        assert(message@ =~= body.subrange(
            start - 2 + declared_offset(body, i as int),
            start - 2 + declared_offset(body, i + 1),
        ));
        messages.push(message);
        at += declared;
        i += 1;
    }
    if at != len {
        return Err(CodecError::UnmarshalErrorInvalidLength);
    }
    proof {
        let decoded = decode_pull_body(body);
        assert(decoded is Ok);
        assert(decoded->Ok_0 =~= messages_view(messages@));
    }
    Ok(messages)
}

/// Decodes a response.
pub fn decode_response(bytes: &[u8]) -> (decoded: Result<Response, CodecError>)
    ensures
        match decoded {
            Ok(response) => decode_response_spec(bytes@) == Ok::<ResponseView, CodecError>(
                response@,
            ),
            Err(error) => decode_response_spec(bytes@) == Err::<ResponseView, CodecError>(error),
        },
{
    if bytes.len() < 2 {
        return Err(CodecError::UnmarshalError);
    }
    let discriminator: u16 = read_be16(bytes, 0);
    if discriminator == REGISTER_DISCRIMINATOR {
        if bytes.len() < 34 {
            Err(CodecError::UnmarshalError)
        } else if bytes.len() > 34 {
            Err(CodecError::UnmarshalErrorInvalidLength)
        } else {
            Ok(Response::Register { token: read_identifier(bytes, 2) })
        }
    } else if discriminator == PULL_DISCRIMINATOR {
        match decode_pull(bytes) {
            Ok(messages) => Ok(Response::Pull { messages }),
            Err(error) => Err(error),
        }
    } else {
        Err(CodecError::UnmarshalError)
    }
}

/// Encodes the messages of a Pull response: discriminator, table, payload.
fn encode_pull(messages: &Vec<Vec<u8>>) -> (encoded: Result<Vec<u8>, CodecError>)
    ensures
        match encoded {
            Ok(bytes) => fits_table(messages_view(messages@)) && bytes@ == be16(
                PULL_DISCRIMINATOR as nat,
            ) + encode_pull_body(messages_view(messages@)),
            Err(error) => error == CodecError::MarshalError && !fits_table(
                messages_view(messages@),
            ),
        },
{
    let ghost view = messages_view(messages@);
    let count: usize = messages.len();
    if count > FIELD_MAX {
        return Err(CodecError::MarshalError);
    }
    let mut bytes: Vec<u8> = Vec::new();
    push_be16(&mut bytes, PULL_DISCRIMINATOR);
    push_be16(&mut bytes, count as u16);
    let ghost head = bytes@;
    let mut i: usize = 0;
    while i < count
        invariant
            view == messages_view(messages@),
            count == messages@.len(),
            i <= count,
            bytes@ == head + length_table(view.take(i as int)),
            forall|k: int| 0 <= k < i ==> (#[trigger] view[k]).len() <= 0xffff,
        decreases count - i,
    {
        let length: usize = messages[i].len();
        if length > FIELD_MAX {
            assert(view[i as int].len() > 0xffff);
            return Err(CodecError::MarshalError);
        }
        push_be16(&mut bytes, length as u16);
        proof {
            assert(view.take(i + 1).drop_last() =~= view.take(i as int));
        }
        i += 1;
    }
    assert(view.take(count as int) =~= view);
    let ghost table = bytes@;
    let mut j: usize = 0;
    while j < count
        invariant
            view == messages_view(messages@),
            count == messages@.len(),
            j <= count,
            bytes@ == table + payload(view.take(j as int)),
        decreases count - j,
    {
        push_bytes(&mut bytes, messages[j].as_slice());
        proof {
            assert(view.take(j + 1).drop_last() =~= view.take(j as int));
            assert(bytes@ =~= table + payload(view.take(j + 1)));
        }
        j += 1;
    }
    assert(bytes@ =~= be16(PULL_DISCRIMINATOR as nat) + encode_pull_body(view));
    Ok(bytes)
}

/// Encodes a response, as a provider does. Messages that the table cannot
/// declare make the response unencodable.
pub fn encode_response(response: &Response) -> (encoded: Result<Vec<u8>, CodecError>)
    ensures
        match encoded {
            Ok(bytes) => response@.encodable() && bytes@ == encode_response_spec(response@),
            Err(error) => error == CodecError::MarshalError && !response@.encodable(),
        },
{
    match response {
        Response::Register { token } => {
            let mut bytes: Vec<u8> = Vec::new();
            push_be16(&mut bytes, REGISTER_DISCRIMINATOR);
            push_bytes(&mut bytes, token.as_slice());
            assert(bytes@ =~= encode_response_spec(response@));
            Ok(bytes)
        },
        Response::Pull { messages } => encode_pull(messages),
    }
}

/// The table holds two bytes for each message, and its field for a message
/// holds that message's length.
pub proof fn lemma_length_table(messages: Seq<Seq<u8>>)
    requires
        fits_table(messages),
    ensures
        length_table(messages).len() == 2 * messages.len(),
        forall|i: int|
            0 <= i < messages.len() ==> (#[trigger] messages[i]).len() == field_at(
                length_table(messages),
                2 * i,
            ),
    decreases messages.len(),
{
    if messages.len() > 0 {
        let front = messages.drop_last();
        lemma_length_table(front);
        lemma_be16_round_trip(messages.last().len());
        assert forall|i: int| 0 <= i < messages.len() implies (#[trigger] messages[i]).len()
            == field_at(length_table(messages), 2 * i) by {
            if i < front.len() {
                assert(front[i] == messages[i]);
            }
        }
    }
}

/// Message `i` lies in the payload right after the messages before it.
pub proof fn lemma_payload_slices(messages: Seq<Seq<u8>>, i: int)
    requires
        0 <= i < messages.len(),
    ensures
        payload(messages.take(i + 1)).len() == payload(messages.take(i)).len()
            + messages[i].len(),
        payload(messages.take(i + 1)).len() <= payload(messages).len(),
        payload(messages).subrange(
            payload(messages.take(i)).len() as int,
            payload(messages.take(i + 1)).len() as int,
        ) == messages[i],
    decreases messages.len(),
{
    let front = messages.drop_last();
    if i == messages.len() - 1 {
        assert(messages.take(i) =~= front);
        assert(messages.take(i + 1) =~= messages);
        assert(payload(messages).subrange(
            payload(front).len() as int,
            payload(messages).len() as int,
        ) =~= messages[i]);
    } else {
        lemma_payload_slices(front, i);
        assert(front.take(i) =~= messages.take(i));
        assert(front.take(i + 1) =~= messages.take(i + 1));
        assert(payload(messages).subrange(
            payload(messages.take(i)).len() as int,
            payload(messages.take(i + 1)).len() as int,
        ) =~= payload(front).subrange(
            payload(messages.take(i)).len() as int,
            payload(messages.take(i + 1)).len() as int,
        ));
    }
}

/// In an encoded body the table declares for each message the place that it
/// has in the payload.
proof fn lemma_declared_offset_of_encoding(messages: Seq<Seq<u8>>, i: int)
    requires
        fits_table(messages),
        0 <= i <= messages.len(),
    ensures
        declared_offset(encode_pull_body(messages), i) == payload(messages.take(i)).len(),
    decreases i,
{
    if i > 0 {
        let body = encode_pull_body(messages);
        lemma_declared_offset_of_encoding(messages, i - 1);
        lemma_length_table(messages);
        lemma_payload_slices(messages, i - 1);
        let table = length_table(messages);
        assert(body[2 + 2 * (i - 1)] == table[2 * (i - 1)]);
        assert(body[2 + 2 * (i - 1) + 1] == table[2 * (i - 1) + 1]);
        assert(declared_length(body, i - 1) == messages[i - 1].len());
    }
}

/// In an encoded body each message lies where the table says.
proof fn lemma_encoded_message_place(messages: Seq<Seq<u8>>, i: int)
    requires
        fits_table(messages),
        0 <= i < messages.len(),
    ensures
        ({
            let body = encode_pull_body(messages);
            let start = 2 + 2 * (messages.len() as int);
            &&& start + declared_offset(body, i + 1) <= body.len()
            &&& body.subrange(start + declared_offset(body, i), start + declared_offset(body, i + 1))
                == messages[i]
        }),
{
    let body = encode_pull_body(messages);
    let start = 2 + 2 * (messages.len() as int);
    let from = payload(messages.take(i)).len() as int;
    let to = payload(messages.take(i + 1)).len() as int;
    lemma_length_table(messages);
    lemma_declared_offset_of_encoding(messages, i);
    lemma_declared_offset_of_encoding(messages, i + 1);
    lemma_payload_slices(messages, i);
    assert(body.subrange(start + from, start + to) =~= payload(messages).subrange(from, to));
}

/// Decoding the body of an encoded Pull response gives the messages back.
proof fn lemma_pull_body_round_trip(messages: Seq<Seq<u8>>)
    requires
        fits_table(messages),
    ensures
        decode_pull_body(encode_pull_body(messages)) == Ok::<Seq<Seq<u8>>, CodecError>(messages),
{
    let body = encode_pull_body(messages);
    let count = messages.len();
    lemma_be16_round_trip(count);
    lemma_length_table(messages);
    lemma_declared_offset_of_encoding(messages, count as int);
    assert(messages.take(count as int) =~= messages);
    assert(field_at(body, 0) == count);
    let decoded = decode_pull_body(body);
    assert(decoded is Ok);
    assert forall|i: int| 0 <= i < count implies (#[trigger] decoded->Ok_0[i]) == messages[i] by {
        lemma_encoded_message_place(messages, i);
    }
    assert(decoded->Ok_0 =~= messages);
}

/// A client that decodes an encoded response reads the token, or the
/// messages in their order, that the provider put into it.
pub proof fn lemma_response_round_trip(response: ResponseView)
    requires
        response.encodable(),
    ensures
        decode_response_spec(encode_response_spec(response)) == Ok::<ResponseView, CodecError>(
            response,
        ),
{
    let bytes = encode_response_spec(response);
    match response {
        ResponseView::Register { token } => {
            assert(bytes.subrange(2, 34) =~= token);
        },
        ResponseView::Pull { messages } => {
            assert(bytes.skip(2) =~= encode_pull_body(messages));
            lemma_pull_body_round_trip(messages);
        },
    }
}

/// The messages that a decodable body holds, one by one up to message `k`,
/// encode to the start of its table and to the start of its payload.
proof fn lemma_decoded_prefix(body: Seq<u8>, messages: Seq<Seq<u8>>, k: int)
    requires
        decode_pull_body(body) == Ok::<Seq<Seq<u8>>, CodecError>(messages),
        0 <= k <= messages.len(),
    ensures
        2 + 2 * messages.len() + declared_offset(body, k) <= body.len(),
        length_table(messages.take(k)) == body.subrange(2, 2 + 2 * k),
        payload(messages.take(k)) == body.subrange(
            2 + 2 * (messages.len() as int),
            2 + 2 * (messages.len() as int) + declared_offset(body, k),
        ),
        forall|i: int| 0 <= i < k ==> (#[trigger] messages[i]).len() <= 0xffff,
    decreases k,
{
    let count = messages.len() as int;
    let start = 2 + 2 * count;
    lemma_declared_offset_monotonic(body, k, count);
    if k == 0 {
        assert(length_table(messages.take(0)) =~= body.subrange(2, 2));
        assert(payload(messages.take(0)) =~= body.subrange(start, start));
    } else {
        lemma_decoded_prefix(body, messages, k - 1);
        let i = k - 1;
        assert(messages.take(k).drop_last() =~= messages.take(i));
        assert(messages.take(k).last() == messages[i]);
        assert(messages[i] == body.subrange(
            start + declared_offset(body, i),
            start + declared_offset(body, k),
        ));
        lemma_be16_canonical(body[2 + 2 * i], body[2 + 2 * i + 1]);
        assert(messages[i].len() == declared_length(body, i));
        assert(length_table(messages.take(k)) =~= body.subrange(2, 2 + 2 * k));
        assert(payload(messages.take(k)) =~= body.subrange(
            start,
            start + declared_offset(body, k),
        ));
    }
}

/// Only one byte sequence decodes to a given response: its encoding.
pub proof fn lemma_response_encoding_unique(bytes: Seq<u8>, response: ResponseView)
    requires
        decode_response_spec(bytes) == Ok::<ResponseView, CodecError>(response),
    ensures
        response.encodable(),
        encode_response_spec(response) == bytes,
{
    lemma_be16_canonical(bytes[0], bytes[1]);
    match response {
        ResponseView::Register { token } => {
            assert(encode_response_spec(response) =~= bytes);
        },
        ResponseView::Pull { messages } => {
            let body = bytes.skip(2);
            let count = messages.len() as int;
            lemma_decoded_prefix(body, messages, count);
            lemma_be16_canonical(body[0], body[1]);
            assert(messages.take(count) =~= messages);
            assert(encode_pull_body(messages) =~= body);
            assert(encode_response_spec(response) =~= bytes);
        },
    }
}

/// Bytes that start with a discriminator that no response has are
/// malformed, whatever follows.
pub proof fn lemma_unknown_discriminator_is_malformed(bytes: Seq<u8>)
    requires
        bytes.len() >= 2,
        field_at(bytes, 0) != REGISTER_DISCRIMINATOR,
        field_at(bytes, 0) != PULL_DISCRIMINATOR,
    ensures
        decode_response_spec(bytes) == Err::<ResponseView, CodecError>(CodecError::UnmarshalError),
{
}

/// A Pull response whose table declares more than is left, be it the
/// number of the messages or the length of one of them, has a length
/// mismatch.
pub proof fn lemma_overlong_declaration_is_length_mismatch(bytes: Seq<u8>, i: int)
    requires
        bytes.len() >= 4,
        field_at(bytes, 0) == PULL_DISCRIMINATOR,
        ({
            let body = bytes.skip(2);
            let count = field_at(body, 0) as int;
            ||| 2 + 2 * count > body.len()
            ||| 0 <= i < count && declared_length(body, i) > body.len() - (2 + 2 * count)
        }),
    ensures
        decode_response_spec(bytes) == Err::<ResponseView, CodecError>(
            CodecError::UnmarshalErrorInvalidLength,
        ),
{
    let body = bytes.skip(2);
    let count = field_at(body, 0) as int;
    if 2 + 2 * count <= body.len() {
        lemma_declared_offset_monotonic(body, i + 1, count);
    }
}

} // verus!
