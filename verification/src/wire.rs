//! The frames this client sends, as the `mqtt` crate encodes them.
//!
//! The frames are encoded by the crate. What it writes is stated here,
//! byte for byte, and the functions of this module are believed, not
//! proved, to return it.

use mqtt::packet::{ConnectPacket, PingrespPacket, PublishPacket, QoSWithPacketIdentifier};
use mqtt::{Encodable, TopicName};
use vstd::prelude::*;
use vstd::utf8::{
    decode_utf8, encode_utf8, encode_utf8_decode_utf8, is_ascii_chars, is_ascii_chars_encode_utf8,
};

verus! {

/// The longest string, in bytes, that a frame can carry.
pub const MAX_STRING_LENGTH: usize = 65535;

/// The most bytes that may follow a frame's fixed header.
pub const MAX_REMAINING_LENGTH: usize = 268_435_455;

/// The number of bytes of a text once encoded as UTF-8.
pub open spec fn utf8_len(text: Seq<char>) -> nat {
    encode_utf8(text).len()
}

/// A topic that a message can be published to: not empty, at most
/// [`MAX_STRING_LENGTH`] bytes long, and free of the wildcards `#` and `+`.
pub open spec fn topic_valid(topic: Seq<char>) -> bool {
    &&& topic.len() > 0
    &&& utf8_len(topic) <= MAX_STRING_LENGTH
    &&& forall|i: int| 0 <= i < topic.len() ==> topic[i] != '#' && topic[i] != '+'
}

/// How a message is to be delivered: at most once, or with an
/// acknowledgement under the given packet identifier.
#[derive(Clone, Copy, Debug, PartialEq, Eq)]
pub enum QoS {
    Level0,
    Level1(u16),
    Level2(u16),
}

/// The number of bytes that a frame spends on its packet identifier: it
/// carries one where an acknowledgement is asked for.
pub open spec fn identifier_length(qos: QoS) -> nat {
    match qos {
        QoS::Level0 => 0,
        _ => 2,
    }
}

/// A message that fits, with its topic and at the given delivery level,
/// into one frame: what follows the fixed header is the topic behind two
/// bytes of length, the packet identifier and the message.
pub open spec fn frame_holds(topic: Seq<char>, qos: QoS, payload: Seq<u8>) -> bool {
    2 + utf8_len(topic) + identifier_length(qos) + payload.len() <= MAX_REMAINING_LENGTH
}

/// A message that fits, with its topic, into a frame that is delivered at
/// most once.
pub open spec fn frame_fits(topic: Seq<char>, payload: Seq<u8>) -> bool {
    frame_holds(topic, QoS::Level0, payload)
}

/// Whether `topic` is one that a message can be published to.
pub fn is_valid_topic(topic: &str) -> (valid: bool)
    ensures
        valid == topic_valid(topic@),
{
    if topic.is_empty() || topic.as_bytes().len() > MAX_STRING_LENGTH {
        return false;
    }
    let mut clean = true;
    for c in it: topic.chars()
        invariant
            it.seq() == topic@,
            topic@.len() > 0,
            utf8_len(topic@) <= MAX_STRING_LENGTH,
            clean == (forall|i: int| 0 <= i < it.index() ==> topic@[i] != '#' && topic@[i] != '+'),
    {
        if c == '#' || c == '+' {
            clean = false;
        }
    }
    clean
}

/// The two bytes of a number below 65536, the high one first.
pub open spec fn pair_bytes(n: nat) -> Seq<u8> {
    seq![(n / 256) as u8, (n % 256) as u8]
}

/// A text as a frame carries it: the number of its bytes in two bytes,
/// then its UTF-8 encoding.
pub open spec fn string_bytes(text: Seq<char>) -> Seq<u8> {
    pair_bytes(utf8_len(text)) + encode_utf8(text)
}

/// The remaining length as a fixed header carries it: seven bits to a
/// byte, the lowest first, with the high bit set on every byte that another
/// follows.
pub open spec fn remaining_length_bytes(n: nat) -> Seq<u8>
    decreases n,
{
    if n < 128 {
        seq![n as u8]
    } else {
        seq![(n % 128 + 128) as u8] + remaining_length_bytes(n / 128)
    }
}

/// A frame: the byte of its type and flags, the length of what remains,
/// and what remains.
pub open spec fn frame_of(first: u8, rest: Seq<u8>) -> Seq<u8> {
    seq![first] + remaining_length_bytes(rest.len()) + rest
}

/// The flags of a connection request that carries a user name and a
/// password and no will.
pub open spec fn connect_flags(clean_session: bool) -> u8 {
    if clean_session {
        0xC2
    } else {
        0xC0
    }
}

/// The bytes of the connection request that names the given protocol and
/// client and carries the given session flag and credentials: the
/// protocol's name, its level 4, the flags and a keep-alive time of zero,
/// then the client's identifier, the user name and the password.
pub open spec fn connect_frame(
    protocol: Seq<char>,
    client_id: Seq<char>,
    clean_session: bool,
    user_name: Seq<char>,
    password: Seq<char>,
) -> Seq<u8> {
    frame_of(
        0x10,
        string_bytes(protocol) + seq![0x04u8, connect_flags(clean_session), 0x00u8, 0x00u8]
            + string_bytes(client_id) + string_bytes(user_name) + string_bytes(password),
    )
}

/// The byte of type and flags of a publication: the delivery level in bits
/// one and two and the retain flag in bit zero, under the type 3.
pub open spec fn publish_type(qos: QoS, retain: bool) -> u8 {
    let level: int = match qos {
        QoS::Level0 => 0,
        QoS::Level1(_) => 1,
        QoS::Level2(_) => 2,
    };
    (0x30 + 2 * level + if retain {
        1int
    } else {
        0int
    }) as u8
}

/// The packet identifier as a frame carries it, where it carries one.
pub open spec fn identifier_bytes(qos: QoS) -> Seq<u8> {
    match qos {
        QoS::Level0 => Seq::empty(),
        QoS::Level1(id) => pair_bytes(id as nat),
        QoS::Level2(id) => pair_bytes(id as nat),
    }
}

/// The bytes of the frame that publishes `payload` to `topic`: the topic,
/// the packet identifier where there is one, and the payload as it is.
pub open spec fn publish_frame(
    topic: Seq<char>,
    qos: QoS,
    retain: bool,
    payload: Seq<u8>,
) -> Seq<u8> {
    frame_of(publish_type(qos, retain), string_bytes(topic) + identifier_bytes(qos) + payload)
}

/// The bytes of a text of ASCII characters: one to a character.
pub open spec fn ascii_bytes(text: Seq<char>) -> Seq<u8> {
    Seq::new(text.len(), |i: int| text[i] as u8)
}

/// A text of ASCII characters is carried as it is written: behind the two
/// bytes of its length, one byte to a character.
pub proof fn lemma_ascii_string_bytes(text: Seq<char>)
    requires
        is_ascii_chars(text),
    ensures
        utf8_len(text) == text.len(),
        encode_utf8(text) == ascii_bytes(text),
        string_bytes(text) == pair_bytes(text.len()) + ascii_bytes(text),
{
    is_ascii_chars_encode_utf8(text);
    assert(encode_utf8(text) =~= ascii_bytes(text));
}

/// A frame carries its message untouched: the message is the frame's end.
/// So a text that is published can be read back from its frame: the last
/// bytes of the frame, as many as the text has, decode to the text.
pub proof fn lemma_published_text_reads_back(
    topic: Seq<char>,
    qos: QoS,
    retain: bool,
    text: Seq<char>,
)
    ensures
        ({
            let frame = publish_frame(topic, qos, retain, encode_utf8(text));
            &&& frame.len() >= utf8_len(text)
            &&& frame.skip(frame.len() - utf8_len(text)) == encode_utf8(text)
            &&& decode_utf8(frame.skip(frame.len() - utf8_len(text))) == text
        }),
{
    let payload = encode_utf8(text);
    let frame = publish_frame(topic, qos, retain, payload);
    assert(frame.skip(frame.len() - payload.len()) =~= payload);
    encode_utf8_decode_utf8(text);
}

/// Encodes a connection request with `mqtt::packet::ConnectPacket`.
///
/// Believed: for a packet built by `ConnectPacket::new` and given the
/// session flag and the two credentials by its setters, the crate's encoder
/// writes the fixed header of a connection request and then the packet's
/// parts in the order of [`connect_frame`], every string behind the two
/// bytes of its length. The crate asserts that no string is longer than
/// 65535 bytes, which is what is required here; writing into a vector
/// cannot fail.
#[verifier::external_body]
pub(crate) fn encode_connect(
    protocol: &str,
    client_id: &str,
    clean_session: bool,
    user_name: &str,
    password: &str,
) -> (frame: Vec<u8>)
    requires
        utf8_len(protocol@) <= MAX_STRING_LENGTH,
        utf8_len(client_id@) <= MAX_STRING_LENGTH,
        utf8_len(user_name@) <= MAX_STRING_LENGTH,
        utf8_len(password@) <= MAX_STRING_LENGTH,
    ensures
        frame@ == connect_frame(protocol@, client_id@, clean_session, user_name@, password@),
{
    let mut packet = ConnectPacket::new(protocol, client_id);
    packet.set_clean_session(clean_session);
    packet.set_user_name(Some(user_name.to_owned()));
    packet.set_password(Some(password.to_owned()));
    let mut frame = Vec::new();
    packet.encode(&mut frame).unwrap();
    frame
}

/// Encodes a publication with `mqtt::packet::PublishPacket`.
///
/// Believed: for a packet built by `PublishPacket::new` from the topic,
/// the delivery level and the payload, with the retain flag set as given,
/// the crate's encoder writes the fixed header with the flags of
/// [`publish_type`] and then the topic, the packet identifier and the
/// payload as [`publish_frame`] has them. `TopicName::new` accepts exactly
/// the topics that [`topic_valid`] describes, and the remaining length,
/// which the crate computes as [`frame_holds`] does, stays within what the
/// fixed header can hold.
#[verifier::external_body]
pub(crate) fn encode_publish(topic: &str, qos: QoS, retain: bool, payload: &[u8]) -> (frame: Vec<
    u8,
>)
    requires
        topic_valid(topic@),
        frame_holds(topic@, qos, payload@),
    ensures
        frame@ == publish_frame(topic@, qos, retain, payload@),
{
    let level = match qos {
        QoS::Level0 => QoSWithPacketIdentifier::Level0,
        QoS::Level1(id) => QoSWithPacketIdentifier::Level1(id),
        QoS::Level2(id) => QoSWithPacketIdentifier::Level2(id),
    };
    let mut packet = PublishPacket::new(TopicName::new(topic).unwrap(), level, payload);
    packet.set_retain(retain);
    let mut frame = Vec::new();
    packet.encode(&mut frame).unwrap();
    frame
}

/// The two bytes of a ping response: the packet type in the high half of
/// the first byte, and a remaining length of zero.
pub open spec fn pingresp_frame() -> Seq<u8> {
    seq![0xD0u8, 0x00u8]
}

/// Encodes a ping response with `mqtt::packet::PingrespPacket`.
///
/// Believed: the crate writes the packet's type byte and a remaining length
/// of zero, and nothing else.
#[verifier::external_body]
pub(crate) fn encode_pingresp() -> (frame: Vec<u8>)
    ensures
        frame@ == pingresp_frame(),
{
    let mut frame = Vec::new();
    PingrespPacket::new().encode(&mut frame).unwrap();
    frame
}

} // verus!
