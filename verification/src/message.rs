//! The four protocol messages and their form as a datagram.
//!
//! A datagram is a tag of four bytes, followed by the identity the message
//! carries, if it carries one, as eight bytes. All numbers are little-endian.
//! Bytes after the message are accepted and ignored.

use crate::wire::{put_u32, put_u64, take_u32, take_u64, u32_from_le, u32_le, u64_from_le, u64_le};
use crate::wire::{u32_read_inverts_write, u64_read_inverts_write};
use vstd::prelude::*;
use vstd::slice::slice_subrange;

verus! {

/// What peers say to each other. Every message is broadcast to the whole
/// group.
#[derive(Clone, Copy, Debug, PartialEq, Eq, Structural)]
pub enum Message {
    /// Asks who the leader is.
    FindLeader,
    /// The answer of a leader to `FindLeader`, with the leader's identity.
    AnswerLeader { id: u64 },
    /// Announces that the sender starts a round, with the sender's identity.
    CallElection { id: u64 },
    /// The reply of a challenged peer, with that peer's identity.
    AnswerElection { id: u64 },
}

/// Why a datagram is not a message.
#[derive(Clone, Copy, Debug, PartialEq, Eq, Structural)]
pub enum DecodeFault {
    /// The datagram ends before the message does.
    Truncated,
    /// The tag names none of the four messages.
    UnknownTag { tag: u32 },
    /// The datagram is longer than the receive buffer.
    Oversized,
}

/// Length of the longest datagram that holds one message and nothing else.
pub const MAX_MESSAGE_LEN: usize = 12;

impl Message {
    /// The tag that opens the datagram of this message.
    pub open spec fn spec_tag(self) -> u32 {
        match self {
            Message::FindLeader => 0,
            Message::AnswerLeader { .. } => 1,
            Message::CallElection { .. } => 2,
            Message::AnswerElection { .. } => 3,
        }
    }

    /// The identity that the message carries, if any.
    pub open spec fn spec_carried(self) -> Option<u64> {
        match self {
            Message::FindLeader => None,
            Message::AnswerLeader { id } => Some(id),
            Message::CallElection { id } => Some(id),
            Message::AnswerElection { id } => Some(id),
        }
    }

    /// The tag that opens the datagram of this message.
    #[verifier::when_used_as_spec(spec_tag)]
    pub fn tag(self) -> (t: u32)
        ensures
            t == self.spec_tag(),
    {
        match self {
            Message::FindLeader => 0,
            Message::AnswerLeader { .. } => 1,
            Message::CallElection { .. } => 2,
            Message::AnswerElection { .. } => 3,
        }
    }

    /// The identity that the message carries, if any.
    #[verifier::when_used_as_spec(spec_carried)]
    pub fn carried(self) -> (id: Option<u64>)
        ensures
            id == self.spec_carried(),
    {
        match self {
            Message::FindLeader => None,
            Message::AnswerLeader { id } => Some(id),
            Message::CallElection { id } => Some(id),
            Message::AnswerElection { id } => Some(id),
        }
    }
}

/// The message with tag `tag` that carries `id`. Tag 0 carries nothing.
pub open spec fn assemble(tag: u32, id: u64) -> Message
    recommends
        tag <= 3,
{
    if tag == 0 {
        Message::FindLeader
    } else if tag == 1 {
        Message::AnswerLeader { id }
    } else if tag == 2 {
        Message::CallElection { id }
    } else {
        Message::AnswerElection { id }
    }
}

/// The datagram of a message: its tag, then the identity it carries.
pub open spec fn wire_form(m: Message) -> Seq<u8> {
    match m.spec_carried() {
        None => u32_le(m.spec_tag()),
        Some(id) => u32_le(m.spec_tag()) + u64_le(id),
    }
}

/// What a datagram says: the message it opens with, or why it holds none.
pub open spec fn parse(bytes: Seq<u8>) -> Result<Message, DecodeFault> {
    if bytes.len() < 4 {
        Err(DecodeFault::Truncated)
    } else {
        let tag = u32_from_le(bytes);
        if tag == 0 {
            Ok(Message::FindLeader)
        } else if tag > 3 {
            Err(DecodeFault::UnknownTag { tag })
        } else if bytes.len() < 12 {
            Err(DecodeFault::Truncated)
        } else {
            Ok(assemble(tag, u64_from_le(bytes.skip(4))))
        }
    }
}

/// What a datagram says to a receiver whose buffer holds `capacity` bytes: a
/// longer datagram is a fault, whatever it holds.
pub open spec fn parse_within(bytes: Seq<u8>, capacity: usize) -> Result<Message, DecodeFault> {
    if bytes.len() > capacity {
        Err(DecodeFault::Oversized)
    } else {
        parse(bytes)
    }
}

/// Writes a message as a datagram.
pub fn encode(m: Message) -> (bytes: Vec<u8>)
    ensures
        bytes@ == wire_form(m),
{
    let mut bytes: Vec<u8> = Vec::new();
    put_u32(&mut bytes, m.tag());
    match m.carried() {
        None => {},
        Some(id) => put_u64(&mut bytes, id),
    }
    bytes
}

/// Reads the message that a datagram opens with.
pub fn decode(bytes: &[u8]) -> (r: Result<Message, DecodeFault>)
    ensures
        r == parse(bytes@),
{
    match take_u32(bytes) {
        None => Err(DecodeFault::Truncated),
        Some(tag) => {
            if tag == 0 {
                Ok(Message::FindLeader)
            } else if tag > 3 {
                Err(DecodeFault::UnknownTag { tag })
            } else {
                let body = slice_subrange(bytes, 4, bytes.len());
                match take_u64(body) {
                    None => Err(DecodeFault::Truncated),
                    Some(id) => {
                        if tag == 1 {
                            Ok(Message::AnswerLeader { id })
                        } else if tag == 2 {
                            Ok(Message::CallElection { id })
                        } else {
                            Ok(Message::AnswerElection { id })
                        }
                    },
                }
            }
        },
    }
}

/// Reads a datagram as a receiver does whose buffer holds `capacity` bytes.
pub fn decode_within(bytes: &[u8], capacity: usize) -> (r: Result<Message, DecodeFault>)
    ensures
        r == parse_within(bytes@, capacity),
{
    if bytes.len() > capacity {
        Err(DecodeFault::Oversized)
    } else {
        decode(bytes)
    }
}

/// Decoding inverts encoding: the datagram of a message, with or without bytes
/// after it, reads as that message.
pub proof fn decode_inverts_encode(m: Message, rest: Seq<u8>)
    ensures
        parse(wire_form(m)) == Ok::<Message, DecodeFault>(m),
        parse(wire_form(m) + rest) == Ok::<Message, DecodeFault>(m),
        wire_form(m).len() <= MAX_MESSAGE_LEN,
{
    let head = u32_le(m.spec_tag());
    match m.spec_carried() {
        None => {
            u32_read_inverts_write(m.spec_tag(), Seq::empty());
            u32_read_inverts_write(m.spec_tag(), rest);
            assert(head + Seq::<u8>::empty() =~= head);
        },
        Some(id) => {
            let tail = u64_le(id);
            u32_read_inverts_write(m.spec_tag(), tail);
            u32_read_inverts_write(m.spec_tag(), tail + rest);
            u64_read_inverts_write(id, Seq::empty());
            u64_read_inverts_write(id, rest);
            assert((head + tail) + rest =~= head + (tail + rest));
            assert((head + tail).skip(4) =~= tail + Seq::<u8>::empty());
            assert(((head + tail) + rest).skip(4) =~= tail + rest);
        },
    }
}

/// A datagram that was cut short is a fault: no proper prefix of the datagram
/// of a message reads as a message.
pub proof fn cut_datagram_is_truncated(m: Message, kept: nat)
    requires
        kept < wire_form(m).len(),
    ensures
        parse(wire_form(m).take(kept as int)) == Err::<Message, DecodeFault>(
            DecodeFault::Truncated,
        ),
{
    let whole = wire_form(m);
    let cut = whole.take(kept as int);
    if kept >= 4 {
        u32_read_inverts_write(m.spec_tag(), Seq::empty());
        let head = u32_le(m.spec_tag());
        assert(head + Seq::<u8>::empty() =~= head);
        assert(cut[0] == head[0] && cut[1] == head[1] && cut[2] == head[2] && cut[3] == head[3]);
        assert(u32_from_le(cut) == m.spec_tag());
    }
}

} // verus!
