//! Recognises the WireGuard control messages (handshakes, cookie replies and keepalives) among
//! the messages that pass through the tunnel, for logging.

use vstd::prelude::*;

verus! {

pub const WG_HANDSHAKE_INITIATION_TYPE: u8 = 1;

pub const WG_HANDSHAKE_RESPONSE_TYPE: u8 = 2;

pub const WG_COOKIE_REPLY_TYPE: u8 = 3;

pub const WG_DATA_TYPE: u8 = 4;

/// Length of a data message without payload: a keepalive.
pub const WG_KEEPALIVE_LEN: usize = 32;

/// Whether a message was received from or sent to the relay.
#[derive(Clone, Copy, Debug)]
pub enum WgMessageDirection {
    Received,
    Sent,
}

/// The header fields of a WireGuard control message.
#[derive(Clone, Copy, Debug, Eq, PartialEq, Structural)]
pub enum WgControlMessageHeader {
    HandshakeInitiation { sender_index: u32 },
    HandshakeResponse { sender_index: u32, receiver_index: u32 },
    CookieReply { receiver_index: u32 },
    Keepalive { receiver_index: u32 },
}

/// The little-endian `u32` in the 4-byte word at index `word` of `message`.
pub open spec fn le_word(message: Seq<u8>, word: int) -> u32 {
    let b = 4 * word;
    (message[b] + 0x100 * message[b + 1] + 0x1_0000 * message[b + 2] + 0x100_0000 * message[b
        + 3]) as u32
}

/// The control message header in `message`: the type is the first byte, the indices are the
/// following whole little-endian words; a data message is a keepalive only when it is exactly
/// `WG_KEEPALIVE_LEN` bytes long. `None` for any other message, or one too short for its fields.
pub open spec fn parse_spec(message: Seq<u8>) -> Option<WgControlMessageHeader> {
    let words = message.len() / 4;
    if words < 1 {
        None
    } else if message[0] == WG_HANDSHAKE_INITIATION_TYPE {
        if words >= 2 {
            Some(WgControlMessageHeader::HandshakeInitiation { sender_index: le_word(message, 1) })
        } else {
            None
        }
    } else if message[0] == WG_HANDSHAKE_RESPONSE_TYPE {
        if words >= 3 {
            Some(
                WgControlMessageHeader::HandshakeResponse {
                    sender_index: le_word(message, 1),
                    receiver_index: le_word(message, 2),
                },
            )
        } else {
            None
        }
    } else if message[0] == WG_COOKIE_REPLY_TYPE {
        if words >= 2 {
            Some(WgControlMessageHeader::CookieReply { receiver_index: le_word(message, 1) })
        } else {
            None
        }
    } else if message[0] == WG_DATA_TYPE && message.len() == WG_KEEPALIVE_LEN {
        Some(WgControlMessageHeader::Keepalive { receiver_index: le_word(message, 1) })
    } else {
        None
    }
}

proof fn lemma_le_bytes(b0: u8, b1: u8, b2: u8, b3: u8)
    ensures
        ((b0 as u32) | ((b1 as u32) << 8u32) | ((b2 as u32) << 16u32) | ((b3 as u32) << 24u32))
            == (b0 + 0x100 * b1 + 0x1_0000 * b2 + 0x100_0000 * b3) as u32,
{
    assert(((b0 as u32) | ((b1 as u32) << 8u32) | ((b2 as u32) << 16u32) | ((b3 as u32) << 24u32))
        == (b0 + 0x100 * b1 + 0x1_0000 * b2 + 0x100_0000 * b3) as u32) by (bit_vector);
}

/// The little-endian `u32` in word `word` of `message`.
fn read_le_word(message: &[u8], word: usize) -> (r: u32)
    requires
        4 * word + 4 <= message@.len(),
    ensures
        r == le_word(message@, word as int),
{
    assert(message@.len() == message.len());
    let b = 4 * word;
    let (b0, b1, b2, b3) = (message[b], message[b + 1], message[b + 2], message[b + 3]);
    proof {
        lemma_le_bytes(b0, b1, b2, b3);
    }
    (b0 as u32) | ((b1 as u32) << 8u32) | ((b2 as u32) << 16u32) | ((b3 as u32) << 24u32)
}

impl WgControlMessageHeader {
    /// The control message header of the WireGuard message `wg_message`, if it is one.
    pub fn parse(wg_message: &[u8]) -> (r: Option<Self>)
        ensures
            r == parse_spec(wg_message@),
    {
        let words = wg_message.len() / 4;
        if words < 1 {
            return None;
        }
        let message_type = wg_message[0];
        if message_type == WG_HANDSHAKE_INITIATION_TYPE {
            if words >= 2 {
                Some(Self::HandshakeInitiation { sender_index: read_le_word(wg_message, 1) })
            } else {
                None
            }
        } else if message_type == WG_HANDSHAKE_RESPONSE_TYPE {
            if words >= 3 {
                let sender_index = read_le_word(wg_message, 1);
                let receiver_index = read_le_word(wg_message, 2);
                Some(Self::HandshakeResponse { sender_index, receiver_index })
            } else {
                None
            }
        } else if message_type == WG_COOKIE_REPLY_TYPE {
            if words >= 2 {
                Some(Self::CookieReply { receiver_index: read_le_word(wg_message, 1) })
            } else {
                None
            }
        } else if message_type == WG_DATA_TYPE && wg_message.len() == WG_KEEPALIVE_LEN {
            Some(Self::Keepalive { receiver_index: read_le_word(wg_message, 1) })
        } else {
            None
        }
    }
}

} // verus!
