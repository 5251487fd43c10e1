//! One connection to the feed, without its socket.
//!
//! The embedding program owns the socket. It asks here which headers to
//! send when it opens the connection, whether the feed's answer is for
//! the right chain, and, frame by frame, what to do with what it read.

use vstd::prelude::*;
use crate::errors::{ConnectionUpdate, RelayError};

verus! {

/// Whether `byte` is an ASCII digit.
pub open spec fn is_digit(byte: u8) -> bool {
    0x30 <= byte <= 0x39
}

/// The number that a string of decimal digits stands for. A byte that
/// is no digit counts as zero.
pub open spec fn decimal_value(digits: Seq<u8>) -> nat
    decreases digits.len(),
{
    if digits.len() == 0 {
        0
    } else {
        decimal_value(digits.drop_last()) * 10 + if is_digit(digits.last()) {
            (digits.last() - 0x30) as nat
        } else {
            0
        }
    }
}

/// `text` without the plus sign it may begin with.
pub open spec fn unsigned_part(text: Seq<u8>) -> Seq<u8> {
    if text.len() > 0 && text[0] == 0x2b {
        text.skip(1)
    } else {
        text
    }
}

/// The number that `text` spells as an unsigned decimal of 64 bits: an
/// optional plus sign, then one or more digits and nothing else, the
/// number no greater than `u64::MAX`.
pub open spec fn parsed_u64(text: Seq<u8>) -> Option<u64> {
    let digits = unsigned_part(text);
    if digits.len() > 0 && (forall|i: int| 0 <= i < digits.len() ==> is_digit(#[trigger] digits[i]))
        && decimal_value(digits) <= u64::MAX {
        Some(decimal_value(digits) as u64)
    } else {
        None
    }
}

/// More digits never spell a smaller number.
pub proof fn lemma_decimal_value_prefix(digits: Seq<u8>, n: int)
    requires
        0 <= n <= digits.len(),
    ensures
        decimal_value(digits.take(n)) <= decimal_value(digits),
    decreases digits.len(),
{
    if n == digits.len() {
        assert(digits.take(n) =~= digits);
    } else {
        lemma_decimal_value_prefix(digits.drop_last(), n);
        assert(digits.drop_last().take(n) =~= digits.take(n));
    }
}

/// Reads an unsigned decimal number of 64 bits.
pub fn parse_u64(text: &[u8]) -> (r: Option<u64>)
    ensures
        r == parsed_u64(text@),
{
    let start: usize = if text.len() > 0 && text[0] == 0x2b {
        1
    } else {
        0
    };
    if start >= text.len() {
        return None;
    }
    let ghost digits = unsigned_part(text@);
    let mut value: u64 = 0;
    let mut i: usize = start;
    assert(digits.take(0) =~= Seq::<u8>::empty());
    assert(digits =~= text@.skip(start as int));
    while i < text.len()
        invariant
            start <= i <= text.len(),
            digits == unsigned_part(text@),
            digits == text@.skip(start as int),
            forall|j: int| 0 <= j < i - start ==> is_digit(#[trigger] digits[j]),
            value == decimal_value(digits.take(i - start)),
        decreases text.len() - i,
    {
        let byte = text[i];
        assert(digits[i - start] == byte);
        if byte < 0x30 || byte > 0x39 {
            assert(!is_digit(digits[i - start]));
            return None;
        }
        let digit = (byte - 0x30) as u64;
        proof {
            let longer = digits.take(i - start + 1);
            assert(longer.drop_last() =~= digits.take(i - start));
            assert(longer.last() == byte);
            assert(decimal_value(longer) == value * 10 + digit);
            lemma_decimal_value_prefix(digits, i - start + 1);
        }
        if value > (u64::MAX - digit) / 10 {
            assert(decimal_value(digits) > u64::MAX);
            return None;
        }
        value = value * 10 + digit;
        i = i + 1;
    }
    assert(digits.take(i - start) =~= digits);
    Some(value)
}

/// The headers of the request that opens a feed connection to `host`
/// with the websocket key `key`, in the order they are sent.
pub open spec fn handshake_headers(host: Seq<char>, key: Seq<char>) -> Seq<(Seq<char>, Seq<char>)> {
    seq![
        ("Host"@, host),
        ("Connection"@, "Upgrade"@),
        ("Upgrade"@, "websocket"@),
        ("Sec-WebSocket-Version"@, "13"@),
        ("Sec-WebSocket-Key"@, key),
        ("Arbitrum-Feed-Client-Version"@, "2"@),
        ("Arbitrum-Requested-Sequence-number"@, "0"@),
    ]
}

/// Headers as pairs of texts.
pub open spec fn header_views(headers: Seq<(String, String)>) -> Seq<(Seq<char>, Seq<char>)> {
    Seq::new(headers.len(), |i: int| (headers[i].0@, headers[i].1@))
}

/// Whether a feed that answered with this `arbitrum-chain-id` header
/// serves the chain `chain_id`: the header is there and spells that
/// number.
pub open spec fn serves_chain(header: Option<Seq<u8>>, chain_id: u64) -> bool {
    match header {
        Some(text) => parsed_u64(text) == Some(chain_id),
        None => false,
    }
}

/// What the embedding program found when it read from the socket.
#[derive(Debug, Clone, Copy, PartialEq, Eq)]
pub enum Incoming {
    /// A frame that holds a feed envelope.
    Envelope,
    /// A frame that holds something else.
    Malformed,
    /// The transport failed.
    Failed,
    /// The stream ended.
    Closed,
}

/// What to do with what was read.
#[derive(Debug, Clone, Copy, PartialEq, Eq)]
pub enum ReaderStep {
    /// Hand the envelope to the consumer, report with
    /// [`RelayClient::delivered`] whether it was taken, and read on.
    Forward,
    /// Drop the frame and read on.
    Skip,
    /// Send this notice to the pool and stop reading.
    Notify(ConnectionUpdate),
    /// Stop reading.
    Stop,
}

/// A feed connection that was opened and found to serve the right
/// chain. It reads until it stops, and never starts again.
#[derive(Debug)]
pub struct RelayClient {
    id: u32,
    stopped: bool,
}

impl RelayClient {
    /// The connection's id in its pool.
    pub closed spec fn spec_id(&self) -> u32 {
        self.id
    }

    /// Whether the connection has stopped reading.
    pub closed spec fn spec_stopped(&self) -> bool {
        self.stopped
    }

    /// What [`RelayClient::step`] answers in this state.
    pub open spec fn answer(&self, incoming: Incoming) -> ReaderStep {
        if self.spec_stopped() {
            ReaderStep::Stop
        } else {
            match incoming {
                Incoming::Envelope => ReaderStep::Forward,
                Incoming::Malformed => ReaderStep::Skip,
                Incoming::Failed => ReaderStep::Notify(
                    ConnectionUpdate::StoppedSendingFrames(self.spec_id()),
                ),
                Incoming::Closed => ReaderStep::Stop,
            }
        }
    }

    /// The headers to open a feed connection with. Fails, with the
    /// message "Invalid URL", exactly when the feed address names no host.
    pub fn handshake(host: Option<&str>, key: &str) -> (r: Result<Vec<(String, String)>, RelayError>)
        ensures
            match r {
                Ok(headers) => host is Some && header_views(headers@) == handshake_headers(
                    host.unwrap()@,
                    key@,
                ),
                Err(e) => {
                    &&& host is None
                    &&& e matches RelayError::Msg(words) && words@ == "Invalid URL"@
                },
            },
    {
        let host = match host {
            Some(name) => name,
            None => {
                return Err(RelayError::Msg("Invalid URL".to_owned()));
            },
        };
        let mut headers: Vec<(String, String)> = Vec::new();
        headers.push(("Host".to_owned(), host.to_owned()));
        headers.push(("Connection".to_owned(), "Upgrade".to_owned()));
        headers.push(("Upgrade".to_owned(), "websocket".to_owned()));
        headers.push(("Sec-WebSocket-Version".to_owned(), "13".to_owned()));
        headers.push(("Sec-WebSocket-Key".to_owned(), key.to_owned()));
        headers.push(("Arbitrum-Feed-Client-Version".to_owned(), "2".to_owned()));
        headers.push(("Arbitrum-Requested-Sequence-number".to_owned(), "0".to_owned()));
        assert(header_views(headers@) =~= handshake_headers(host@, key@));
        Ok(headers)
    }

    /// The connection with id `id`, once the feed has answered the
    /// handshake. `chain_header` is the `arbitrum-chain-id` header of
    /// the answer, if it has one. Fails exactly when the feed does not
    /// serve the chain `chain_id`.
    pub fn new(chain_id: u64, id: u32, chain_header: Option<&[u8]>) -> (r: Result<Self, RelayError>)
        ensures
            match r {
                Ok(client) => {
                    &&& serves_chain(
                        match chain_header {
                            Some(text) => Some(text@),
                            None => None,
                        },
                        chain_id,
                    )
                    &&& client.spec_id() == id
                    &&& !client.spec_stopped()
                },
                Err(e) => {
                    &&& !serves_chain(
                        match chain_header {
                            Some(text) => Some(text@),
                            None => None,
                        },
                        chain_id,
                    )
                    &&& e is InvalidChainId
                },
            },
    {
        let served = match chain_header {
            Some(text) => parse_u64(text),
            None => None,
        };
        match served {
            Some(found) => {
                if found == chain_id {
                    Ok(RelayClient { id, stopped: false })
                } else {
                    Err(RelayError::InvalidChainId)
                }
            },
            None => Err(RelayError::InvalidChainId),
        }
    }

    /// The connection's id in its pool.
    pub fn id(&self) -> (id: u32)
        ensures
            id == self.spec_id(),
    {
        self.id
    }

    /// Whether the connection has stopped reading.
    pub fn is_stopped(&self) -> (stopped: bool)
        ensures
            stopped == self.spec_stopped(),
    {
        self.stopped
    }

    /// Decides what to do with what was read. An envelope is forwarded
    /// and a frame that holds none is skipped; a failure of the
    /// transport is told to the pool, once, and ends the reading, as
    /// does the end of the stream. A connection that has stopped
    /// answers [`ReaderStep::Stop`] to everything.
    pub fn step(&mut self, incoming: Incoming) -> (r: ReaderStep)
        ensures
            r == old(self).answer(incoming),
            final(self).spec_id() == old(self).spec_id(),
            final(self).spec_stopped() == (old(self).spec_stopped() || incoming is Failed
                || incoming is Closed),
    {
        if self.stopped {
            return ReaderStep::Stop;
        }
        match incoming {
            Incoming::Envelope => ReaderStep::Forward,
            Incoming::Malformed => ReaderStep::Skip,
            Incoming::Failed => {
                self.stopped = true;
                ReaderStep::Notify(ConnectionUpdate::StoppedSendingFrames(self.id))
            },
            Incoming::Closed => {
                self.stopped = true;
                ReaderStep::Stop
            },
        }
    }

    /// Records whether the consumer took the envelope that was
    /// forwarded. A consumer that is gone ends the reading, without a
    /// notice to the pool.
    pub fn delivered(&mut self, taken: bool)
        ensures
            final(self).spec_id() == old(self).spec_id(),
            final(self).spec_stopped() == (old(self).spec_stopped() || !taken),
    {
        if !taken {
            self.stopped = true;
        }
    }
}

/// A connection tells the pool of its failure at most once: after the
/// step that answers with a notice, every step answers
/// [`ReaderStep::Stop`].
pub proof fn lemma_notice_is_last(before: RelayClient, after: RelayClient, incoming: Incoming)
    requires
        before.answer(incoming) is Notify,
        after.spec_stopped() == (before.spec_stopped() || incoming is Failed || incoming is Closed),
    ensures
        incoming is Failed,
        !before.spec_stopped(),
        before.answer(incoming) == ReaderStep::Notify(
            ConnectionUpdate::StoppedSendingFrames(before.spec_id()),
        ),
        forall|next: Incoming| after.answer(next) == ReaderStep::Stop,
{
}

} // verus!
