//! The decoder of feed messages.
//!
//! A message for the rollup, one whose header has `kind` equal to 3,
//! carries in base64 one byte that names a batch format and then a
//! transaction. Format 4 is a single signed
//! transaction: a legacy one starts with its RLP list, the typed ones
//! (access-list and dynamic-fee) start with their type byte. All three
//! hold destination, value and call data next to each other; only the
//! number of fields in front differs, and that number is the offset.

use vstd::prelude::*;
use vstd::slice::slice_subrange;
use vstd::utf8::encode_utf8;
use crate::codec::{
    base64_decode, base64_decoded, item_address, item_bytes, item_is_data, item_is_empty,
    item_uint, list_item, rlp_address, rlp_bytes, rlp_is_data, rlp_is_empty, rlp_item_at,
    rlp_uint,
};
use crate::types::L1IncomingMessageHeader;

verus! {

/// The most bytes a decoded payload may have.
pub const MAX_L2_MESSAGE_SIZE: usize = 262144;

/// The kind of a message for the rollup.
pub const L1_MESSAGE_TYPE_L2_MESSAGE: i64 = 3;

/// The batch format of a single signed transaction.
pub const L2_MESSAGE_KIND_SIGNED_TX: u8 = 4;

/// The type byte of an access-list transaction.
pub const TX_TYPE_ACCESS_LIST: u8 = 1;

/// The type byte of a dynamic-fee transaction.
pub const TX_TYPE_DYNAMIC_FEE: u8 = 2;

/// The address of an account: 20 bytes.
#[derive(Debug, Clone, Copy, PartialEq, Eq)]
pub struct Address {
    /// The bytes, in the order they are written.
    pub bytes: [u8; 20],
}

impl View for Address {
    type V = Seq<u8>;

    open spec fn view(&self) -> Seq<u8> {
        self.bytes@
    }
}

/// An unsigned number of 256 bits.
#[derive(Debug, Clone, Copy, PartialEq, Eq)]
pub struct Uint256 {
    /// Four limbs of 64 bits, the least significant first.
    pub limbs: [u64; 4],
}

impl View for Uint256 {
    type V = Seq<u64>;

    open spec fn view(&self) -> Seq<u64> {
        self.limbs@
    }
}

/// Where a transaction goes.
#[derive(Debug, Clone, Copy, PartialEq, Eq)]
pub enum Action {
    /// Nowhere: the transaction creates a contract.
    Create,
    /// To the account at this address.
    Call(Address),
}

impl View for Action {
    type V = Option<Seq<u8>>;

    open spec fn view(&self) -> Option<Seq<u8>> {
        match self {
            Action::Create => None,
            Action::Call(address) => Some(address@),
        }
    }
}

/// Why an RLP item is no destination.
#[derive(Debug, Clone, Copy, PartialEq, Eq)]
pub enum ActionError {
    /// The item is the empty list, where a byte string was expected.
    ExpectedData,
    /// The item is not empty and does not hold an address.
    InvalidAddress,
}

/// A decoded transaction, as mathematics.
pub struct TransactionView {
    /// The 20 bytes of the destination, or `None` for a creation.
    pub destination: Option<Seq<u8>>,
    /// The limbs of the value, the least significant first.
    pub value: Seq<u64>,
    /// The call data.
    pub payload: Seq<u8>,
}

/// The model of a decoded transaction.
pub open spec fn transaction_view(tx: (Action, Uint256, Vec<u8>)) -> TransactionView {
    TransactionView { destination: tx.0@, value: tx.1@, payload: tx.2@ }
}

/// Whether `result` is what decoding gave if decoding is `expected`.
pub open spec fn shows(
    result: Option<(Action, Uint256, Vec<u8>)>,
    expected: Option<TransactionView>,
) -> bool {
    match result {
        Some(tx) => expected == Some(transaction_view(tx)),
        None => expected is None,
    }
}

/// The destination that the RLP item `item` stands for: a creation for
/// the empty byte string, the address for any other item that holds
/// one.
pub open spec fn decoded_action(item: Seq<u8>) -> Result<Option<Seq<u8>>, ActionError> {
    if rlp_is_empty(item) {
        if rlp_is_data(item) {
            Ok(None)
        } else {
            Err(ActionError::ExpectedData)
        }
    } else {
        match rlp_address(item) {
            Some(address) => Ok(Some(address)),
            None => Err(ActionError::InvalidAddress),
        }
    }
}

/// The destination at `index` of the RLP list in `list`.
pub open spec fn destination_at(list: Seq<u8>, index: nat) -> Option<Option<Seq<u8>>> {
    match rlp_item_at(list, index) {
        Some(item) => match decoded_action(item) {
            Ok(destination) => Some(destination),
            Err(_) => None,
        },
        None => None,
    }
}

/// The number at `index` of the RLP list in `list`.
pub open spec fn uint_at(list: Seq<u8>, index: nat) -> Option<Seq<u64>> {
    match rlp_item_at(list, index) {
        Some(item) => rlp_uint(item),
        None => None,
    }
}

/// The byte string at `index` of the RLP list in `list`.
pub open spec fn bytes_at(list: Seq<u8>, index: nat) -> Option<Seq<u8>> {
    match rlp_item_at(list, index) {
        Some(item) => rlp_bytes(item),
        None => None,
    }
}

/// The transaction in the RLP list `list` whose shared fields begin
/// `offset` places late: destination, value and call data are the
/// fields 3, 4 and 5 after the offset. `None` if any of them is missing
/// or of the wrong shape.
pub open spec fn decoded_fields(list: Seq<u8>, offset: nat) -> Option<TransactionView> {
    match (destination_at(list, offset + 3), uint_at(list, offset + 4), bytes_at(list, offset + 5)) {
        (Some(destination), Some(value), Some(payload)) => Some(
            TransactionView { destination, value, payload },
        ),
        _ => None,
    }
}

/// Where the RLP list begins in a payload and how far its shared
/// fields are shifted, by the payload's first two bytes.
pub open spec fn envelope_layout(data: Seq<u8>) -> Option<(nat, nat)> {
    if data.len() < 2 || data[0] != L2_MESSAGE_KIND_SIGNED_TX {
        None
    } else if data[1] > 0x7f {
        Some((1, 0))
    } else if data[1] == TX_TYPE_ACCESS_LIST {
        Some((2, 1))
    } else if data[1] == TX_TYPE_DYNAMIC_FEE {
        Some((2, 2))
    } else {
        None
    }
}

/// The transaction in a payload, once the base64 is gone.
pub open spec fn decoded_payload(data: Seq<u8>) -> Option<TransactionView> {
    match envelope_layout(data) {
        Some((start, offset)) => decoded_fields(data.skip(start as int), offset),
        None => None,
    }
}

/// The transaction in a message of kind `kind` whose payload is the
/// base64 text `text`.
pub open spec fn decoded_message(kind: i64, text: Seq<u8>) -> Option<TransactionView> {
    if kind != L1_MESSAGE_TYPE_L2_MESSAGE {
        None
    } else {
        match base64_decoded(text) {
            Some(data) => if data.len() > MAX_L2_MESSAGE_SIZE {
                None
            } else {
                decoded_payload(data)
            },
            None => None,
        }
    }
}

impl Action {
    /// Reads a destination out of one RLP item.
    pub fn decode(item: &[u8]) -> (r: Result<Action, ActionError>)
        ensures
            match r {
                Ok(action) => decoded_action(item@) == Ok::<_, ActionError>(action@),
                Err(e) => decoded_action(item@) == Err::<Option<Seq<u8>>, _>(e),
            },
    {
        if item_is_empty(item) {
            if item_is_data(item) {
                Ok(Action::Create)
            } else {
                Err(ActionError::ExpectedData)
            }
        } else {
            match item_address(item) {
                Some(bytes) => Ok(Action::Call(Address { bytes })),
                None => Err(ActionError::InvalidAddress),
            }
        }
    }
}

/// Tells from the first two bytes of a payload where its RLP list
/// begins and how far the shared fields are shifted.
pub fn layout_of(data: &[u8]) -> (r: Option<(usize, usize)>)
    ensures
        match r {
            Some((start, offset)) => envelope_layout(data@) == Some((start as nat, offset as nat)),
            None => envelope_layout(data@) is None,
        },
{
    if data.len() < 2 || data[0] != L2_MESSAGE_KIND_SIGNED_TX {
        return None;
    }
    let leading = data[1];
    if leading > 0x7f {
        Some((1, 0))
    } else if leading == TX_TYPE_ACCESS_LIST {
        Some((2, 1))
    } else if leading == TX_TYPE_DYNAMIC_FEE {
        Some((2, 2))
    } else {
        None
    }
}

impl L1IncomingMessageHeader {
    /// The transaction that the message carries, as mathematics.
    pub open spec fn spec_decode(&self) -> Option<TransactionView> {
        decoded_message(self.header.kind, encode_utf8(self.l2msg@))
    }

    /// Decodes the transaction that the message carries: its
    /// destination, its value and its call data. `None` for a message
    /// of another kind, a payload that is not base64 or decodes to more
    /// than [`MAX_L2_MESSAGE_SIZE`] bytes, another batch format, an
    /// unknown transaction type, and RLP that does not hold the three
    /// fields.
    pub fn decode(&self) -> (r: Option<(Action, Uint256, Vec<u8>)>)
        ensures
            shows(r, self.spec_decode()),
    {
        if self.header.kind != L1_MESSAGE_TYPE_L2_MESSAGE {
            return None;
        }
        match base64_decode(self.l2msg.as_str().as_bytes()) {
            Some(data) => {
                if data.len() > MAX_L2_MESSAGE_SIZE {
                    None
                } else {
                    Self::parse_l2_message(data.as_slice())
                }
            },
            None => None,
        }
    }

    /// Decodes the transaction in a payload, once the base64 is gone.
    pub fn parse_l2_message(data: &[u8]) -> (r: Option<(Action, Uint256, Vec<u8>)>)
        ensures
            shows(r, decoded_payload(data@)),
    {
        match layout_of(data) {
            Some((start, offset)) => {
                let list = slice_subrange(data, start, data.len());
                Self::parse_single_tx(list, offset)
            },
            None => None,
        }
    }

    /// Reads destination, value and call data out of the RLP list in
    /// `list`, whose shared fields begin `offset` places late.
    pub fn parse_single_tx(list: &[u8], offset: usize) -> (r: Option<(Action, Uint256, Vec<u8>)>)
        requires
            offset + 5 <= usize::MAX,
        ensures
            shows(r, decoded_fields(list@, offset as nat)),
    {
        let destination = match list_item(list, offset + 3) {
            Some(item) => match Action::decode(item.as_slice()) {
                Ok(action) => action,
                Err(_) => {
                    return None;
                },
            },
            None => {
                return None;
            },
        };
        let value = match list_item(list, offset + 4) {
            Some(item) => match item_uint(item.as_slice()) {
                Some(limbs) => Uint256 { limbs },
                None => {
                    return None;
                },
            },
            None => {
                return None;
            },
        };
        let payload = match list_item(list, offset + 5) {
            Some(item) => match item_bytes(item.as_slice()) {
                Some(bytes) => bytes,
                None => {
                    return None;
                },
            },
            None => {
                return None;
            },
        };
        Some((destination, value, payload))
    }
}

/// Each of the three transaction formats is read at its own offset: a
/// legacy transaction, whose list begins at the leading byte, at offset
/// 0; an access-list transaction at offset 1 and a dynamic-fee
/// transaction at offset 2, their lists beginning after the type byte.
/// In each, destination, value and call data are the fields 3, 4 and 5
/// after the offset.
pub proof fn lemma_fields_by_format(kind: i64, text: Seq<u8>, data: Seq<u8>)
    requires
        kind == L1_MESSAGE_TYPE_L2_MESSAGE,
        base64_decoded(text) == Some(data),
        2 <= data.len() <= MAX_L2_MESSAGE_SIZE,
        data[0] == L2_MESSAGE_KIND_SIGNED_TX,
    ensures
        data[1] > 0x7f ==> decoded_message(kind, text) == decoded_fields(data.skip(1), 0),
        data[1] == TX_TYPE_ACCESS_LIST ==> decoded_message(kind, text) == decoded_fields(
            data.skip(2),
            1,
        ),
        data[1] == TX_TYPE_DYNAMIC_FEE ==> decoded_message(kind, text) == decoded_fields(
            data.skip(2),
            2,
        ),
        forall|tx: TransactionView, offset: nat, list: Seq<u8>|
            decoded_fields(list, offset) == Some(tx) ==> {
                &&& destination_at(list, offset + 3) == Some(tx.destination)
                &&& uint_at(list, offset + 4) == Some(tx.value)
                &&& bytes_at(list, offset + 5) == Some(tx.payload)
            },
{
}

/// What is not a single signed transaction of a known format decodes to
/// nothing: a message of another kind, a payload that is not base64 or
/// is too long, another batch format, another leading byte, and a list
/// in which one of the three fields is missing or misshapen.
pub proof fn lemma_rejected(kind: i64, text: Seq<u8>)
    ensures
        kind != L1_MESSAGE_TYPE_L2_MESSAGE ==> decoded_message(kind, text) is None,
        base64_decoded(text) is None ==> decoded_message(kind, text) is None,
        base64_decoded(text) is Some ==> {
            let data = base64_decoded(text).unwrap();
            &&& data.len() > MAX_L2_MESSAGE_SIZE ==> decoded_message(kind, text) is None
            &&& data.len() < 2 ==> decoded_message(kind, text) is None
            &&& data.len() >= 2 && data[0] != L2_MESSAGE_KIND_SIGNED_TX ==> decoded_message(
                kind,
                text,
            ) is None
            &&& data.len() >= 2 && data[1] <= 0x7f && data[1] != TX_TYPE_ACCESS_LIST && data[1]
                != TX_TYPE_DYNAMIC_FEE ==> decoded_message(kind, text) is None
        },
        forall|list: Seq<u8>, offset: nat|
            (destination_at(list, offset + 3) is None || uint_at(list, offset + 4) is None
                || bytes_at(list, offset + 5) is None) ==> decoded_fields(list, offset) is None,
        forall|list: Seq<u8>, index: nat|
            rlp_item_at(list, index) is None ==> destination_at(list, index) is None && uint_at(
                list,
                index,
            ) is None && bytes_at(list, index) is None,
{
}

/// Decoding reads the kind and the payload and nothing else: messages
/// that agree in both carry the same transaction.
pub proof fn lemma_decode_reads_kind_and_payload(
    one: L1IncomingMessageHeader,
    other: L1IncomingMessageHeader,
)
    requires
        one.header.kind == other.header.kind,
        one.l2msg@ == other.l2msg@,
    ensures
        one.spec_decode() == other.spec_decode(),
{
}

/// Decoding is idempotent: two results of decoding one message are both
/// nothing or stand for the same transaction.
pub proof fn lemma_decode_idempotent(
    message: L1IncomingMessageHeader,
    first: Option<(Action, Uint256, Vec<u8>)>,
    second: Option<(Action, Uint256, Vec<u8>)>,
)
    requires
        shows(first, message.spec_decode()),
        shows(second, message.spec_decode()),
    ensures
        first is Some <==> second is Some,
        first is Some ==> transaction_view(first.unwrap()) == transaction_view(second.unwrap()),
{
}

} // verus!
