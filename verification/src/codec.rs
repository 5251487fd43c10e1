//! The two encodings that a feed message is wrapped in, base64 and RLP,
//! as the `base64`, `rlp` and `ethereum-types` crates read them.
//!
//! Nothing here is proved. Each function makes one call into those
//! crates, and its contract is what the rest of the crate believes of
//! that call. Where the outcome takes more than a line to state it is
//! only given a name, which claims no more than that the same bytes give
//! the same outcome.

use vstd::prelude::*;

verus! {

/// The bytes that `base64::decode` reads out of `text`, or `None` where
/// it refuses `text`.
pub uninterp spec fn base64_decoded(text: Seq<u8>) -> Option<Seq<u8>>;

/// The encoding of item `index` of the RLP list that `data` begins
/// with, header included, as `rlp::Rlp::at` finds it; `None` where
/// `data` does not begin with a list or the list has no such item.
pub uninterp spec fn rlp_item_at(data: Seq<u8>, index: nat) -> Option<Seq<u8>>;

/// The 20 bytes that the RLP item `item` holds, as the decoder of
/// `ethereum_types::H160` reads them; `None` where it refuses `item`.
pub uninterp spec fn rlp_address(item: Seq<u8>) -> Option<Seq<u8>>;

/// The four 64-bit limbs, least significant first, of the number that
/// the RLP item `item` holds, as the decoder of `ethereum_types::U256`
/// reads it; `None` where it refuses `item`.
pub uninterp spec fn rlp_uint(item: Seq<u8>) -> Option<Seq<u64>>;

/// The byte string that the RLP item `item` holds, as the decoder of
/// `Vec<u8>` in `rlp` reads it; `None` where it refuses `item`.
pub uninterp spec fn rlp_bytes(item: Seq<u8>) -> Option<Seq<u8>>;

/// What `rlp::Rlp::is_empty` answers for an item with these bytes:
/// whether they begin with the encoding of the empty byte string or of
/// the empty list. It looks at the first byte alone.
pub open spec fn rlp_is_empty(item: Seq<u8>) -> bool {
    item.len() > 0 && (item[0] == 0xc0 || item[0] == 0x80)
}

/// What `rlp::Rlp::is_data` answers for an item with these bytes:
/// whether they begin as a byte string does, not as a list. It looks at
/// the first byte alone.
pub open spec fn rlp_is_data(item: Seq<u8>) -> bool {
    item.len() > 0 && item[0] < 0xc0
}

/// Calls `base64::decode`, which reads the standard alphabet with
/// padding. Trusted: the outcome is the one named [`base64_decoded`].
#[verifier::external_body]
#[allow(deprecated)]
pub(crate) fn base64_decode(text: &[u8]) -> (r: Option<Vec<u8>>)
    ensures
        match r {
            Some(bytes) => base64_decoded(text@) == Some(bytes@),
            None => base64_decoded(text@).is_none(),
        },
{
    base64::decode(text).ok()
}

/// Calls `rlp::Rlp::at` on `data` and copies the item it finds.
/// Trusted: the outcome is the one named [`rlp_item_at`].
#[verifier::external_body]
pub(crate) fn list_item(data: &[u8], index: usize) -> (r: Option<Vec<u8>>)
    ensures
        match r {
            Some(item) => rlp_item_at(data@, index as nat) == Some(item@),
            None => rlp_item_at(data@, index as nat).is_none(),
        },
{
    rlp::Rlp::new(data).at(index).ok().map(|item| item.as_raw().to_vec())
}

/// Calls `rlp::Rlp::is_empty` on `item`. Trusted: the answer is the one
/// that [`rlp_is_empty`] states.
#[verifier::external_body]
pub(crate) fn item_is_empty(item: &[u8]) -> (r: bool)
    ensures
        r == rlp_is_empty(item@),
{
    rlp::Rlp::new(item).is_empty()
}

/// Calls `rlp::Rlp::is_data` on `item`. Trusted: the answer is the one
/// that [`rlp_is_data`] states.
#[verifier::external_body]
pub(crate) fn item_is_data(item: &[u8]) -> (r: bool)
    ensures
        r == rlp_is_data(item@),
{
    rlp::Rlp::new(item).is_data()
}

/// Calls `rlp::Rlp::as_val` for an `ethereum_types::H160` on `item`.
/// Trusted: the outcome is the one named [`rlp_address`].
#[verifier::external_body]
pub(crate) fn item_address(item: &[u8]) -> (r: Option<[u8; 20]>)
    ensures
        match r {
            Some(bytes) => rlp_address(item@) == Some(bytes@),
            None => rlp_address(item@).is_none(),
        },
{
    rlp::Rlp::new(item).as_val::<ethereum_types::H160>().ok().map(|address| address.0)
}

/// Calls `rlp::Rlp::as_val` for an `ethereum_types::U256` on `item`.
/// Trusted: the outcome is the one named [`rlp_uint`].
#[verifier::external_body]
pub(crate) fn item_uint(item: &[u8]) -> (r: Option<[u64; 4]>)
    ensures
        match r {
            Some(limbs) => rlp_uint(item@) == Some(limbs@),
            None => rlp_uint(item@).is_none(),
        },
{
    rlp::Rlp::new(item).as_val::<ethereum_types::U256>().ok().map(|number| number.0)
}

/// Calls `rlp::Rlp::as_val` for a `Vec<u8>` on `item`. Trusted: the
/// outcome is the one named [`rlp_bytes`].
#[verifier::external_body]
pub(crate) fn item_bytes(item: &[u8]) -> (r: Option<Vec<u8>>)
    ensures
        match r {
            Some(bytes) => rlp_bytes(item@) == Some(bytes@),
            None => rlp_bytes(item@).is_none(),
        },
{
    rlp::Rlp::new(item).as_val::<Vec<u8>>().ok()
}

} // verus!
