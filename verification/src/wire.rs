//! The wire identity of the charging extension: a fixed ASCII tag, and the
//! single compact-encoded tip amount, preserved bit-for-bit for
//! cross-implementation compatibility.  The SCALE compact codec itself is
//! the codec crate's work, called through trusted wrappers.

use vstd::prelude::*;
use crate::fee::ChargeTransactionPayment;

verus! {

/// The bytes the SCALE compact codec assigns to a value: a function of the
/// value alone, on every machine.
pub uninterp spec fn compact_encoding(v: u128) -> Seq<u8>;

/// Relies on `parity_scale_codec::Compact::<u128>`'s `Encode`
/// implementation: the encoding depends on the value alone.
#[verifier::external_body]
fn compact_encode_u128(v: u128) -> (r: Vec<u8>)
    ensures
        r@ == compact_encoding(v),
        r@.len() >= 1,
{
    parity_scale_codec::Encode::encode(&parity_scale_codec::Compact(v))
}

/// Relies on `parity_scale_codec::Compact::<u128>`'s `Decode`
/// implementation, through `decode_all`: decoding a whole encoding yields
/// the encoded value back.
#[verifier::external_body]
fn compact_decode_u128(bytes: &[u8]) -> (r: Option<u128>)
    ensures
        forall|v: u128| bytes@ == compact_encoding(v) ==> r == Some(v),
{
    match <parity_scale_codec::Compact<u128> as parity_scale_codec::DecodeAll>::decode_all(
        &mut &bytes[..],
    ) {
        Ok(c) => Some(c.0),
        Err(_) => None,
    }
}

impl ChargeTransactionPayment {
    /// The fixed ASCII tag identifying this extension on the wire.
    pub fn identifier() -> (r: &'static str)
        ensures
            r@ == "ChargeTransactionPayment"@,
    {
        "ChargeTransactionPayment"
    }

    /// The wire form of this extension: its tip, compact-encoded.
    pub fn encode(&self) -> (r: Vec<u8>)
        ensures
            r@ == compact_encoding(self.tip_spec()),
            r@.len() >= 1,
    {
        compact_encode_u128(self.tip())
    }

    /// Read an extension back from its wire form; inverts `encode`.
    pub fn decode(bytes: &[u8]) -> (r: Option<ChargeTransactionPayment>)
        ensures
            forall|tip: u128|
                bytes@ == compact_encoding(tip) ==> (r matches Some(c) && c.tip_spec() == tip),
    {
        match compact_decode_u128(bytes) {
            Some(v) => Some(ChargeTransactionPayment::from(v)),
            None => None,
        }
    }
}

} // verus!
