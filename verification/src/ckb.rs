//! Calls into `ckb_types`: reading and writing its structures, and its hash.
use crate::bytes::decimal;
use crate::molecule::{
    header_vec_encoding, out_point_encoding, script_encodable, script_encoding,
    witness_encoding, ScriptModel,
};
use crate::types::{OutPoint, Script};
use ckb_types::error::VerificationError;
use ckb_types::packed;
use ckb_types::prelude::{Builder, Entity, Pack, Reader, Unpack};
use vstd::prelude::*;

verus! {

/// The hash that CKB takes of a byte string.
pub uninterp spec fn ckb_hash(data: Seq<u8>) -> Seq<u8>;

/// Reads a hash with `packed::Byte32::from_slice`. The claim: 32 bytes are
/// taken as they are, and any other number of bytes is refused.
#[verifier::external_body]
pub(crate) fn byte32_from_slice(data: &[u8]) -> (r: Option<[u8; 32]>)
    ensures
        match r {
            Some(hash) => hash@ == data@,
            None => data@.len() != 32,
        },
{
    packed::Byte32::from_slice(data).ok().map(|hash| hash.into())
}

/// The text that says that a hash has another number of bytes.
pub open spec fn size_text(expected: nat, actual: nat) -> Seq<char> {
    "Byte32Reader total size doesn't match, expect "@ + decimal(expected) + ", actual "@
        + decimal(actual)
}

/// Writes an error with `to_string` of molecule's `VerificationError`, as
/// `packed::Byte32::from_slice` returns it. The claim: the reader's name and the
/// two sizes in decimal, between fixed texts.
#[verifier::external_body]
pub(crate) fn size_error_text(expected: usize, actual: usize) -> (r: String)
    ensures
        r@ == size_text(expected as nat, actual as nat),
{
    let name = packed::Byte32Reader::NAME.to_owned();
    VerificationError::TotalSizeNotMatch(name, expected, actual).to_string()
}

/// Reads an out point with `packed::OutPoint::from_slice`. The claim: the
/// result is the out point with this byte form, and only a number of bytes
/// other than 36 is refused.
#[verifier::external_body]
pub(crate) fn out_point_from_slice(data: &[u8]) -> (r: Option<OutPoint>)
    ensures
        match r {
            Some(out_point) => out_point_encoding(out_point@) == data@,
            None => data@.len() != 36,
        },
{
    packed::OutPoint::from_slice(data).ok().map(
        |p| OutPoint { tx_hash: p.tx_hash().into(), index: p.index().unpack() },
    )
}

/// Writes an out point with `packed::OutPoint::as_bytes`. The claim: its hash,
/// then its index in four bytes, the lowest first.
#[verifier::external_body]
pub(crate) fn out_point_bytes(out_point: &OutPoint) -> (r: Vec<u8>)
    ensures
        r@ == out_point_encoding(out_point@),
{
    let packed = packed::OutPoint::new_builder().tx_hash(out_point.tx_hash.pack()).index(
        out_point.index,
    ).build();
    packed.as_bytes().to_vec()
}

/// Reads a script with `packed::Script::from_slice`. The claim: the result is
/// the script with this byte form, and only bytes that are the byte form of no
/// script are refused.
#[verifier::external_body]
pub(crate) fn script_from_slice(data: &[u8]) -> (r: Option<Script>)
    ensures
        match r {
            Some(script) => script_encodable(script@) && script_encoding(script@) == data@,
            None => forall|s: ScriptModel|
                script_encodable(s) ==> #[trigger] script_encoding(s) != data@,
        },
{
    packed::Script::from_slice(data).ok().map(
        |s|
            Script {
                code_hash: s.code_hash().into(),
                hash_type: s.hash_type().into(),
                args: s.args().raw_data().to_vec(),
            },
    )
}

/// Writes a script with `packed::Script::as_bytes`. The claim: the size, where
/// the three fields start, the code hash, the hash type, and the arguments
/// after their length.
#[verifier::external_body]
pub(crate) fn script_bytes(script: &Script) -> (r: Vec<u8>)
    requires
        script_encodable(script@),
    ensures
        r@ == script_encoding(script@),
{
    let packed = packed::Script::new_builder().code_hash(script.code_hash.pack()).hash_type(
        packed::Byte::new(script.hash_type),
    ).args(script.args.as_slice().pack()).build();
    packed.as_bytes().to_vec()
}

/// Hashes a script with `packed::Script::calc_script_hash`. The claim: the
/// result is the hash that CKB takes of the script's byte form.
#[verifier::external_body]
pub(crate) fn script_hash(script: &Script) -> (r: [u8; 32])
    requires
        script_encodable(script@),
    ensures
        r@ == ckb_hash(script_encoding(script@)),
{
    let packed = packed::Script::new_builder().code_hash(script.code_hash.pack()).hash_type(
        packed::Byte::new(script.hash_type),
    ).args(script.args.as_slice().pack()).build();
    packed.calc_script_hash().into()
}

/// Writes witness arguments with `packed::WitnessArgs::as_bytes`. The claim:
/// the size, where the three fields start, and the one field that is set, the
/// input's type arguments, after its length.
#[verifier::external_body]
pub(crate) fn witness_args_bytes(input_type: &[u8]) -> (r: Vec<u8>)
    requires
        20 + input_type@.len() <= u32::MAX,
    ensures
        r@ == witness_encoding(input_type@),
{
    let input_type: packed::Bytes = input_type.pack();
    let packed = packed::WitnessArgs::new_builder().input_type(Some(input_type)).build();
    packed.as_bytes().to_vec()
}

/// Writes headers with `packed::HeaderVec::as_slice`. The claim: how many there
/// are, in four bytes, then each header as it is.
#[verifier::external_body]
pub(crate) fn header_vec_bytes(headers: &Vec<[u8; 208]>) -> (r: Vec<u8>)
    requires
        headers@.len() <= u32::MAX,
    ensures
        r@ == header_vec_encoding(headers@.map_values(|h: [u8; 208]| h@)),
{
    let packed = headers.iter().map(
        |h| packed::Header::new_unchecked(h.to_vec().into()),
    ).collect();
    packed::HeaderVec::new_builder().set(packed).build().as_slice().to_vec()
}

} // verus!
