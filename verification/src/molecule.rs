//! The byte forms of the CKB structures that the bridge handles.
use crate::bytes::{
    law_le_bytes_read_back, law_le_value_written_back, le_bytes, le_value, lemma_le_bytes_len,
    lemma_le_capacity_4, lemma_le_value_fits,
};
use vstd::prelude::*;

verus! {

/// What a script says: which code runs, how the code is found, on which
/// arguments.
#[verifier::ext_equal]
pub struct ScriptModel {
    pub code_hash: Seq<u8>,
    pub hash_type: u8,
    pub args: Seq<u8>,
}

/// Which output of which transaction is meant.
#[verifier::ext_equal]
pub struct OutPointModel {
    pub tx_hash: Seq<u8>,
    pub index: u32,
}

/// A script as bytes: the total size, where each field starts, the fields.
pub open spec fn script_encoding(s: ScriptModel) -> Seq<u8> {
    le_bytes((53 + s.args.len()) as nat, 4) + le_bytes(16, 4) + le_bytes(48, 4) + le_bytes(49, 4)
        + s.code_hash + seq![s.hash_type] + le_bytes(s.args.len(), 4) + s.args
}

/// Whether a script can be written as bytes.
pub open spec fn script_encodable(s: ScriptModel) -> bool {
    &&& s.code_hash.len() == 32
    &&& 53 + s.args.len() <= u32::MAX
}

/// An out point as bytes: the hash, then the index.
pub open spec fn out_point_encoding(p: OutPointModel) -> Seq<u8> {
    p.tx_hash + le_bytes(p.index as nat, 4)
}

/// The script with this byte form, if there is one.
pub open spec fn script_of(data: Seq<u8>) -> ScriptModel {
    ScriptModel { code_hash: data.subrange(16, 48), hash_type: data[48], args: data.skip(53) }
}

/// Whether a byte string is the byte form of a script.
pub open spec fn is_script(data: Seq<u8>) -> bool {
    script_encodable(script_of(data)) && script_encoding(script_of(data)) == data
}

/// The out point with this byte form, if there is one.
pub open spec fn out_point_of(data: Seq<u8>) -> OutPointModel {
    OutPointModel { tx_hash: data.take(32), index: le_value(data.skip(32)) as u32 }
}

/// Witness arguments as bytes, where only the input's type script gets any.
pub open spec fn witness_encoding(input_type: Seq<u8>) -> Seq<u8> {
    le_bytes((20 + input_type.len()) as nat, 4) + le_bytes(16, 4) + le_bytes(16, 4) + le_bytes(
        (20 + input_type.len()) as nat,
        4,
    ) + le_bytes(input_type.len(), 4) + input_type
}

/// Headers as bytes: how many, then one after another.
pub open spec fn header_vec_encoding(headers: Seq<Seq<u8>>) -> Seq<u8> {
    le_bytes(headers.len(), 4) + headers.flatten()
}

/// Two scripts with the same byte form are the same script.
pub proof fn law_script_encoding_injective(a: ScriptModel, b: ScriptModel)
    requires
        script_encodable(a),
        script_encodable(b),
        script_encoding(a) == script_encoding(b),
    ensures
        a == b,
{
    law_script_read_back(a);
    law_script_read_back(b);
}

/// Where the fields of a script stand in its byte form.
proof fn lemma_script_fields(s: ScriptModel)
    requires
        s.code_hash.len() == 32,
    ensures
        script_encoding(s).len() == 53 + s.args.len(),
        script_encoding(s).subrange(16, 48) == s.code_hash,
        script_encoding(s)[48] == s.hash_type,
        script_encoding(s).skip(53) == s.args,
{
    lemma_le_bytes_len((53 + s.args.len()) as nat, 4);
    lemma_le_bytes_len(16, 4);
    lemma_le_bytes_len(48, 4);
    lemma_le_bytes_len(49, 4);
    lemma_le_bytes_len(s.args.len(), 4);
    assert(script_encoding(s).subrange(16, 48) =~= s.code_hash);
    assert(script_encoding(s).skip(53) =~= s.args);
}

/// A script that was written as bytes is read back unchanged.
pub proof fn law_script_read_back(s: ScriptModel)
    requires
        script_encodable(s),
    ensures
        is_script(script_encoding(s)),
        script_of(script_encoding(s)) == s,
{
    lemma_script_fields(s);
    assert(script_of(script_encoding(s)) =~= s);
}

/// A byte string is that of a script exactly if some script has it as its byte
/// form.
pub proof fn law_is_script(data: Seq<u8>)
    ensures
        is_script(data) <==> exists|s: ScriptModel|
            script_encodable(s) && #[trigger] script_encoding(s) == data,
{
    if is_script(data) {
        assert(script_encoding(script_of(data)) == data);
    }
    if exists|s: ScriptModel| script_encodable(s) && #[trigger] script_encoding(s) == data {
        let s = choose|s: ScriptModel|
            script_encodable(s) && #[trigger] script_encoding(s) == data;
        law_script_read_back(s);
    }
}

/// An out point that was written as bytes is read back unchanged, from 36
/// bytes.
pub proof fn law_out_point_read_back(p: OutPointModel)
    requires
        p.tx_hash.len() == 32,
    ensures
        out_point_encoding(p).len() == 36,
        out_point_of(out_point_encoding(p)) == p,
{
    lemma_le_bytes_len(p.index as nat, 4);
    lemma_le_capacity_4();
    law_le_bytes_read_back(p.index as nat, 4);
    assert(out_point_encoding(p).take(32) =~= p.tx_hash);
    assert(out_point_encoding(p).skip(32) =~= le_bytes(p.index as nat, 4));
    assert(out_point_of(out_point_encoding(p)) =~= p);
}

/// Any 36 bytes are the byte form of the out point that is read from them.
pub proof fn law_out_point_written_back(data: Seq<u8>)
    requires
        data.len() == 36,
    ensures
        out_point_encoding(out_point_of(data)) == data,
{
    let index = data.skip(32);
    lemma_le_capacity_4();
    lemma_le_value_fits(index);
    law_le_value_written_back(index);
    assert(data.take(32) + index =~= data);
}

/// Two out points with the same byte form are the same out point.
pub proof fn law_out_point_encoding_injective(a: OutPointModel, b: OutPointModel)
    requires
        a.tx_hash.len() == 32,
        b.tx_hash.len() == 32,
        out_point_encoding(a) == out_point_encoding(b),
    ensures
        a == b,
{
    law_out_point_read_back(a);
    law_out_point_read_back(b);
}

/// Witness arguments end with what was put into them, after its length, and
/// begin with their own.
pub proof fn law_witness_read_back(input_type: Seq<u8>)
    requires
        20 + input_type.len() <= u32::MAX,
    ensures
        witness_encoding(input_type).len() == 20 + input_type.len(),
        le_value(witness_encoding(input_type).take(4)) == 20 + input_type.len(),
        le_value(witness_encoding(input_type).subrange(16, 20)) == input_type.len(),
        witness_encoding(input_type).skip(20) == input_type,
{
    let size = (20 + input_type.len()) as nat;
    let all = witness_encoding(input_type);
    lemma_le_bytes_len(size, 4);
    lemma_le_bytes_len(16, 4);
    lemma_le_bytes_len(input_type.len(), 4);
    lemma_le_capacity_4();
    law_le_bytes_read_back(size, 4);
    law_le_bytes_read_back(input_type.len(), 4);
    assert(all.take(4) =~= le_bytes(size, 4));
    assert(all.subrange(16, 20) =~= le_bytes(input_type.len(), 4));
    assert(all.skip(20) =~= input_type);
}

/// Headers that were written one after another are found again, each at its
/// own place.
pub proof fn law_header_vec_read_back(headers: Seq<Seq<u8>>, i: int)
    requires
        forall|j: int| 0 <= j < headers.len() ==> (#[trigger] headers[j]).len() == 208,
        0 <= i < headers.len(),
    ensures
        header_vec_encoding(headers).len() == 4 + 208 * headers.len(),
        headers.len() <= u32::MAX ==> le_value(header_vec_encoding(headers).take(4))
            == headers.len(),
        header_vec_encoding(headers).subrange(4 + 208 * i, 4 + 208 * (i + 1)) == headers[i],
{
    lemma_le_bytes_len(headers.len(), 4);
    lemma_flatten_at(headers, i);
    let all = header_vec_encoding(headers);
    assert(all.take(4) =~= le_bytes(headers.len(), 4));
    if headers.len() <= u32::MAX {
        lemma_le_capacity_4();
        law_le_bytes_read_back(headers.len(), 4);
    }
    assert(all.subrange(4 + 208 * i, 4 + 208 * (i + 1)) =~= headers.flatten().subrange(
        208 * i,
        208 * (i + 1),
    ));
}

proof fn lemma_flatten_at(items: Seq<Seq<u8>>, i: int)
    requires
        forall|j: int| 0 <= j < items.len() ==> (#[trigger] items[j]).len() == 208,
        0 <= i < items.len(),
    ensures
        items.flatten().len() == 208 * items.len(),
        items.flatten().subrange(208 * i, 208 * (i + 1)) == items[i],
    decreases items.len(),
{
    let rest = items.drop_first();
    assert forall|j: int| 0 <= j < rest.len() implies (#[trigger] rest[j]).len() == 208 by {
        assert(rest[j] == items[j + 1]);
    }
    assert(items.flatten() == items.first() + rest.flatten());
    if rest.len() == 0 {
        assert(rest.flatten().len() == 0);
        assert(items.flatten().subrange(0, 208) =~= items[0]);
    } else if i == 0 {
        lemma_flatten_at(rest, 0);
        assert(items.flatten().subrange(0, 208) =~= items[0]);
    } else {
        lemma_flatten_at(rest, i - 1);
        assert(items.flatten().subrange(208 * i, 208 * (i + 1)) =~= rest.flatten().subrange(
            208 * (i - 1),
            208 * i,
        ));
    }
}

} // verus!
