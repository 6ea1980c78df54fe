//! Words in which the laws speak of configured texts: which hash a text stands
//! for, or why it stands for none, and what is made of it.
use crate::config::{conf_models, data_script, hash_of, resolved_all};
use crate::error::FieldError;
use crate::hexadecimal::{hex_decoded, hex_digit, hex_encoded, law_hex_read_back, HexError};
use crate::molecule::ScriptModel;
use crate::types::{CellDepModel, OutpointConf};
use vstd::prelude::*;
use vstd::utf8::{encode_utf8, is_ascii_chars, is_ascii_chars_encode_utf8};

verus! {

/// Whether a text is the hexadecimal form of a hash.
pub open spec fn is_hash_text(text: Seq<char>, hash: Seq<u8>) -> bool {
    &&& hex_decoded(encode_utf8(text)) == Ok::<Seq<u8>, HexError>(hash)
    &&& hash.len() == 32
}

/// Whether a text is the hexadecimal form of some hash.
pub open spec fn names_hash(text: Seq<char>) -> bool {
    &&& hex_decoded(encode_utf8(text)) is Ok
    &&& hex_decoded(encode_utf8(text))->Ok_0.len() == 32
}

/// Whether `e` says why a text is no hash: it is not hexadecimal, or it has
/// another number of bytes.
pub open spec fn is_reason(text: Seq<char>, e: FieldError) -> bool {
    match hex_decoded(encode_utf8(text)) {
        Err(h) => e == FieldError::Hex(h),
        Ok(data) => data.len() != 32 && e == (FieldError::Size {
            expected: 32,
            actual: data.len() as usize,
        }),
    }
}

/// Whether a cell dep is the configured one.
pub open spec fn is_dep(dep: CellDepModel, conf: OutpointConf) -> bool {
    &&& is_hash_text(conf.tx_hash@, dep.out_point.tx_hash)
    &&& dep.out_point.index == conf.index
    &&& dep.dep_type == conf.dep_type
}

/// Whether cell deps are the configured ones, in their order.
pub open spec fn are_deps(deps: Seq<CellDepModel>, confs: Seq<OutpointConf>) -> bool {
    &&& deps.len() == confs.len()
    &&& forall|i: int| 0 <= i < confs.len() ==> is_dep(#[trigger] deps[i], confs[i])
}

/// Whether all configured cell deps name a transaction.
pub open spec fn all_named(confs: Seq<OutpointConf>) -> bool {
    forall|i: int| 0 <= i < confs.len() ==> names_hash((#[trigger] confs[i]).tx_hash@)
}

/// Whether `e` says what is wrong with the first configured cell dep that names
/// no transaction.
pub open spec fn is_first_reason(confs: Seq<OutpointConf>, e: FieldError) -> bool {
    exists|i: int|
        0 <= i < confs.len() && is_reason((#[trigger] confs[i]).tx_hash@, e) && all_named(
            confs.take(i),
        )
}

/// Whether a script runs the code with a configured hash, found by the hash of
/// its cell's data, on these arguments.
pub open spec fn is_data_script(s: ScriptModel, code_hash: Seq<char>, args: Seq<u8>) -> bool {
    &&& is_hash_text(code_hash, s.code_hash)
    &&& s.hash_type == 0
    &&& s.args == args
}

/// A text is read as the hash whose hexadecimal form it is, or else refused with
/// the reason.
pub proof fn law_hash_is_what_the_text_says(text: Seq<char>)
    ensures
        hash_of(text) is Ok <==> names_hash(text),
        hash_of(text) is Ok ==> is_hash_text(text, hash_of(text)->Ok_0),
        hash_of(text) is Err ==> is_reason(text, hash_of(text)->Err_0),
{
}

/// A hash that is configured in its hexadecimal form is read as that hash.
pub proof fn law_written_hash_is_read(hash: Seq<u8>)
    requires
        hash.len() == 32,
    ensures
        hash_of(hex_encoded(hash)) == Ok::<Seq<u8>, FieldError>(hash),
{
    let text = hex_encoded(hash);
    assert forall|i: int| 0 <= i < text.len() implies '\0' <= #[trigger] text[i] <= '\u{7f}' by {
        let value = if i % 2 == 0 {
            hash[i / 2] as int / 16
        } else {
            hash[i / 2] as int % 16
        };
        assert(0 <= value < 16);
        assert(text[i] == hex_digit(value));
    }
    assert(is_ascii_chars(text));
    is_ascii_chars_encode_utf8(text);
    assert(encode_utf8(text) =~= text.map_values(|c: char| c as u8));
    law_hex_read_back(hash);
}

/// A script is made of the configured code and the given arguments, or else the
/// code hash is refused with the reason.
pub proof fn law_script_is_what_is_configured(code_hash: Seq<char>, args: Seq<u8>)
    ensures
        data_script(code_hash, args) is Ok <==> names_hash(code_hash),
        data_script(code_hash, args) is Ok ==> is_data_script(
            data_script(code_hash, args)->Ok_0,
            code_hash,
            args,
        ),
        data_script(code_hash, args) is Err ==> data_script(code_hash, args)->Err_0 is CodeHash
            && is_reason(code_hash, data_script(code_hash, args)->Err_0->CodeHash_0),
{
    law_hash_is_what_the_text_says(code_hash);
}

/// Cell deps are those that are configured, each with its transaction, its index
/// and its kind; or else the first one that names no transaction is refused with
/// the reason.
pub proof fn law_cell_deps_are_what_is_configured(confs: Seq<OutpointConf>)
    ensures
        resolved_all(conf_models(confs)) is Ok <==> all_named(confs),
        resolved_all(conf_models(confs)) is Ok ==> are_deps(
            resolved_all(conf_models(confs))->Ok_0,
            confs,
        ),
        resolved_all(conf_models(confs)) is Err ==> is_first_reason(
            confs,
            resolved_all(conf_models(confs))->Err_0,
        ),
    decreases confs.len(),
{
    let models = conf_models(confs);
    if confs.len() > 0 {
        let front = confs.drop_last();
        let last = confs.last();
        law_cell_deps_are_what_is_configured(front);
        law_hash_is_what_the_text_says(last.tx_hash@);
        assert(models.drop_last() =~= conf_models(front));
        assert(models.last() == last@);
        assert(confs.take(confs.len() - 1) =~= front);
        if resolved_all(models) is Ok {
            let deps = resolved_all(models)->Ok_0;
            let before = resolved_all(conf_models(front))->Ok_0;
            assert forall|i: int| 0 <= i < confs.len() implies is_dep(
                #[trigger] deps[i],
                confs[i],
            ) by {
                if i < front.len() {
                    assert(is_dep(before[i], front[i]));
                }
            }
            assert forall|i: int| 0 <= i < confs.len() implies names_hash(
                (#[trigger] confs[i]).tx_hash@,
            ) by {
                assert(is_dep(deps[i], confs[i]));
            }
        } else if resolved_all(conf_models(front)) is Err {
            let e = resolved_all(models)->Err_0;
            let i = choose|i: int|
                0 <= i < front.len() && is_reason((#[trigger] front[i]).tx_hash@, e) && all_named(
                    front.take(i),
                );
            assert(front.take(i) =~= confs.take(i));
            assert(confs[i] == front[i]);
            assert(!names_hash(confs[i].tx_hash@));
        } else {
            assert(is_reason(confs[confs.len() - 1].tx_hash@, resolved_all(models)->Err_0));
            assert(!names_hash(confs[confs.len() - 1].tx_hash@));
        }
    }
}

} // verus!
