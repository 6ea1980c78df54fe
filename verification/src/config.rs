//! Reading the configuration: hashes, code hashes, cell deps.
use crate::ckb::byte32_from_slice;
use crate::error::{result_model, Error, ErrorModel, FieldError};
use crate::hexadecimal::{hex_decode, hex_decoded};
use crate::molecule::{OutPointModel, ScriptModel};
use crate::plan::cell_dep_models;
use crate::types::{
    CellDep, CellDepModel, OutPoint, OutpointConf, OutpointModel, Script, HASH_TYPE_DATA,
};
use vstd::prelude::*;
use vstd::utf8::encode_utf8;

verus! {

/// The hash that a text stands for, or why it stands for none.
pub open spec fn hash_of(text: Seq<char>) -> Result<Seq<u8>, FieldError> {
    match hex_decoded(encode_utf8(text)) {
        Err(e) => Err(FieldError::Hex(e)),
        Ok(data) => if data.len() == 32 {
            Ok(data)
        } else {
            Err(FieldError::Size { expected: 32, actual: data.len() as usize })
        },
    }
}

/// The cell dep that is configured, or why it is none.
pub open spec fn resolved(conf: OutpointModel) -> Result<CellDepModel, FieldError> {
    match hash_of(conf.tx_hash) {
        Ok(tx_hash) => Ok(
            CellDepModel {
                out_point: OutPointModel { tx_hash, index: conf.index },
                dep_type: conf.dep_type,
            },
        ),
        Err(e) => Err(e),
    }
}

/// The cell deps that are configured, in their order, or why the first one
/// that is none is none.
pub open spec fn resolved_all(confs: Seq<OutpointModel>) -> Result<Seq<CellDepModel>, FieldError>
    decreases confs.len(),
{
    if confs.len() == 0 {
        Ok(Seq::empty())
    } else {
        match resolved_all(confs.drop_last()) {
            Err(e) => Err(e),
            Ok(deps) => match resolved(confs.last()) {
                Err(e) => Err(e),
                Ok(dep) => Ok(deps.push(dep)),
            },
        }
    }
}

pub open spec fn conf_models(v: Seq<OutpointConf>) -> Seq<OutpointModel> {
    v.map_values(|c: OutpointConf| c@)
}

/// Reads a hash.
pub fn parse_hash(text: &String) -> (r: Result<[u8; 32], FieldError>)
    ensures
        match (r, hash_of(text@)) {
            (Ok(hash), Ok(data)) => hash@ == data,
            (Err(e), Err(f)) => e == f,
            _ => false,
        },
{
    match hex_decode(text.as_str().as_bytes()) {
        Err(e) => Err(FieldError::Hex(e)),
        Ok(data) => match byte32_from_slice(data.as_slice()) {
            Some(hash) => Ok(hash),
            None => Err(FieldError::Size { expected: 32, actual: data.len() }),
        },
    }
}

/// The script whose code has a configured hash, with these arguments.
pub open spec fn data_script(code_hash: Seq<char>, args: Seq<u8>) -> Result<
    ScriptModel,
    ErrorModel,
> {
    match hash_of(code_hash) {
        Ok(hash) => Ok(ScriptModel { code_hash: hash, hash_type: HASH_TYPE_DATA, args }),
        Err(e) => Err(ErrorModel::CodeHash(e)),
    }
}

/// Makes the script whose code has a configured hash.
pub fn make_data_script(code_hash: &String, args: Vec<u8>) -> (r: Result<Script, Error>)
    ensures
        result_model(r) == data_script(code_hash@, args@),
{
    match parse_hash(code_hash) {
        Ok(hash) => {
            let script = Script { code_hash: hash, hash_type: HASH_TYPE_DATA, args };
            assert(script@ =~= data_script(code_hash@, args@)->Ok_0);
            Ok(script)
        },
        Err(e) => Err(Error::CodeHash(e)),
    }
}

/// Appends the configured cell deps to those that are there, or, if one of
/// them is invalid, none.
pub fn add_cell_deps(cell_deps: &mut Vec<CellDep>, outpoints: Vec<OutpointConf>) -> (r: Result<
    (),
    Error,
>)
    ensures
        match resolved_all(conf_models(outpoints@)) {
            Ok(deps) => r is Ok && cell_dep_models(final(cell_deps)@) == cell_dep_models(
                old(cell_deps)@,
            ) + deps,
            Err(e) => r == Err::<(), Error>(Error::Outpoint(e)) && final(cell_deps)@ == old(
                cell_deps,
            )@,
        },
{
    let ghost confs = conf_models(outpoints@);
    let mut deps: Vec<CellDep> = Vec::new();
    let mut i: usize = 0;
    assert(confs.take(0) =~= Seq::empty());
    assert(cell_dep_models(deps@) =~= Seq::empty());
    while i < outpoints.len()
        invariant
            i <= outpoints.len(),
            confs == conf_models(outpoints@),
            cell_deps@ == old(cell_deps)@,
            resolved_all(confs.take(i as int)) == Ok::<Seq<CellDepModel>, FieldError>(
                cell_dep_models(deps@),
            ),
        decreases outpoints.len() - i,
    {
        let conf = &outpoints[i];
        assert(confs.take(i + 1).drop_last() =~= confs.take(i as int));
        assert(confs.take(i + 1).last() == conf@);
        match parse_hash(&conf.tx_hash) {
            Ok(tx_hash) => {
                let dep = CellDep {
                    out_point: OutPoint { tx_hash, index: conf.index },
                    dep_type: conf.dep_type,
                };
                let ghost before = cell_dep_models(deps@);
                deps.push(dep);
                assert(cell_dep_models(deps@) =~= before.push(dep@));
            },
            Err(e) => {
                proof {
                    lemma_resolved_all_fails(confs, i + 1, e);
                }
                return Err(Error::Outpoint(e));
            },
        }
        i = i + 1;
    }
    assert(confs.take(i as int) =~= confs);
    let ghost added = deps@;
    cell_deps.append(&mut deps);
    assert(cell_dep_models(cell_deps@) =~= cell_dep_models(old(cell_deps)@) + cell_dep_models(
        added,
    ));
    Ok(())
}

/// The configured cell deps.
pub fn resolve_cell_deps(outpoints: Vec<OutpointConf>) -> (r: Result<Vec<CellDep>, Error>)
    ensures
        match resolved_all(conf_models(outpoints@)) {
            Ok(deps) => r is Ok && cell_dep_models(r->Ok_0@) == deps,
            Err(e) => r == Err::<Vec<CellDep>, Error>(Error::Outpoint(e)),
        },
{
    let ghost confs = conf_models(outpoints@);
    let mut cell_deps: Vec<CellDep> = Vec::new();
    assert(cell_dep_models(cell_deps@) =~= Seq::empty());
    match add_cell_deps(&mut cell_deps, outpoints) {
        Ok(()) => {
            assert(cell_dep_models(cell_deps@) =~= resolved_all(confs)->Ok_0);
            Ok(cell_deps)
        },
        Err(e) => Err(e),
    }
}

/// An invalid cell dep is reported whatever comes after it.
proof fn lemma_resolved_all_fails(confs: Seq<OutpointModel>, i: int, e: FieldError)
    requires
        0 <= i <= confs.len(),
        resolved_all(confs.take(i)) == Err::<Seq<CellDepModel>, FieldError>(e),
    ensures
        resolved_all(confs) == Err::<Seq<CellDepModel>, FieldError>(e),
    decreases confs.len() - i,
{
    if i < confs.len() {
        assert(confs.take(i + 1).drop_last() =~= confs.take(i));
        lemma_resolved_all_fails(confs, i + 1, e);
    } else {
        assert(confs.take(i) =~= confs);
    }
}

/// Cell deps resolve exactly if each of them does, each at its own place.
pub proof fn law_cell_deps_resolve_each(confs: Seq<OutpointModel>)
    ensures
        resolved_all(confs) is Ok <==> (forall|i: int|
            0 <= i < confs.len() ==> resolved(#[trigger] confs[i]) is Ok),
        resolved_all(confs) is Ok ==> resolved_all(confs)->Ok_0.len() == confs.len(),
        resolved_all(confs) is Ok ==> forall|i: int|
            0 <= i < confs.len() ==> Ok::<CellDepModel, FieldError>(
                #[trigger] resolved_all(confs)->Ok_0[i],
            ) == resolved(confs[i]),
    decreases confs.len(),
{
    if confs.len() > 0 {
        let front = confs.drop_last();
        law_cell_deps_resolve_each(front);
        if resolved_all(confs) is Ok {
            let deps = resolved_all(confs)->Ok_0;
            let before = resolved_all(front)->Ok_0;
            assert forall|i: int| 0 <= i < confs.len() implies Ok::<CellDepModel, FieldError>(
                #[trigger] deps[i],
            ) == resolved(confs[i]) by {
                if i < front.len() {
                    assert(deps[i] == before[i]);
                    assert(front[i] == confs[i]);
                }
            }
            assert forall|i: int| 0 <= i < confs.len() implies resolved(
                #[trigger] confs[i],
            ) is Ok by {
                assert(Ok::<CellDepModel, FieldError>(deps[i]) == resolved(confs[i]));
            }
        } else if forall|i: int| 0 <= i < confs.len() ==> resolved(#[trigger] confs[i]) is Ok {
            assert forall|i: int| 0 <= i < front.len() implies resolved(
                #[trigger] front[i],
            ) is Ok by {
                assert(front[i] == confs[i]);
            }
            assert(resolved(confs.last()) is Ok);
        }
    }
}

/// Cell deps that are added in two steps are those that are added in one.
pub proof fn law_cell_deps_in_steps(first: Seq<OutpointModel>, second: Seq<OutpointModel>)
    ensures
        resolved_all(first + second) == (match resolved_all(first) {
            Err(e) => Err::<Seq<CellDepModel>, FieldError>(e),
            Ok(deps) => match resolved_all(second) {
                Err(e) => Err(e),
                Ok(more) => Ok(deps + more),
            },
        }),
    decreases second.len(),
{
    if second.len() == 0 {
        assert(first + second =~= first);
        if resolved_all(first) is Ok {
            let deps = resolved_all(first)->Ok_0;
            assert(deps + Seq::<CellDepModel>::empty() =~= deps);
        }
    } else {
        law_cell_deps_in_steps(first, second.drop_last());
        assert((first + second).drop_last() =~= first + second.drop_last());
        assert((first + second).last() == second.last());
        if resolved_all(first) is Ok && resolved_all(second) is Ok {
            let deps = resolved_all(first)->Ok_0;
            let more = resolved_all(second.drop_last())->Ok_0;
            let dep = resolved(second.last())->Ok_0;
            assert((deps + more).push(dep) =~= deps + more.push(dep));
        }
    }
}

} // verus!
