//! CKB's structures as plain values, and the configuration of the deployed
//! contracts.
use crate::bytes::copy_bytes;
use crate::molecule::{OutPointModel, ScriptModel};
use vstd::prelude::*;

verus! {

/// How code with a given hash is found: by the hash of the cell's data.
pub const HASH_TYPE_DATA: u8 = 0;

/// What a cell dep provides: code, or a list of further cell deps.
#[derive(Clone, Copy, Debug, PartialEq, Eq, Structural)]
pub enum DepType {
    Code,
    DepGroup,
}

/// An output of a transaction.
#[derive(Clone, Copy, Debug, PartialEq, Eq)]
pub struct OutPoint {
    pub tx_hash: [u8; 32],
    pub index: u32,
}

impl View for OutPoint {
    type V = OutPointModel;

    open spec fn view(&self) -> OutPointModel {
        OutPointModel { tx_hash: self.tx_hash@, index: self.index }
    }
}

/// A cell that a transaction depends on.
#[derive(Clone, Copy, Debug, PartialEq, Eq)]
pub struct CellDep {
    pub out_point: OutPoint,
    pub dep_type: DepType,
}

/// What a `CellDep` stands for.
#[verifier::ext_equal]
pub struct CellDepModel {
    pub out_point: OutPointModel,
    pub dep_type: DepType,
}

impl View for CellDep {
    type V = CellDepModel;

    open spec fn view(&self) -> CellDepModel {
        CellDepModel { out_point: self.out_point@, dep_type: self.dep_type }
    }
}

/// A script: which code runs, how the code is found, on which arguments.
#[derive(Debug, PartialEq, Eq)]
pub struct Script {
    pub code_hash: [u8; 32],
    pub hash_type: u8,
    pub args: Vec<u8>,
}

impl View for Script {
    type V = ScriptModel;

    open spec fn view(&self) -> ScriptModel {
        ScriptModel {
            code_hash: self.code_hash@,
            hash_type: self.hash_type,
            args: self.args@,
        }
    }
}

impl Clone for Script {
    fn clone(&self) -> (r: Self)
        ensures
            r@ == self@,
    {
        let r = Script {
            code_hash: self.code_hash,
            hash_type: self.hash_type,
            args: copy_bytes(self.args.as_slice()),
        };
        assert(r@ =~= self@);
        r
    }
}

/// The script of an output whose lock was not set yet.
pub open spec fn unset_script() -> ScriptModel {
    ScriptModel {
        code_hash: Seq::new(32, |i: int| 0u8),
        hash_type: HASH_TYPE_DATA,
        args: Seq::empty(),
    }
}

impl Script {
    /// The script of an output whose lock was not set yet.
    pub fn unset() -> (r: Self)
        ensures
            r@ == unset_script(),
    {
        let r = Script { code_hash: [0u8; 32], hash_type: HASH_TYPE_DATA, args: Vec::new() };
        assert(r@ =~= unset_script());
        r
    }
}

/// A cell as an output of a transaction.
#[derive(Debug, PartialEq, Eq)]
pub struct CellOutput {
    pub capacity: u64,
    pub lock: Script,
    pub type_: Option<Script>,
}

/// What a `CellOutput` stands for.
#[verifier::ext_equal]
pub struct CellOutputModel {
    pub capacity: u64,
    pub lock: ScriptModel,
    pub type_: Option<ScriptModel>,
}

pub open spec fn option_script(s: Option<Script>) -> Option<ScriptModel> {
    match s {
        Some(script) => Some(script@),
        None => None,
    }
}

impl View for CellOutput {
    type V = CellOutputModel;

    open spec fn view(&self) -> CellOutputModel {
        CellOutputModel {
            capacity: self.capacity,
            lock: self.lock@,
            type_: option_script(self.type_),
        }
    }
}

/// A configured cell dep.
#[derive(Debug)]
pub struct OutpointConf {
    pub tx_hash: String,
    pub index: u32,
    pub dep_type: DepType,
}

/// What an `OutpointConf` stands for.
pub struct OutpointModel {
    pub tx_hash: Seq<char>,
    pub index: u32,
    pub dep_type: DepType,
}

impl View for OutpointConf {
    type V = OutpointModel;

    open spec fn view(&self) -> OutpointModel {
        OutpointModel { tx_hash: self.tx_hash@, index: self.index, dep_type: self.dep_type }
    }
}

impl Clone for OutpointConf {
    fn clone(&self) -> (r: Self)
        ensures
            r@ == self@,
    {
        OutpointConf {
            tx_hash: self.tx_hash.clone(),
            index: self.index,
            dep_type: self.dep_type,
        }
    }
}

/// A configured script: the hash of its code and the cell that holds it.
#[derive(Debug)]
pub struct ScriptConf {
    pub code_hash: String,
    pub outpoint: OutpointConf,
}

/// The configured cells of wallet locks.
#[derive(Debug)]
pub struct PwLocks {
    pub inner: Vec<OutpointConf>,
}

/// Where the bridge's contracts are deployed.
#[derive(Debug)]
pub struct DeployedContracts {
    pub light_client_typescript: ScriptConf,
    pub light_client_lockscript: ScriptConf,
    pub bridge_lockscript: ScriptConf,
    pub bridge_typescript: ScriptConf,
    pub recipient_typescript: ScriptConf,
    pub sudt: ScriptConf,
    pub dag_merkle_roots: OutpointConf,
    pub pw_locks: PwLocks,
}

/// What was found where something was looked up at a node.
#[derive(Debug)]
pub enum Lookup<T> {
    /// The node did not answer as it should.
    Failed(String),
    /// The node knows no such thing.
    Missing,
    /// This was found.
    Found(T),
}

} // verus!
