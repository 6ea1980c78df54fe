//! What a transaction is made of before it is funded and signed.
use crate::chain::byte_strings;
use crate::molecule::{OutPointModel, ScriptModel};
use crate::types::{option_script, CellDep, CellDepModel, OutPoint, Script};
use vstd::prelude::*;

verus! {

/// The capacity of a planned output.
#[derive(Clone, Copy, Debug, PartialEq, Eq, Structural)]
pub enum PlannedCapacity {
    /// This many shannons.
    Shannons(u64),
    /// As much as the output itself takes up.
    Occupied,
}

/// The first header of a light client.
#[derive(Debug, PartialEq, Eq)]
pub struct HeaderInfo {
    pub header: Vec<u8>,
    pub total_difficulty: u64,
    pub hash: [u8; 32],
}

/// Tokens that are on their way to Ethereum.
#[derive(Clone, Copy, Debug, PartialEq, Eq)]
pub struct EthRecipientData {
    pub eth_recipient_address: [u8; 20],
    pub eth_token_address: [u8; 20],
    pub eth_lock_contract_address: [u8; 20],
    pub eth_bridge_lock_hash: [u8; 32],
    pub token_amount: u128,
    pub fee: u128,
}

/// What an `EthRecipientData` stands for.
#[verifier::ext_equal]
pub struct EthRecipientModel {
    pub eth_recipient_address: Seq<u8>,
    pub eth_token_address: Seq<u8>,
    pub eth_lock_contract_address: Seq<u8>,
    pub eth_bridge_lock_hash: Seq<u8>,
    pub token_amount: u128,
    pub fee: u128,
}

impl View for EthRecipientData {
    type V = EthRecipientModel;

    open spec fn view(&self) -> EthRecipientModel {
        EthRecipientModel {
            eth_recipient_address: self.eth_recipient_address@,
            eth_token_address: self.eth_token_address@,
            eth_lock_contract_address: self.eth_lock_contract_address@,
            eth_bridge_lock_hash: self.eth_bridge_lock_hash@,
            token_amount: self.token_amount,
            fee: self.fee,
        }
    }
}

/// The data of a planned output.
#[derive(Debug, PartialEq, Eq)]
pub enum CellData {
    /// These bytes.
    Raw(Vec<u8>),
    /// A light client's chain that holds one header.
    FirstHeader(HeaderInfo),
    /// A light client's chain.
    Headers { main: Vec<Vec<u8>>, uncle: Vec<Vec<u8>> },
    /// Whose bridge cell it is, and what its use costs.
    Bridge { owner_lock_script: Vec<u8>, fee: u128 },
    /// Tokens that are on their way to Ethereum.
    EthRecipient(EthRecipientData),
}

/// What a `CellData` stands for.
pub enum CellDataModel {
    Raw(Seq<u8>),
    FirstHeader { header: Seq<u8>, total_difficulty: u64, hash: Seq<u8> },
    Headers { main: Seq<Seq<u8>>, uncle: Seq<Seq<u8>> },
    Bridge { owner_lock_script: Seq<u8>, fee: u128 },
    EthRecipient(EthRecipientModel),
}

impl View for CellData {
    type V = CellDataModel;

    open spec fn view(&self) -> CellDataModel {
        match *self {
            CellData::Raw(data) => CellDataModel::Raw(data@),
            CellData::FirstHeader(info) => CellDataModel::FirstHeader {
                header: info.header@,
                total_difficulty: info.total_difficulty,
                hash: info.hash@,
            },
            CellData::Headers { main, uncle } => CellDataModel::Headers {
                main: byte_strings(main@),
                uncle: byte_strings(uncle@),
            },
            CellData::Bridge { owner_lock_script, fee } => CellDataModel::Bridge {
                owner_lock_script: owner_lock_script@,
                fee,
            },
            CellData::EthRecipient(data) => CellDataModel::EthRecipient(data@),
        }
    }
}

/// A planned output.
#[derive(Debug, PartialEq, Eq)]
pub struct PlannedOutput {
    pub capacity: PlannedCapacity,
    pub lock: Script,
    pub type_: Option<Script>,
    pub data: CellData,
}

/// What a `PlannedOutput` stands for.
pub struct PlannedOutputModel {
    pub capacity: PlannedCapacity,
    pub lock: ScriptModel,
    pub type_: Option<ScriptModel>,
    pub data: CellDataModel,
}

impl View for PlannedOutput {
    type V = PlannedOutputModel;

    open spec fn view(&self) -> PlannedOutputModel {
        PlannedOutputModel {
            capacity: self.capacity,
            lock: self.lock@,
            type_: option_script(self.type_),
            data: self.data@,
        }
    }
}

/// What stands for a proof in a transaction that shows none.
#[derive(Clone, Copy, Debug, PartialEq, Eq)]
pub struct NoProof;

/// The witness that goes with a transaction. Both kinds say by index in which
/// cell deps the contracts find what they check against. `P` is a proof that
/// tokens were locked on Ethereum.
#[derive(Debug, PartialEq, Eq)]
pub enum PlannedWitness<P> {
    /// The headers that are worked into a light client.
    LightClient { headers: Vec<Vec<u8>>, cell_dep_index_list: Vec<u8> },
    /// The proof that tokens were locked on Ethereum.
    SpvProof { cell_dep_index_list: Vec<u8>, spv_proof: P },
}

/// What a `PlannedWitness` stands for.
pub enum WitnessModel<P> {
    LightClient { headers: Seq<Seq<u8>>, cell_dep_index_list: Seq<u8> },
    SpvProof { cell_dep_index_list: Seq<u8>, spv_proof: P },
}

impl<P> View for PlannedWitness<P> {
    type V = WitnessModel<P>;

    open spec fn view(&self) -> WitnessModel<P> {
        match *self {
            PlannedWitness::LightClient { headers, cell_dep_index_list } =>
                WitnessModel::LightClient {
                headers: byte_strings(headers@),
                cell_dep_index_list: cell_dep_index_list@,
            },
            PlannedWitness::SpvProof { cell_dep_index_list, spv_proof } =>
                WitnessModel::SpvProof {
                cell_dep_index_list: cell_dep_index_list@,
                spv_proof,
            },
        }
    }
}

/// Tokens that the payer has to bring in.
#[derive(Debug, PartialEq, Eq)]
pub struct TokenDemand {
    pub amount: u128,
    pub typescript: Script,
}

/// What a `TokenDemand` stands for.
pub struct TokenDemandModel {
    pub amount: u128,
    pub typescript: ScriptModel,
}

impl View for TokenDemand {
    type V = TokenDemandModel;

    open spec fn view(&self) -> TokenDemandModel {
        TokenDemandModel { amount: self.amount, typescript: self.typescript@ }
    }
}

/// A planned transaction: its parts in the order in which they are added, then
/// who pays for it and how much is left as fee. `P` is a proof that tokens were
/// locked on Ethereum.
#[derive(Debug, PartialEq, Eq)]
pub struct TxPlan<P> {
    pub cell_deps: Vec<CellDep>,
    pub inputs: Vec<OutPoint>,
    pub outputs: Vec<PlannedOutput>,
    pub witness: Option<PlannedWitness<P>>,
    pub tokens: Option<TokenDemand>,
    pub payer: Script,
    pub tx_fee: u64,
}

/// What a `TxPlan` stands for.
#[verifier::ext_equal]
pub struct TxPlanModel<P> {
    pub cell_deps: Seq<CellDepModel>,
    pub inputs: Seq<OutPointModel>,
    pub outputs: Seq<PlannedOutputModel>,
    pub witness: Option<WitnessModel<P>>,
    pub tokens: Option<TokenDemandModel>,
    pub payer: ScriptModel,
    pub tx_fee: u64,
}

pub open spec fn cell_dep_models(v: Seq<CellDep>) -> Seq<CellDepModel> {
    v.map_values(|d: CellDep| d@)
}

pub open spec fn out_point_models(v: Seq<OutPoint>) -> Seq<OutPointModel> {
    v.map_values(|p: OutPoint| p@)
}

pub open spec fn output_models(v: Seq<PlannedOutput>) -> Seq<PlannedOutputModel> {
    v.map_values(|o: PlannedOutput| o@)
}

impl<P> View for TxPlan<P> {
    type V = TxPlanModel<P>;

    open spec fn view(&self) -> TxPlanModel<P> {
        TxPlanModel {
            cell_deps: cell_dep_models(self.cell_deps@),
            inputs: out_point_models(self.inputs@),
            outputs: output_models(self.outputs@),
            witness: match self.witness {
                Some(w) => Some(w@),
                None => None,
            },
            tokens: match self.tokens {
                Some(t) => Some(t@),
                None => None,
            },
            payer: self.payer@,
            tx_fee: self.tx_fee,
        }
    }
}

} // verus!
