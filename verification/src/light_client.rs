//! Transactions on a light client: starting it, and working headers into it.
use crate::bytes::copy_bytes;
use crate::chain::{
    byte_strings, entry_models, find_tail, main_chain, store_chain, tail_header,
    update_accepted, update_chain, updated_chain, ChainModel, EntryModel, HeaderChain,
    HeaderEntry,
};
use crate::ckb::{out_point_bytes, witness_args_bytes};
use crate::config::{conf_models, resolve_cell_deps, resolved_all};
use crate::error::{result_model, Error, ErrorModel};
use crate::generator::Generator;
use crate::hexadecimal::{hex_decode, hex_decoded};
use crate::molecule::{out_point_encoding, witness_encoding, ScriptModel};
use crate::plan::{
    cell_dep_models, CellData, CellDataModel, HeaderInfo, NoProof, PlannedCapacity,
    PlannedOutput, PlannedOutputModel, PlannedWitness, TxPlan, TxPlanModel, WitnessModel,
};
use crate::types::{
    option_script, unset_script, CellDep, CellOutput, CellOutputModel, DeployedContracts,
    OutPoint, OutpointConf, OutpointModel, Script,
};
use vstd::prelude::*;
use vstd::utf8::encode_utf8;

verus! {

/// Number of shannons that a cell with an ordinary lock takes up.
pub const MIN_SECP_CELL_CAPACITY: u64 = 6_100_000_000;

/// Number of shannons in a new light client's cell.
pub const LIGHT_CLIENT_CAPACITY: u64 = 1000 * MIN_SECP_CELL_CAPACITY;

/// Fee of a transaction on a light client.
pub const LIGHT_CLIENT_TX_FEE: u64 = 500_000;

/// A block to start a light client with: its header's serialization, or why it
/// has none; its total difficulty, the lowest 64 bits first; its hash.
#[derive(Debug)]
pub struct EthBlock {
    pub header_rlp: Result<String, String>,
    pub total_difficulty: Option<[u64; 4]>,
    pub hash: Option<[u8; 32]>,
}

/// A header to work into a light client: what it follows, and its
/// serialization, or why it has none.
#[derive(Debug)]
pub struct EthHeader {
    pub parent_hash: [u8; 32],
    pub rlp: Result<String, String>,
}

/// The live cell of a light client.
#[derive(Debug)]
pub struct LightClientCell {
    pub out_point: OutPoint,
    pub lock: Script,
    pub type_: Option<Script>,
}

/// The text of a serialization, or why there is none.
pub open spec fn rlp_model(rlp: Result<String, String>) -> Result<Seq<char>, Seq<char>> {
    match rlp {
        Ok(text) => Ok(text@),
        Err(e) => Err(e@),
    }
}

/// The bytes of a header's serialization, or why there are none.
pub open spec fn header_bytes(rlp: Result<Seq<char>, Seq<char>>) -> Result<
    Seq<u8>,
    ErrorModel,
> {
    match rlp {
        Err(e) => Err(ErrorModel::HeaderRlp(e)),
        Ok(text) => match hex_decoded(encode_utf8(text)) {
            Err(e) => Err(ErrorModel::HeaderHex(e)),
            Ok(data) => Ok(data),
        },
    }
}

/// The bytes of the headers' serializations in their order, or why the first
/// one that has none has none.
pub open spec fn headers_bytes(headers: Seq<EthHeader>) -> Result<Seq<Seq<u8>>, ErrorModel>
    decreases headers.len(),
{
    if headers.len() == 0 {
        Ok(Seq::empty())
    } else {
        match headers_bytes(headers.drop_last()) {
            Err(e) => Err(e),
            Ok(front) => match header_bytes(rlp_model(headers.last().rlp)) {
                Err(e) => Err(e),
                Ok(data) => Ok(front.push(data)),
            },
        }
    }
}

/// The cell deps of a transaction on a light client: first the Merkle roots
/// that headers are checked against.
pub open spec fn light_client_outpoints(c: DeployedContracts) -> Seq<OutpointModel> {
    seq![
        c.dag_merkle_roots@,
        c.light_client_lockscript.outpoint@,
        c.light_client_typescript.outpoint@,
    ]
}

/// The witness of a transaction on a light client. Index 0 is that of the cell
/// dep with the Merkle roots.
pub open spec fn light_client_witness(headers: Seq<Seq<u8>>) -> WitnessModel<NoProof> {
    WitnessModel::LightClient { headers, cell_dep_index_list: seq![0u8] }
}

/// The transaction that starts a light client.
pub open spec fn init_plan(
    c: DeployedContracts,
    block: EthBlock,
    payer: ScriptModel,
) -> Result<TxPlanModel<NoProof>, ErrorModel> {
    match resolved_all(light_client_outpoints(c)) {
        Err(e) => Err(ErrorModel::Outpoint(e)),
        Ok(cell_deps) => match header_bytes(rlp_model(block.header_rlp)) {
            Err(e) => Err(e),
            Ok(header) => Ok(
                TxPlanModel {
                    cell_deps,
                    inputs: Seq::empty(),
                    outputs: seq![
                        PlannedOutputModel {
                            capacity: PlannedCapacity::Shannons(LIGHT_CLIENT_CAPACITY),
                            lock: unset_script(),
                            type_: None,
                            data: CellDataModel::FirstHeader {
                                header,
                                total_difficulty: block.total_difficulty->0@[0],
                                hash: block.hash->0@,
                            },
                        },
                    ],
                    witness: Some(light_client_witness(seq![header])),
                    tokens: None,
                    payer,
                    tx_fee: LIGHT_CLIENT_TX_FEE,
                },
            ),
        },
    }
}

/// Whether a block can start a light client: it has a hash and a total
/// difficulty of no more than 64 bits.
pub open spec fn is_first_block(block: EthBlock) -> bool {
    &&& block.hash is Some
    &&& block.total_difficulty is Some
    &&& forall|i: int| 1 <= i < 4 ==> #[trigger] block.total_difficulty->0@[i] == 0
}

/// Whether the start of a light client at a block can be planned or refused:
/// if nothing else is wrong, the block can start one.
pub open spec fn init_accepted(c: DeployedContracts, block: EthBlock) -> bool {
    resolved_all(light_client_outpoints(c)) is Ok && header_bytes(
        rlp_model(block.header_rlp),
    ) is Ok ==> is_first_block(block)
}

/// What the first of some headers follows.
pub open spec fn first_parent(headers: Seq<EthHeader>) -> Seq<u8> {
    headers[0].parent_hash@
}

/// The transaction that works headers into a light client.
pub open spec fn light_client_plan(
    c: DeployedContracts,
    cell: LightClientCell,
    chain: ChainModel,
    known: Seq<Option<[u8; 32]>>,
    headers: Seq<EthHeader>,
    infos: Seq<EntryModel>,
    payer: ScriptModel,
) -> Result<TxPlanModel<NoProof>, ErrorModel> {
    match resolved_all(light_client_outpoints(c)) {
        Err(e) => Err(ErrorModel::Outpoint(e)),
        Ok(cell_deps) => match updated_chain(
            chain,
            known,
            first_parent(headers),
            headers.len() as int,
            infos,
        ) {
            Err(e) => Err(e),
            Ok(after) => match headers_bytes(headers) {
                Err(e) => Err(e),
                Ok(raw_headers) => Ok(
                    TxPlanModel {
                        cell_deps,
                        inputs: seq![cell.out_point@],
                        outputs: seq![
                            PlannedOutputModel {
                                capacity: PlannedCapacity::Occupied,
                                lock: cell.lock@,
                                type_: option_script(cell.type_),
                                data: CellDataModel::Headers {
                                    main: main_chain(after),
                                    uncle: after.uncle,
                                },
                            },
                        ],
                        witness: Some(light_client_witness(raw_headers)),
                        tokens: None,
                        payer,
                        tx_fee: LIGHT_CLIENT_TX_FEE,
                    },
                ),
            },
        },
    }
}

pub open spec fn cell_output_models(v: Seq<CellOutput>) -> Seq<CellOutputModel> {
    v.map_values(|o: CellOutput| o@)
}

/// The cell of a light client that was just started. Its type script's
/// arguments are the out point of the transaction's first input.
pub open spec fn started_light_client(
    first_input: OutPoint,
    typescript: ScriptModel,
    lockscript: ScriptModel,
) -> CellOutputModel {
    CellOutputModel {
        capacity: LIGHT_CLIENT_CAPACITY,
        lock: lockscript,
        type_: Some(ScriptModel { args: out_point_encoding(first_input@), ..typescript }),
    }
}

/// Decodes a header's serialization.
fn decode_header(rlp: &Result<String, String>) -> (r: Result<Vec<u8>, Error>)
    ensures
        result_model(r) == header_bytes(rlp_model(*rlp)),
{
    match rlp {
        Err(e) => Err(Error::HeaderRlp(e.clone())),
        Ok(text) => match hex_decode(text.as_str().as_bytes()) {
            Err(e) => Err(Error::HeaderHex(e)),
            Ok(data) => Ok(data),
        },
    }
}

/// Decodes the headers' serializations.
fn decode_headers(headers: &Vec<EthHeader>) -> (r: Result<Vec<Vec<u8>>, Error>)
    ensures
        match r {
            Ok(v) => headers_bytes(headers@) == Ok::<Seq<Seq<u8>>, ErrorModel>(byte_strings(v@)),
            Err(e) => headers_bytes(headers@) == Err::<Seq<Seq<u8>>, ErrorModel>(e@),
        },
{
    let mut v: Vec<Vec<u8>> = Vec::new();
    let mut i: usize = 0;
    assert(headers@.take(0) =~= Seq::empty());
    assert(byte_strings(v@) =~= Seq::empty());
    while i < headers.len()
        invariant
            i <= headers.len(),
            headers_bytes(headers@.take(i as int)) == Ok::<Seq<Seq<u8>>, ErrorModel>(
                byte_strings(v@),
            ),
        decreases headers.len() - i,
    {
        assert(headers@.take(i + 1).drop_last() =~= headers@.take(i as int));
        match decode_header(&headers[i].rlp) {
            Ok(data) => {
                let ghost before = byte_strings(v@);
                v.push(data);
                assert(byte_strings(v@) =~= before.push(data@));
            },
            Err(e) => {
                proof {
                    lemma_headers_bytes_fails(headers@, i + 1, e@);
                }
                return Err(e);
            },
        }
        i = i + 1;
    }
    assert(headers@.take(i as int) =~= headers@);
    Ok(v)
}

proof fn lemma_headers_bytes_fails(headers: Seq<EthHeader>, i: int, e: ErrorModel)
    requires
        0 <= i <= headers.len(),
        headers_bytes(headers.take(i)) == Err::<Seq<Seq<u8>>, ErrorModel>(e),
    ensures
        headers_bytes(headers) == Err::<Seq<Seq<u8>>, ErrorModel>(e),
    decreases headers.len() - i,
{
    if i < headers.len() {
        assert(headers.take(i + 1).drop_last() =~= headers.take(i));
        lemma_headers_bytes_fails(headers, i + 1, e);
    } else {
        assert(headers.take(i) =~= headers);
    }
}

impl<G> Generator<G> {
    /// The cell deps of a transaction on a light client.
    pub fn light_client_cell_deps(&self) -> (r: Result<Vec<CellDep>, Error>)
        ensures
            match resolved_all(light_client_outpoints(self.deployed_contracts)) {
                Ok(deps) => r is Ok && cell_dep_models(r->Ok_0@) == deps,
                Err(e) => r == Err::<Vec<CellDep>, Error>(Error::Outpoint(e)),
            },
    {
        let c = &self.deployed_contracts;
        let outpoints: Vec<OutpointConf> = vec![
            c.dag_merkle_roots.clone(),
            c.light_client_lockscript.outpoint.clone(),
            c.light_client_typescript.outpoint.clone(),
        ];
        assert(conf_models(outpoints@) =~= light_client_outpoints(self.deployed_contracts));
        resolve_cell_deps(outpoints)
    }

    /// Checks whether the start of a light client at a block can be planned or
    /// refused.
    pub fn can_init(&self, block: &EthBlock) -> (r: bool)
        ensures
            r == init_accepted(self.deployed_contracts, *block),
    {
        if self.light_client_cell_deps().is_err() || decode_header(&block.header_rlp).is_err() {
            return true;
        }
        match (block.hash, block.total_difficulty) {
            (Some(_), Some(d)) => d[1] == 0 && d[2] == 0 && d[3] == 0,
            _ => false,
        }
    }

    /// Plans the transaction that starts a light client at a block. Its first
    /// output gets its scripts once the transaction is funded.
    pub fn init_light_client_tx(&self, block: EthBlock, from_lockscript: Script) -> (r: Result<
        TxPlan<NoProof>,
        Error,
    >)
        requires
            init_accepted(self.deployed_contracts, block),
        ensures
            result_model(r) == init_plan(self.deployed_contracts, block, from_lockscript@),
    {
        let cell_deps = match self.light_client_cell_deps() {
            Ok(deps) => deps,
            Err(e) => return Err(e),
        };
        let header = match decode_header(&block.header_rlp) {
            Ok(data) => data,
            Err(e) => return Err(e),
        };
        let total_difficulty: u64 = block.total_difficulty.unwrap()[0];
        let hash = block.hash.unwrap();
        let headers: Vec<Vec<u8>> = vec![copy_bytes(header.as_slice())];
        let output = PlannedOutput {
            capacity: PlannedCapacity::Shannons(LIGHT_CLIENT_CAPACITY),
            lock: Script::unset(),
            type_: None,
            data: CellData::FirstHeader(HeaderInfo { header, total_difficulty, hash }),
        };
        let witness = PlannedWitness::LightClient { headers, cell_dep_index_list: vec![0u8] };
        let plan = TxPlan {
            cell_deps,
            inputs: Vec::new(),
            outputs: vec![output],
            witness: Some(witness),
            tokens: None,
            payer: from_lockscript,
            tx_fee: LIGHT_CLIENT_TX_FEE,
        };
        proof {
            let model = init_plan(self.deployed_contracts, block, from_lockscript@)->Ok_0;
            assert(byte_strings(headers@) =~= seq![header@]);
            assert(plan@.inputs =~= model.inputs);
            assert(plan@.outputs =~= model.outputs);
            assert(plan@.witness->0->LightClient_cell_dep_index_list =~= seq![0u8]);
            assert(plan@ =~= model);
        }
        Ok(plan)
    }

    /// Gives a new light client's cell its scripts, once the transaction is
    /// funded and has `inputs` and `outputs`. The type script's arguments are
    /// the first input's out point, which no other cell's can be.
    pub fn finish_init_light_client_tx(
        &self,
        inputs: &Vec<OutPoint>,
        outputs: Vec<CellOutput>,
        typescript: Script,
        lockscript: Script,
    ) -> (r: Vec<CellOutput>)
        requires
            inputs.len() > 0,
            outputs.len() > 0,
        ensures
            cell_output_models(r@) == cell_output_models(outputs@).update(
                0,
                started_light_client(inputs[0], typescript@, lockscript@),
            ),
    {
        let args = out_point_bytes(&inputs[0]);
        let new_typescript = Script {
            code_hash: typescript.code_hash,
            hash_type: typescript.hash_type,
            args,
        };
        let first = CellOutput {
            capacity: LIGHT_CLIENT_CAPACITY,
            lock: lockscript,
            type_: Some(new_typescript),
        };
        let mut r = outputs;
        r.set(0, first);
        proof {
            let model = started_light_client(inputs[0], typescript@, lockscript@);
            assert(new_typescript@ =~= model.type_->0);
            assert(first@ =~= model);
            assert(cell_output_models(r@) =~= cell_output_models(outputs@).update(0, model));
        }
        r
    }

    /// The stored header that new headers follow. What is to be stored of the
    /// new headers is made from it.
    pub fn light_client_tail(
        &self,
        chain: &HeaderChain,
        known: &Vec<Option<[u8; 32]>>,
        headers: &Vec<EthHeader>,
    ) -> (r: Result<Vec<u8>, Error>)
        requires
            headers.len() > 0,
            update_accepted(
                chain@,
                known@,
                first_parent(headers@),
                headers.len() as int,
            ),
        ensures
            result_model(r) == tail_header(
                chain@,
                known@,
                first_parent(headers@),
                headers.len() as int,
            ),
    {
        find_tail(chain, known, &headers[0].parent_hash, headers.len())
    }

    /// Plans the transaction that works headers into a light client's chain.
    /// `known` are the hashes of the blocks that the chain keeps whole, the
    /// newest last, and `infos` is what is to be stored of the headers.
    pub fn generate_eth_light_client_tx(
        &self,
        headers: &Vec<EthHeader>,
        cell: LightClientCell,
        chain: HeaderChain,
        known: &Vec<Option<[u8; 32]>>,
        infos: Vec<HeaderEntry>,
        from_lockscript: Script,
    ) -> (r: Result<TxPlan<NoProof>, Error>)
        requires
            resolved_all(light_client_outpoints(self.deployed_contracts)) is Ok ==> headers.len()
                > 0 && update_accepted(
                chain@,
                known@,
                first_parent(headers@),
                headers.len() as int,
            ),
        ensures
            result_model(r) == light_client_plan(
                self.deployed_contracts,
                cell,
                chain@,
                known@,
                headers@,
                entry_models(infos@),
                from_lockscript@,
            ),
    {
        let cell_deps = match self.light_client_cell_deps() {
            Ok(deps) => deps,
            Err(e) => return Err(e),
        };
        let after = match update_chain(
            chain,
            known,
            &headers[0].parent_hash,
            headers.len(),
            infos,
        ) {
            Ok(c) => c,
            Err(e) => return Err(e),
        };
        let raw_headers = match decode_headers(headers) {
            Ok(v) => v,
            Err(e) => return Err(e),
        };
        let (main, uncle) = store_chain(after);
        let output = PlannedOutput {
            capacity: PlannedCapacity::Occupied,
            lock: cell.lock,
            type_: cell.type_,
            data: CellData::Headers { main, uncle },
        };
        let witness = PlannedWitness::LightClient {
            headers: raw_headers,
            cell_dep_index_list: vec![0u8],
        };
        let plan = TxPlan {
            cell_deps,
            inputs: vec![cell.out_point],
            outputs: vec![output],
            witness: Some(witness),
            tokens: None,
            payer: from_lockscript,
            tx_fee: LIGHT_CLIENT_TX_FEE,
        };
        proof {
            let model = light_client_plan(
                self.deployed_contracts,
                cell,
                chain@,
                known@,
                headers@,
                entry_models(infos@),
                from_lockscript@,
            )->Ok_0;
            assert(plan@.inputs =~= model.inputs);
            assert(plan@.outputs =~= model.outputs);
            assert(plan@.witness->0->LightClient_cell_dep_index_list =~= seq![0u8]);
            assert(plan@ =~= model);
        }
        Ok(plan)
    }

    /// Puts the encoded witness of a transaction on a light client where the
    /// type script looks for it.
    pub fn light_client_witness_args(&self, encoded: &Vec<u8>) -> (r: Vec<u8>)
        requires
            20 + encoded.len() <= u32::MAX,
        ensures
            r@ == witness_encoding(encoded@),
    {
        witness_args_bytes(encoded.as_slice())
    }
}

/// Headers decode exactly if each of them does, each at its own place.
pub proof fn law_headers_decode_each(headers: Seq<EthHeader>)
    ensures
        headers_bytes(headers) is Ok <==> (forall|i: int|
            0 <= i < headers.len() ==> header_bytes(rlp_model((#[trigger] headers[i]).rlp)) is Ok),
        headers_bytes(headers) is Ok ==> headers_bytes(headers)->Ok_0.len() == headers.len(),
        headers_bytes(headers) is Ok ==> forall|i: int|
            0 <= i < headers.len() ==> Ok::<Seq<u8>, ErrorModel>(
                #[trigger] headers_bytes(headers)->Ok_0[i],
            ) == header_bytes(rlp_model(headers[i].rlp)),
    decreases headers.len(),
{
    if headers.len() > 0 {
        let front = headers.drop_last();
        law_headers_decode_each(front);
        if headers_bytes(headers) is Ok {
            let decoded = headers_bytes(headers)->Ok_0;
            let before = headers_bytes(front)->Ok_0;
            assert forall|i: int| 0 <= i < headers.len() implies Ok::<Seq<u8>, ErrorModel>(
                #[trigger] decoded[i],
            ) == header_bytes(rlp_model(headers[i].rlp)) by {
                if i < front.len() {
                    assert(decoded[i] == before[i]);
                    assert(front[i] == headers[i]);
                }
            }
            assert forall|i: int| 0 <= i < headers.len() implies header_bytes(
                rlp_model((#[trigger] headers[i]).rlp),
            ) is Ok by {
                assert(Ok::<Seq<u8>, ErrorModel>(decoded[i]) == header_bytes(
                    rlp_model(headers[i].rlp),
                ));
            }
        } else if forall|i: int|
            0 <= i < headers.len() ==> header_bytes(
                rlp_model((#[trigger] headers[i]).rlp),
            ) is Ok {
            assert forall|i: int| 0 <= i < front.len() implies header_bytes(
                rlp_model((#[trigger] front[i]).rlp),
            ) is Ok by {
                assert(front[i] == headers[i]);
            }
            assert(header_bytes(rlp_model(headers[headers.len() - 1].rlp)) is Ok);
        }
    }
}

} // verus!
