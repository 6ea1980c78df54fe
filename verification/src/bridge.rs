//! Transactions on bridge cells: making them, and handing out bridged tokens.
use crate::bytes::{amount_bytes, copy_bytes, le_bytes, same_bytes};
use crate::ckb::{
    ckb_hash, out_point_from_slice, script_bytes, script_from_slice, script_hash,
};
use crate::config::{
    add_cell_deps, conf_models, data_script, hash_of, make_data_script, parse_hash,
    resolve_cell_deps, resolved_all,
};
use crate::error::{result_model, Error, ErrorModel};
use crate::generator::Generator;
use crate::molecule::{
    is_script, law_out_point_read_back, law_script_read_back, out_point_encoding, out_point_of,
    script_encodable, script_encoding, script_of, ScriptModel,
};
use crate::plan::{
    cell_dep_models, output_models, CellData, CellDataModel, NoProof, PlannedCapacity,
    PlannedOutput, PlannedOutputModel, PlannedWitness, TxPlan, TxPlanModel, WitnessModel,
};
use crate::types::{
    option_script, CellDep, CellDepModel, CellOutput, DepType, DeployedContracts, Lookup,
    OutPoint, OutpointConf, OutpointModel, Script,
};
use vstd::prelude::*;

verus! {

/// Number of shannons in one CKB.
pub const ONE_CKB: u64 = 100_000_000;

/// Fee of a transaction that hands out bridged tokens: half a CKB.
pub const SPV_TX_FEE: u64 = ONE_CKB / 2;

/// A proof that tokens were locked on Ethereum: what it says, and the proof
/// itself as `spv_proof`, which the contracts check.
#[derive(Debug)]
pub struct EthSpvProof<P> {
    pub token: [u8; 20],
    pub eth_address: [u8; 20],
    pub lock_amount: u128,
    pub bridge_fee: u128,
    pub recipient_lockscript: Vec<u8>,
    pub replay_resist_outpoint: Vec<u8>,
    pub sudt_extra_data: Vec<u8>,
    pub spv_proof: P,
}

/// Which token of which Ethereum contract a bridge lock stands for.
#[derive(Clone, Copy, Debug, PartialEq, Eq)]
pub struct EthBridgeLockArgs {
    pub eth_token_address: [u8; 20],
    pub eth_contract_address: [u8; 20],
}

/// A live bridge cell: the output, its data, and the owner that the data name.
#[derive(Debug)]
pub struct BridgeCell {
    pub output: CellOutput,
    pub data: Vec<u8>,
    pub owner_lock_script: Vec<u8>,
}

/// The configured cell deps of a transaction that hands out bridged tokens.
pub open spec fn spv_outpoints(c: DeployedContracts) -> Seq<OutpointModel> {
    seq![c.bridge_lockscript.outpoint@, c.bridge_typescript.outpoint@, c.sudt.outpoint@]
}

/// All cell deps of a transaction that hands out bridged tokens: first the
/// light client's cell, which the proof is checked against.
pub open spec fn spv_deps(c: DeployedContracts, light_client: Lookup<OutPoint>) -> Result<
    Seq<CellDepModel>,
    ErrorModel,
> {
    match light_client {
        Lookup::Failed(e) => Err(ErrorModel::Rpc(e@)),
        Lookup::Missing => Err(ErrorModel::CellDepMissing),
        Lookup::Found(out_point) => match resolved_all(spv_outpoints(c)) {
            Err(e) => Err(ErrorModel::Outpoint(e)),
            Ok(deps) => Ok(
                seq![CellDepModel { out_point: out_point@, dep_type: DepType::Code }] + deps,
            ),
        },
    }
}

/// The bridge lock with these arguments, whose hash tells its tokens apart.
pub open spec fn spv_lockscript(c: DeployedContracts, lock_args: Seq<u8>) -> Result<
    ScriptModel,
    ErrorModel,
> {
    data_script(c.bridge_lockscript.code_hash@, lock_args)
}

/// The type script of the tokens that a bridge lock with this hash may issue.
pub open spec fn token_script(c: DeployedContracts, lock_hash: Seq<u8>) -> Result<
    ScriptModel,
    ErrorModel,
> {
    data_script(c.sudt.code_hash@, lock_hash)
}

/// An output with tokens. The amount comes first in its data.
pub open spec fn token_output(
    amount: nat,
    extra: Seq<u8>,
    token: ScriptModel,
    lock: ScriptModel,
) -> PlannedOutputModel {
    PlannedOutputModel {
        capacity: PlannedCapacity::Occupied,
        lock,
        type_: Some(token),
        data: CellDataModel::Raw(le_bytes(amount, 16) + extra),
    }
}

/// The outputs of a transaction that hands out bridged tokens: what was locked
/// less the fee for the recipient, the fee, if there is one, for the payer, and
/// the bridge cell again.
pub open spec fn spv_outputs<P>(
    token: ScriptModel,
    eth_proof: EthSpvProof<P>,
    bridge: BridgeCell,
    payer: ScriptModel,
) -> Seq<PlannedOutputModel> {
    let recipient = token_output(
        (eth_proof.lock_amount - eth_proof.bridge_fee) as nat,
        eth_proof.sudt_extra_data@,
        token,
        script_of(eth_proof.recipient_lockscript@),
    );
    let fee = if eth_proof.bridge_fee == 0 {
        Seq::empty()
    } else {
        seq![token_output(eth_proof.bridge_fee as nat, Seq::empty(), token, payer)]
    };
    let again = PlannedOutputModel {
        capacity: PlannedCapacity::Shannons(bridge.output.capacity),
        lock: bridge.output.lock@,
        type_: option_script(bridge.output.type_),
        data: CellDataModel::Raw(bridge.data@),
    };
    seq![recipient] + fee + seq![again]
}

/// Whether a proof can be paid out: it names a recipient, and the fee is part
/// of what was locked.
pub open spec fn can_pay_out<P>(eth_proof: EthSpvProof<P>) -> bool {
    is_script(eth_proof.recipient_lockscript@) && eth_proof.bridge_fee <= eth_proof.lock_amount
}

/// Whether handing out what a proof says can be planned or refused. If nothing
/// was wrong before, the proof names the bridge cell that it uses up; if that
/// is the payer's own, the proof names a recipient; and if the token's type
/// script can be made, the fee is part of what was locked.
pub open spec fn spv_accepted<P>(
    c: DeployedContracts,
    light_client: Lookup<OutPoint>,
    lock_args: Seq<u8>,
    eth_proof: EthSpvProof<P>,
    bridge: BridgeCell,
    payer: ScriptModel,
) -> bool {
    spv_deps(c, light_client) is Ok && spv_lockscript(c, lock_args) is Ok ==> {
        &&& eth_proof.replay_resist_outpoint@.len() == 36
        &&& bridge.owner_lock_script@ == script_encoding(payer) ==> {
            &&& is_script(eth_proof.recipient_lockscript@)
            &&& hash_of(c.sudt.code_hash@) is Ok ==> can_pay_out(eth_proof)
        }
    }
}

/// The transaction that hands out bridged tokens.
pub open spec fn spv_plan<P>(
    c: DeployedContracts,
    light_client: Lookup<OutPoint>,
    lock_args: Seq<u8>,
    eth_proof: EthSpvProof<P>,
    bridge: BridgeCell,
    payer: ScriptModel,
) -> Result<TxPlanModel<P>, ErrorModel> {
    match spv_deps(c, light_client) {
        Err(e) => Err(e),
        Ok(cell_deps) => match spv_lockscript(c, lock_args) {
            Err(e) => Err(e),
            Ok(lockscript) => if bridge.owner_lock_script@ != script_encoding(payer) {
                Err(ErrorModel::ForeignBridgeCell)
            } else {
                match token_script(c, ckb_hash(script_encoding(lockscript))) {
                    Err(e) => Err(e),
                    Ok(token) => Ok(
                        TxPlanModel {
                            cell_deps,
                            inputs: seq![out_point_of(eth_proof.replay_resist_outpoint@)],
                            outputs: spv_outputs(token, eth_proof, bridge, payer),
                            witness: Some(
                                WitnessModel::SpvProof {
                                    cell_dep_index_list: seq![0u8],
                                    spv_proof: eth_proof.spv_proof,
                                },
                            ),
                            tokens: None,
                            payer,
                            tx_fee: SPV_TX_FEE,
                        },
                    ),
                }
            },
        },
    }
}

/// The configured cell deps of a transaction that makes bridge cells.
pub open spec fn bridge_outpoints(c: DeployedContracts) -> Seq<OutpointModel> {
    seq![c.bridge_lockscript.outpoint@, c.bridge_typescript.outpoint@]
}

/// A new bridge cell. Its owner is named by the byte form of a lock.
pub open spec fn bridge_output(
    capacity: u64,
    owner: ScriptModel,
    typescript: ScriptModel,
    lockscript: ScriptModel,
    fee: u128,
) -> PlannedOutputModel {
    PlannedOutputModel {
        capacity: PlannedCapacity::Shannons(capacity),
        lock: lockscript,
        type_: Some(typescript),
        data: CellDataModel::Bridge { owner_lock_script: script_encoding(owner), fee },
    }
}

/// The transaction that makes bridge cells, all alike.
pub open spec fn create_bridge_plan(
    c: DeployedContracts,
    tx_fee: u64,
    output: PlannedOutputModel,
    cell_num: nat,
    payer: ScriptModel,
) -> Result<TxPlanModel<NoProof>, ErrorModel> {
    match resolved_all(bridge_outpoints(c)) {
        Err(e) => Err(ErrorModel::Outpoint(e)),
        Ok(cell_deps) => Ok(
            TxPlanModel {
                cell_deps,
                inputs: Seq::empty(),
                outputs: Seq::new(cell_num, |i: int| output),
                witness: None,
                tokens: None,
                payer,
                tx_fee,
            },
        ),
    }
}

impl<G> Generator<G> {
    /// The text of the light client's script, if the contracts are deployed.
    pub fn spv_light_client_script(&self, configured: Option<String>) -> (r: Result<
        String,
        Error,
    >)
        ensures
            match configured {
                Some(text) => r is Ok && r->Ok_0@ == text@,
                None => r is Err && r->Err_0@ == ErrorModel::NotDeployed,
            },
    {
        match configured {
            Some(text) => Ok(text),
            None => Err(Error::NotDeployed),
        }
    }

    /// The cell deps of a transaction that hands out bridged tokens, once the
    /// light client's cell was looked up.
    pub fn spv_cell_deps(&self, light_client: &Lookup<OutPoint>) -> (r: Result<
        Vec<CellDep>,
        Error,
    >)
        ensures
            match spv_deps(self.deployed_contracts, *light_client) {
                Ok(deps) => r is Ok && cell_dep_models(r->Ok_0@) == deps,
                Err(e) => r is Err && r->Err_0@ == e,
            },
    {
        let out_point = match light_client {
            Lookup::Failed(e) => return Err(Error::Rpc(e.clone())),
            Lookup::Missing => return Err(Error::CellDepMissing),
            Lookup::Found(out_point) => *out_point,
        };
        let mut cell_deps: Vec<CellDep> = vec![CellDep { out_point, dep_type: DepType::Code }];
        let c = &self.deployed_contracts;
        let outpoints: Vec<OutpointConf> = vec![
            c.bridge_lockscript.outpoint.clone(),
            c.bridge_typescript.outpoint.clone(),
            c.sudt.outpoint.clone(),
        ];
        assert(conf_models(outpoints@) =~= spv_outpoints(self.deployed_contracts));
        assert(cell_dep_models(cell_deps@) =~= seq![
            CellDepModel { out_point: out_point@, dep_type: DepType::Code },
        ]);
        match add_cell_deps(&mut cell_deps, outpoints) {
            Ok(()) => Ok(cell_deps),
            Err(e) => Err(e),
        }
    }

    /// Which token a proof is about, as the bridge lock's arguments say it.
    pub fn spv_lock_args<P>(&self, eth_proof: &EthSpvProof<P>) -> (r: EthBridgeLockArgs)
        ensures
            r.eth_token_address == eth_proof.token,
            r.eth_contract_address == eth_proof.eth_address,
    {
        EthBridgeLockArgs {
            eth_token_address: eth_proof.token,
            eth_contract_address: eth_proof.eth_address,
        }
    }

    /// The bridge lock with these encoded arguments.
    pub fn spv_lockscript(&self, lock_args: &Vec<u8>) -> (r: Result<Script, Error>)
        ensures
            result_model(r) == spv_lockscript(self.deployed_contracts, lock_args@),
    {
        make_data_script(
            &self.deployed_contracts.bridge_lockscript.code_hash,
            copy_bytes(lock_args.as_slice()),
        )
    }

    /// The bridge cell that a proof uses up, so that it cannot be used again.
    pub fn spv_input<P>(&self, eth_proof: &EthSpvProof<P>) -> (r: OutPoint)
        requires
            eth_proof.replay_resist_outpoint.len() == 36,
        ensures
            r@ == out_point_of(eth_proof.replay_resist_outpoint@),
            out_point_encoding(r@) == eth_proof.replay_resist_outpoint@,
    {
        let r = out_point_from_slice(eth_proof.replay_resist_outpoint.as_slice()).unwrap();
        proof {
            law_out_point_read_back(r@);
        }
        r
    }

    /// The type script of the tokens that a bridge lock with this hash may
    /// issue.
    pub fn token_typescript(&self, lock_hash: &[u8; 32]) -> (r: Result<Script, Error>)
        ensures
            result_model(r) == token_script(self.deployed_contracts, lock_hash@),
    {
        make_data_script(
            &self.deployed_contracts.sudt.code_hash,
            copy_bytes(lock_hash.as_slice()),
        )
    }

    /// The outputs of a transaction that hands out tokens of this type.
    pub fn spv_outputs<P>(
        &self,
        token: &Script,
        eth_proof: &EthSpvProof<P>,
        bridge: BridgeCell,
        from_lockscript: &Script,
    ) -> (r: Vec<PlannedOutput>)
        requires
            can_pay_out(*eth_proof),
        ensures
            output_models(r@) == spv_outputs(token@, *eth_proof, bridge, from_lockscript@),
    {
        let recipient = recipient_script(&eth_proof.recipient_lockscript);
        let mut data = amount_bytes(eth_proof.lock_amount - eth_proof.bridge_fee);
        let mut extra = copy_bytes(eth_proof.sudt_extra_data.as_slice());
        data.append(&mut extra);
        let mut outputs: Vec<PlannedOutput> = vec![
            PlannedOutput {
                capacity: PlannedCapacity::Occupied,
                lock: recipient,
                type_: Some(token.clone()),
                data: CellData::Raw(data),
            },
        ];
        if eth_proof.bridge_fee != 0 {
            outputs.push(
                PlannedOutput {
                    capacity: PlannedCapacity::Occupied,
                    lock: from_lockscript.clone(),
                    type_: Some(token.clone()),
                    data: CellData::Raw(amount_bytes(eth_proof.bridge_fee)),
                },
            );
        }
        assert(le_bytes(eth_proof.bridge_fee as nat, 16) + Seq::<u8>::empty() =~= le_bytes(
            eth_proof.bridge_fee as nat,
            16,
        ));
        outputs.push(
            PlannedOutput {
                capacity: PlannedCapacity::Shannons(bridge.output.capacity),
                lock: bridge.output.lock,
                type_: bridge.output.type_,
                data: CellData::Raw(bridge.data),
            },
        );
        assert(output_models(outputs@) =~= spv_outputs(
            token@,
            *eth_proof,
            bridge,
            from_lockscript@,
        ));
        outputs
    }

    /// Checks whether handing out what a proof says can be planned or refused.
    pub fn can_generate_eth_spv_tx<P>(
        &self,
        light_client: &Lookup<OutPoint>,
        lock_args: &Vec<u8>,
        eth_proof: &EthSpvProof<P>,
        bridge: &BridgeCell,
        from_lockscript: &Script,
    ) -> (r: bool)
        requires
            script_encodable(from_lockscript@),
        ensures
            r == spv_accepted(
                self.deployed_contracts,
                *light_client,
                lock_args@,
                *eth_proof,
                *bridge,
                from_lockscript@,
            ),
    {
        if self.spv_cell_deps(light_client).is_err() || self.spv_lockscript(lock_args).is_err() {
            return true;
        }
        if eth_proof.replay_resist_outpoint.len() != 36 {
            return false;
        }
        let payer = script_bytes(from_lockscript);
        if !same_bytes(bridge.owner_lock_script.as_slice(), payer.as_slice()) {
            return true;
        }
        let data = &eth_proof.recipient_lockscript;
        match script_from_slice(data.as_slice()) {
            Some(script) => {
                proof {
                    law_script_read_back(script@);
                }
            },
            None => {
                assert(script_encodable(script_of(data@)) ==> script_encoding(
                    script_of(data@),
                ) != data@);
                return false;
            },
        }
        parse_hash(&self.deployed_contracts.sudt.code_hash).is_err() || eth_proof.bridge_fee
            <= eth_proof.lock_amount
    }

    /// Plans the transaction that hands out tokens which were locked on
    /// Ethereum. Only the owner of the bridge cell that the proof uses up can
    /// pay for it.
    pub fn generate_eth_spv_tx<P>(
        &self,
        light_client: &Lookup<OutPoint>,
        lock_args: &Vec<u8>,
        eth_proof: EthSpvProof<P>,
        bridge: BridgeCell,
        from_lockscript: Script,
    ) -> (r: Result<TxPlan<P>, Error>)
        requires
            script_encodable(from_lockscript@),
            53 + lock_args.len() <= u32::MAX,
            spv_accepted(
                self.deployed_contracts,
                *light_client,
                lock_args@,
                eth_proof,
                bridge,
                from_lockscript@,
            ),
        ensures
            result_model(r) == spv_plan(
                self.deployed_contracts,
                *light_client,
                lock_args@,
                eth_proof,
                bridge,
                from_lockscript@,
            ),
    {
        let cell_deps = match self.spv_cell_deps(light_client) {
            Ok(deps) => deps,
            Err(e) => return Err(e),
        };
        let lockscript = match self.spv_lockscript(lock_args) {
            Ok(script) => script,
            Err(e) => return Err(e),
        };
        let input = self.spv_input(&eth_proof);
        let payer = script_bytes(&from_lockscript);
        if !same_bytes(bridge.owner_lock_script.as_slice(), payer.as_slice()) {
            return Err(Error::ForeignBridgeCell);
        }
        let lock_hash = script_hash(&lockscript);
        let token = match self.token_typescript(&lock_hash) {
            Ok(script) => script,
            Err(e) => return Err(e),
        };
        let outputs = self.spv_outputs(&token, &eth_proof, bridge, &from_lockscript);
        let plan = TxPlan {
            cell_deps,
            inputs: vec![input],
            outputs,
            witness: Some(
                PlannedWitness::SpvProof {
                    cell_dep_index_list: vec![0u8],
                    spv_proof: eth_proof.spv_proof,
                },
            ),
            tokens: None,
            payer: from_lockscript,
            tx_fee: SPV_TX_FEE,
        };
        proof {
            let model = spv_plan(
                self.deployed_contracts,
                *light_client,
                lock_args@,
                eth_proof,
                bridge,
                from_lockscript@,
            )->Ok_0;
            assert(plan@.inputs =~= model.inputs);
            assert(plan@.witness->0->SpvProof_cell_dep_index_list =~= seq![0u8]);
            assert(plan@ =~= model);
        }
        Ok(plan)
    }

    /// Plans the transaction that makes `cell_num` bridge cells.
    pub fn create_bridge_cell(
        &self,
        tx_fee: u64,
        capacity: u64,
        from_lockscript: Script,
        bridge_typescript: Script,
        bridge_lockscript: Script,
        bridge_fee: u128,
        cell_num: usize,
    ) -> (r: Result<TxPlan<NoProof>, Error>)
        requires
            script_encodable(from_lockscript@),
        ensures
            result_model(r) == create_bridge_plan(
                self.deployed_contracts,
                tx_fee,
                bridge_output(
                    capacity,
                    from_lockscript@,
                    bridge_typescript@,
                    bridge_lockscript@,
                    bridge_fee,
                ),
                cell_num as nat,
                from_lockscript@,
            ),
    {
        let c = &self.deployed_contracts;
        let outpoints: Vec<OutpointConf> = vec![
            c.bridge_lockscript.outpoint.clone(),
            c.bridge_typescript.outpoint.clone(),
        ];
        assert(conf_models(outpoints@) =~= bridge_outpoints(self.deployed_contracts));
        let cell_deps = match resolve_cell_deps(outpoints) {
            Ok(deps) => deps,
            Err(e) => return Err(e),
        };
        let owner = script_bytes(&from_lockscript);
        let ghost output = bridge_output(
            capacity,
            from_lockscript@,
            bridge_typescript@,
            bridge_lockscript@,
            bridge_fee,
        );
        let mut outputs: Vec<PlannedOutput> = Vec::new();
        let mut i: usize = 0;
        while i < cell_num
            invariant
                i <= cell_num,
                outputs.len() == i,
                owner@ == script_encoding(from_lockscript@),
                output == bridge_output(
                    capacity,
                    from_lockscript@,
                    bridge_typescript@,
                    bridge_lockscript@,
                    bridge_fee,
                ),
                forall|j: int| 0 <= j < i ==> #[trigger] outputs@[j]@ == output,
            decreases cell_num - i,
        {
            outputs.push(
                PlannedOutput {
                    capacity: PlannedCapacity::Shannons(capacity),
                    lock: bridge_lockscript.clone(),
                    type_: Some(bridge_typescript.clone()),
                    data: CellData::Bridge {
                        owner_lock_script: copy_bytes(owner.as_slice()),
                        fee: bridge_fee,
                    },
                },
            );
            i = i + 1;
        }
        let plan = TxPlan {
            cell_deps,
            inputs: Vec::new(),
            outputs,
            witness: None,
            tokens: None,
            payer: from_lockscript,
            tx_fee,
        };
        proof {
            assert(plan@.inputs =~= Seq::empty());
            assert(plan@.outputs =~= Seq::new(cell_num as nat, |i: int| output));
        }
        Ok(plan)
    }
}

/// The recipient's lock, from its byte form.
fn recipient_script(data: &Vec<u8>) -> (r: Script)
    requires
        is_script(data@),
    ensures
        r@ == script_of(data@),
{
    let r = script_from_slice(data.as_slice());
    assert(script_encodable(script_of(data@)) && script_encoding(script_of(data@)) == data@);
    let script = r.unwrap();
    proof {
        law_script_read_back(script@);
    }
    script
}

} // verus!
