//! Transactions that move bridged tokens: back to Ethereum, or to someone else.
use crate::bytes::{amount_bytes, le_bytes};
use crate::ckb::byte32_from_slice;
use crate::config::{
    conf_models, data_script, make_data_script, resolve_cell_deps, resolved_all,
};
use crate::error::{result_model, Error, ErrorModel, FieldError};
use crate::generator::Generator;
use crate::hexadecimal::{hex_decode, hex_decoded};
use crate::molecule::ScriptModel;
use crate::plan::{
    cell_dep_models, CellData, CellDataModel, EthRecipientData, EthRecipientModel,
    NoProof, PlannedCapacity, PlannedOutput, PlannedOutputModel, TokenDemand, TokenDemandModel,
    TxPlan, TxPlanModel,
};
use crate::types::{CellDep, DeployedContracts, OutpointConf, OutpointModel, Script};
use vstd::prelude::*;
use vstd::utf8::encode_utf8;

verus! {

/// What decides the type script of a bridged token: the code of the bridge lock
/// and of the token, the token's address on Ethereum, and that of the contract
/// that locks it there.
#[derive(Debug, PartialEq, Eq)]
pub struct TokenQuery {
    pub bridge_lock_code_hash: String,
    pub sudt_code_hash: String,
    pub token_addr: [u8; 20],
    pub lock_contract_addr: [u8; 20],
}

/// What a `TokenQuery` stands for.
#[verifier::ext_equal]
pub struct TokenQueryModel {
    pub bridge_lock_code_hash: Seq<char>,
    pub sudt_code_hash: Seq<char>,
    pub token_addr: Seq<u8>,
    pub lock_contract_addr: Seq<u8>,
}

impl View for TokenQuery {
    type V = TokenQueryModel;

    open spec fn view(&self) -> TokenQueryModel {
        TokenQueryModel {
            bridge_lock_code_hash: self.bridge_lock_code_hash@,
            sudt_code_hash: self.sudt_code_hash@,
            token_addr: self.token_addr@,
            lock_contract_addr: self.lock_contract_addr@,
        }
    }
}

/// What decides the type script of a token of an Ethereum contract.
pub open spec fn token_query(
    c: DeployedContracts,
    token_addr: Seq<u8>,
    lock_contract_addr: Seq<u8>,
) -> TokenQueryModel {
    TokenQueryModel {
        bridge_lock_code_hash: c.bridge_lockscript.code_hash@,
        sudt_code_hash: c.sudt.code_hash@,
        token_addr,
        lock_contract_addr,
    }
}

/// The token that a burn is about.
pub open spec fn burn_token(
    c: DeployedContracts,
    token_addr: Seq<u8>,
    lock_contract_addr: Seq<u8>,
) -> TokenQueryModel {
    token_query(c, token_addr, lock_contract_addr)
}

/// The token that a transfer is about, which names the contract first.
pub open spec fn transfer_token(
    c: DeployedContracts,
    lock_contract_addr: Seq<u8>,
    token_addr: Seq<u8>,
) -> TokenQueryModel {
    token_query(c, token_addr, lock_contract_addr)
}

/// The token that is counted for a balance.
pub open spec fn balance_token(
    c: DeployedContracts,
    token_addr: Seq<u8>,
    lock_contract_addr: Seq<u8>,
) -> TokenQueryModel {
    token_query(c, token_addr, lock_contract_addr)
}

/// The configured cell deps of a transaction that burns tokens, those of the
/// wallet locks last.
pub open spec fn burn_outpoints(c: DeployedContracts) -> Seq<OutpointModel> {
    seq![c.bridge_lockscript.outpoint@, c.recipient_typescript.outpoint@, c.sudt.outpoint@]
        + conf_models(c.pw_locks.inner@)
}

/// What is recorded of burnt tokens for Ethereum to see.
pub open spec fn recipient_data(
    c: DeployedContracts,
    unlock_fee: u128,
    burn_sudt_amount: u128,
    token_addr: Seq<u8>,
    lock_contract_addr: Seq<u8>,
    eth_receiver_addr: Seq<u8>,
) -> Result<EthRecipientModel, ErrorModel> {
    match hex_decoded(encode_utf8(c.bridge_lockscript.code_hash@)) {
        Err(e) => Err(ErrorModel::CodeHash(FieldError::Hex(e))),
        Ok(eth_bridge_lock_hash) => Ok(
            EthRecipientModel {
                eth_recipient_address: eth_receiver_addr,
                eth_token_address: token_addr,
                eth_lock_contract_address: lock_contract_addr,
                eth_bridge_lock_hash,
                token_amount: burn_sudt_amount,
                fee: unlock_fee,
            },
        ),
    }
}

/// Whether the bridge lock's configured code hash, if it is hexadecimal, has
/// the size of a hash.
pub open spec fn bridge_lock_hash_fits(c: DeployedContracts) -> bool {
    hex_decoded(encode_utf8(c.bridge_lockscript.code_hash@)) is Ok ==> hex_decoded(
        encode_utf8(c.bridge_lockscript.code_hash@),
    )->Ok_0.len() == 32
}

/// Whether a burn can be planned or refused: if its cell deps are valid, the
/// bridge lock's code hash has the size of a hash.
pub open spec fn burn_accepted(c: DeployedContracts) -> bool {
    resolved_all(burn_outpoints(c)) is Ok ==> bridge_lock_hash_fits(c)
}

/// The transaction that burns tokens of the type `token`. The payer brings
/// them in, and the one output only records them.
pub open spec fn burn_plan(
    c: DeployedContracts,
    tx_fee: u64,
    payer: ScriptModel,
    recorded: Result<EthRecipientModel, ErrorModel>,
    token: ScriptModel,
) -> Result<TxPlanModel<NoProof>, ErrorModel> {
    match resolved_all(burn_outpoints(c)) {
        Err(e) => Err(ErrorModel::Outpoint(e)),
        Ok(cell_deps) => match recorded {
            Err(e) => Err(e),
            Ok(data) => match data_script(c.recipient_typescript.code_hash@, Seq::empty()) {
                Err(e) => Err(e),
                Ok(typescript) => Ok(
                    TxPlanModel {
                        cell_deps,
                        inputs: Seq::empty(),
                        outputs: seq![
                            PlannedOutputModel {
                                capacity: PlannedCapacity::Occupied,
                                lock: payer,
                                type_: Some(typescript),
                                data: CellDataModel::EthRecipient(data),
                            },
                        ],
                        witness: None,
                        tokens: Some(
                            TokenDemandModel { amount: data.token_amount, typescript: token },
                        ),
                        payer,
                        tx_fee,
                    },
                ),
            },
        },
    }
}

/// The configured cell deps of a transaction that transfers tokens.
pub open spec fn transfer_outpoints(c: DeployedContracts) -> Seq<OutpointModel> {
    seq![c.bridge_lockscript.outpoint@, c.sudt.outpoint@]
}

/// The transaction that transfers tokens of the type `token`. The payer brings
/// in as many as the one output has.
pub open spec fn transfer_plan(
    c: DeployedContracts,
    payer: ScriptModel,
    to: ScriptModel,
    token: ScriptModel,
    sudt_amount: u128,
    ckb_amount: u64,
    tx_fee: u64,
) -> Result<TxPlanModel<NoProof>, ErrorModel> {
    match resolved_all(transfer_outpoints(c)) {
        Err(e) => Err(ErrorModel::Outpoint(e)),
        Ok(cell_deps) => Ok(
            TxPlanModel {
                cell_deps,
                inputs: Seq::empty(),
                outputs: seq![
                    PlannedOutputModel {
                        capacity: PlannedCapacity::Shannons(ckb_amount),
                        lock: to,
                        type_: Some(token),
                        data: CellDataModel::Raw(le_bytes(sudt_amount as nat, 16)),
                    },
                ],
                witness: None,
                tokens: Some(TokenDemandModel { amount: sudt_amount, typescript: token }),
                payer,
                tx_fee,
            },
        ),
    }
}

/// Copies of configured cell deps.
fn copy_confs(confs: &Vec<OutpointConf>) -> (r: Vec<OutpointConf>)
    ensures
        conf_models(r@) == conf_models(confs@),
{
    let mut r: Vec<OutpointConf> = Vec::new();
    let mut i: usize = 0;
    while i < confs.len()
        invariant
            i <= confs.len(),
            r.len() == i,
            forall|j: int| 0 <= j < i ==> #[trigger] r@[j]@ == confs@[j]@,
        decreases confs.len() - i,
    {
        r.push(confs[i].clone());
        i = i + 1;
    }
    assert(conf_models(r@) =~= conf_models(confs@));
    r
}

impl<G> Generator<G> {
    /// What decides the type script of a token of an Ethereum contract.
    pub fn token_query(&self, token_addr: &[u8; 20], lock_contract_addr: &[u8; 20]) -> (r:
        TokenQuery)
        ensures
            r@ == token_query(self.deployed_contracts, token_addr@, lock_contract_addr@),
    {
        TokenQuery {
            bridge_lock_code_hash: self.deployed_contracts.bridge_lockscript.code_hash.clone(),
            sudt_code_hash: self.deployed_contracts.sudt.code_hash.clone(),
            token_addr: *token_addr,
            lock_contract_addr: *lock_contract_addr,
        }
    }

    /// The token that a burn is about. Its type script is what `burn` takes.
    pub fn burn_token(&self, token_addr: &[u8; 20], lock_contract_addr: &[u8; 20]) -> (r:
        TokenQuery)
        ensures
            r@ == burn_token(self.deployed_contracts, token_addr@, lock_contract_addr@),
    {
        self.token_query(token_addr, lock_contract_addr)
    }

    /// The token that a transfer is about. Its type script is what
    /// `transfer_sudt` takes.
    pub fn transfer_token(&self, lock_contract_addr: &[u8; 20], token_addr: &[u8; 20]) -> (r:
        TokenQuery)
        ensures
            r@ == transfer_token(self.deployed_contracts, lock_contract_addr@, token_addr@),
    {
        self.token_query(token_addr, lock_contract_addr)
    }

    /// The token that is counted for a balance.
    pub fn balance_token(&self, token_addr: &[u8; 20], lock_contract_addr: &[u8; 20]) -> (r:
        TokenQuery)
        ensures
            r@ == balance_token(self.deployed_contracts, token_addr@, lock_contract_addr@),
    {
        self.token_query(token_addr, lock_contract_addr)
    }

    /// The balance, once the tokens were counted.
    pub fn get_sudt_balance(&self, amount: Result<u128, String>) -> (r: Result<u128, Error>)
        ensures
            match amount {
                Ok(n) => r == Ok::<u128, Error>(n),
                Err(e) => r is Err && r->Err_0@ == ErrorModel::Rpc(e@),
            },
    {
        match amount {
            Ok(n) => Ok(n),
            Err(e) => Err(Error::Rpc(e)),
        }
    }

    /// Checks whether a burn can be planned or refused.
    pub fn can_burn(&self) -> (r: bool)
        ensures
            r == burn_accepted(self.deployed_contracts),
    {
        if self.burn_cell_deps().is_err() {
            return true;
        }
        match hex_decode(self.deployed_contracts.bridge_lockscript.code_hash.as_str().as_bytes()) {
            Ok(hash) => hash.len() == 32,
            Err(_) => true,
        }
    }

    /// The cell deps of a transaction that burns tokens.
    pub fn burn_cell_deps(&self) -> (r: Result<Vec<CellDep>, Error>)
        ensures
            match resolved_all(burn_outpoints(self.deployed_contracts)) {
                Ok(deps) => r is Ok && cell_dep_models(r->Ok_0@) == deps,
                Err(e) => r == Err::<Vec<CellDep>, Error>(Error::Outpoint(e)),
            },
    {
        let c = &self.deployed_contracts;
        let mut outpoints: Vec<OutpointConf> = vec![
            c.bridge_lockscript.outpoint.clone(),
            c.recipient_typescript.outpoint.clone(),
            c.sudt.outpoint.clone(),
        ];
        let ghost own = conf_models(outpoints@);
        let mut pw_locks = copy_confs(&c.pw_locks.inner);
        let ghost others = conf_models(pw_locks@);
        outpoints.append(&mut pw_locks);
        assert(conf_models(outpoints@) =~= own + others);
        assert(conf_models(outpoints@) =~= burn_outpoints(self.deployed_contracts));
        resolve_cell_deps(outpoints)
    }

    /// What is recorded of burnt tokens for Ethereum to see.
    pub fn burn_recipient_data(
        &self,
        unlock_fee: u128,
        burn_sudt_amount: u128,
        token_addr: &[u8; 20],
        lock_contract_addr: &[u8; 20],
        eth_receiver_addr: &[u8; 20],
    ) -> (r: Result<EthRecipientData, Error>)
        requires
            bridge_lock_hash_fits(self.deployed_contracts),
        ensures
            result_model(r) == recipient_data(
                self.deployed_contracts,
                unlock_fee,
                burn_sudt_amount,
                token_addr@,
                lock_contract_addr@,
                eth_receiver_addr@,
            ),
    {
        let ghost model = recipient_data(
            self.deployed_contracts,
            unlock_fee,
            burn_sudt_amount,
            token_addr@,
            lock_contract_addr@,
            eth_receiver_addr@,
        );
        let decoded = hex_decode(
            self.deployed_contracts.bridge_lockscript.code_hash.as_str().as_bytes(),
        );
        match decoded {
            Err(e) => Err(Error::CodeHash(FieldError::Hex(e))),
            Ok(bytes) => {
                let eth_bridge_lock_hash = byte32_from_slice(bytes.as_slice()).unwrap();
                let data = EthRecipientData {
                    eth_recipient_address: *eth_receiver_addr,
                    eth_token_address: *token_addr,
                    eth_lock_contract_address: *lock_contract_addr,
                    eth_bridge_lock_hash,
                    token_amount: burn_sudt_amount,
                    fee: unlock_fee,
                };
                assert(data@ =~= model->Ok_0);
                Ok(data)
            },
        }
    }

    /// Plans the transaction that burns tokens of the type `sudt_typescript`,
    /// so that they can be unlocked on Ethereum.
    pub fn burn(
        &self,
        tx_fee: u64,
        from_lockscript: Script,
        unlock_fee: u128,
        burn_sudt_amount: u128,
        token_addr: &[u8; 20],
        lock_contract_addr: &[u8; 20],
        eth_receiver_addr: &[u8; 20],
        sudt_typescript: Script,
    ) -> (r: Result<TxPlan<NoProof>, Error>)
        requires
            burn_accepted(self.deployed_contracts),
        ensures
            result_model(r) == burn_plan(
                self.deployed_contracts,
                tx_fee,
                from_lockscript@,
                recipient_data(
                    self.deployed_contracts,
                    unlock_fee,
                    burn_sudt_amount,
                    token_addr@,
                    lock_contract_addr@,
                    eth_receiver_addr@,
                ),
                sudt_typescript@,
            ),
    {
        let cell_deps = match self.burn_cell_deps() {
            Ok(deps) => deps,
            Err(e) => return Err(e),
        };
        let data = match self.burn_recipient_data(
            unlock_fee,
            burn_sudt_amount,
            token_addr,
            lock_contract_addr,
            eth_receiver_addr,
        ) {
            Ok(data) => data,
            Err(e) => return Err(e),
        };
        let no_args: Vec<u8> = Vec::new();
        let typescript = match make_data_script(
            &self.deployed_contracts.recipient_typescript.code_hash,
            no_args,
        ) {
            Ok(script) => script,
            Err(e) => return Err(e),
        };
        let output = PlannedOutput {
            capacity: PlannedCapacity::Occupied,
            lock: from_lockscript.clone(),
            type_: Some(typescript),
            data: CellData::EthRecipient(data),
        };
        let plan = TxPlan {
            cell_deps,
            inputs: Vec::new(),
            outputs: vec![output],
            witness: None,
            tokens: Some(
                TokenDemand { amount: burn_sudt_amount, typescript: sudt_typescript },
            ),
            payer: from_lockscript,
            tx_fee,
        };
        proof {
            let model = burn_plan(
                self.deployed_contracts,
                tx_fee,
                from_lockscript@,
                Ok(data@),
                sudt_typescript@,
            )->Ok_0;
            assert(plan@.inputs =~= model.inputs);
            assert(plan@.outputs =~= model.outputs);
            assert(plan@ =~= model);
        }
        Ok(plan)
    }

    /// The cell deps of a transaction that transfers tokens.
    pub fn transfer_cell_deps(&self) -> (r: Result<Vec<CellDep>, Error>)
        ensures
            match resolved_all(transfer_outpoints(self.deployed_contracts)) {
                Ok(deps) => r is Ok && cell_dep_models(r->Ok_0@) == deps,
                Err(e) => r == Err::<Vec<CellDep>, Error>(Error::Outpoint(e)),
            },
    {
        let c = &self.deployed_contracts;
        let outpoints: Vec<OutpointConf> = vec![
            c.bridge_lockscript.outpoint.clone(),
            c.sudt.outpoint.clone(),
        ];
        assert(conf_models(outpoints@) =~= transfer_outpoints(self.deployed_contracts));
        resolve_cell_deps(outpoints)
    }

    /// Plans the transaction that transfers tokens of the type
    /// `sudt_typescript`, in a cell with `ckb_amount` shannons.
    pub fn transfer_sudt(
        &self,
        sudt_typescript: Script,
        from_lockscript: Script,
        to_lockscript: Script,
        sudt_amount: u128,
        ckb_amount: u64,
        tx_fee: u64,
    ) -> (r: Result<TxPlan<NoProof>, Error>)
        ensures
            result_model(r) == transfer_plan(
                self.deployed_contracts,
                from_lockscript@,
                to_lockscript@,
                sudt_typescript@,
                sudt_amount,
                ckb_amount,
                tx_fee,
            ),
    {
        let cell_deps = match self.transfer_cell_deps() {
            Ok(deps) => deps,
            Err(e) => return Err(e),
        };
        let output = PlannedOutput {
            capacity: PlannedCapacity::Shannons(ckb_amount),
            lock: to_lockscript,
            type_: Some(sudt_typescript.clone()),
            data: CellData::Raw(amount_bytes(sudt_amount)),
        };
        let plan = TxPlan {
            cell_deps,
            inputs: Vec::new(),
            outputs: vec![output],
            witness: None,
            tokens: Some(TokenDemand { amount: sudt_amount, typescript: sudt_typescript }),
            payer: from_lockscript,
            tx_fee,
        };
        proof {
            let model = transfer_plan(
                self.deployed_contracts,
                from_lockscript@,
                to_lockscript@,
                sudt_typescript@,
                sudt_amount,
                ckb_amount,
                tx_fee,
            )->Ok_0;
            assert(plan@.inputs =~= model.inputs);
            assert(plan@.outputs =~= model.outputs);
            assert(plan@ =~= model);
        }
        Ok(plan)
    }
}

} // verus!
