//! What holds of every planned transaction.
use crate::bridge::{
    bridge_output, can_pay_out, spv_accepted, spv_deps, spv_lockscript, spv_outputs, spv_plan,
    token_output, BridgeCell, EthSpvProof,
};
use crate::bytes::{
    law_le_bytes_read_back, le_bytes, le_value, lemma_le_bytes_len, lemma_le_capacity_16,
};
use crate::chain::{
    fork_index, hashes, is_block, raws, update_accepted, updated_chain, ChainModel, EntryModel,
    CONFIRM, MAIN_HEADER_CACHE_LIMIT, UNCLE_HEADER_CACHE_LIMIT,
};
use crate::chain_laws::{
    law_branch_records_what_it_passes_over, law_branch_replaces_the_end,
    law_extension_keeps_order, law_extension_within_limits, law_new_headers_come_last,
};
use crate::config::{law_cell_deps_resolve_each, resolved, resolved_all};
use crate::error::{ErrorModel, FieldError};
use crate::hexadecimal::{hex_decoded, HexError};
use crate::light_client::{
    first_parent, init_plan, light_client_outpoints, light_client_plan, started_light_client,
    EthBlock, EthHeader, LightClientCell,
};
use crate::molecule::{
    law_out_point_encoding_injective, law_out_point_written_back,
    law_script_encoding_injective, out_point_encoding, script_encodable, script_encoding,
    script_of, ScriptModel,
};
use crate::plan::{
    CellDataModel, EthRecipientModel, NoProof, PlannedCapacity, PlannedOutputModel, TxPlanModel,
    WitnessModel,
};
use crate::tokens::{
    balance_token, burn_plan, burn_token, recipient_data, token_query, transfer_plan,
    transfer_token,
};
use crate::types::{option_script, CellDepModel, DepType, DeployedContracts, Lookup, OutPoint};
use vstd::prelude::*;
use vstd::utf8::encode_utf8;

verus! {

/// How many tokens of a type an output has: none if it has another type, else
/// the number in the first 16 bytes of its data.
pub open spec fn output_tokens(output: PlannedOutputModel, token: ScriptModel) -> nat {
    if output.type_ == Some(token) && output.data is Raw {
        le_value(output.data->Raw_0.take(16))
    } else {
        0
    }
}

/// How many tokens of a type some outputs have together.
pub open spec fn outputs_tokens(outputs: Seq<PlannedOutputModel>, token: ScriptModel) -> nat
    decreases outputs.len(),
{
    if outputs.len() == 0 {
        0
    } else {
        outputs_tokens(outputs.drop_last(), token) + output_tokens(outputs.last(), token)
    }
}

/// The cell deps that a witness points at.
pub open spec fn witness_indices<P>(witness: WitnessModel<P>) -> Seq<u8> {
    match witness {
        WitnessModel::LightClient { cell_dep_index_list, .. } => cell_dep_index_list,
        WitnessModel::SpvProof { cell_dep_index_list, .. } => cell_dep_index_list,
    }
}

proof fn lemma_dag_roots_first(c: DeployedContracts, cell_deps: Seq<CellDepModel>)
    requires
        resolved_all(light_client_outpoints(c)) == Ok::<
            Seq<CellDepModel>,
            FieldError,
        >(cell_deps),
    ensures
        cell_deps.len() == 3,
        Ok::<CellDepModel, FieldError>(cell_deps[0]) == resolved(c.dag_merkle_roots@),
{
    law_cell_deps_resolve_each(light_client_outpoints(c));
    assert(light_client_outpoints(c)[0] == c.dag_merkle_roots@);
}

/// The witness that starts a light client points at the cell dep with the
/// Merkle roots, and at no other.
pub proof fn law_init_points_at_merkle_roots(
    c: DeployedContracts,
    block: EthBlock,
    payer: ScriptModel,
    plan: TxPlanModel<NoProof>,
)
    requires
        init_plan(c, block, payer) == Ok::<TxPlanModel<NoProof>, ErrorModel>(plan),
    ensures
        plan.witness is Some,
        witness_indices(plan.witness->0).len() == 1,
        Ok::<CellDepModel, FieldError>(
            plan.cell_deps[witness_indices(plan.witness->0)[0] as int],
        ) == resolved(c.dag_merkle_roots@),
{
    lemma_dag_roots_first(c, plan.cell_deps);
}

/// The header that starts a light client is the one that its witness shows.
pub proof fn law_init_stores_the_header_it_shows(
    c: DeployedContracts,
    block: EthBlock,
    payer: ScriptModel,
    plan: TxPlanModel<NoProof>,
)
    requires
        init_plan(c, block, payer) == Ok::<TxPlanModel<NoProof>, ErrorModel>(plan),
    ensures
        plan.outputs.len() == 1,
        plan.outputs[0].data is FirstHeader,
        plan.witness is Some,
        plan.witness->0 is LightClient,
        plan.witness->0->headers == seq![plan.outputs[0].data->header],
{
}

/// The witness that works headers into a light client points at the cell dep
/// with the Merkle roots, and at no other.
pub proof fn law_update_points_at_merkle_roots(
    c: DeployedContracts,
    cell: LightClientCell,
    chain: ChainModel,
    known: Seq<Option<[u8; 32]>>,
    headers: Seq<EthHeader>,
    infos: Seq<EntryModel>,
    payer: ScriptModel,
    plan: TxPlanModel<NoProof>,
)
    requires
        light_client_plan(c, cell, chain, known, headers, infos, payer) == Ok::<
            TxPlanModel<NoProof>,
            ErrorModel,
        >(plan),
    ensures
        plan.witness is Some,
        witness_indices(plan.witness->0).len() == 1,
        Ok::<CellDepModel, FieldError>(
            plan.cell_deps[witness_indices(plan.witness->0)[0] as int],
        ) == resolved(c.dag_merkle_roots@),
{
    lemma_dag_roots_first(c, plan.cell_deps);
}

/// Working headers into a light client keeps its cell's scripts: the one input
/// is the light client's cell, and the one output has its lock and its type.
pub proof fn law_update_keeps_scripts(
    c: DeployedContracts,
    cell: LightClientCell,
    chain: ChainModel,
    known: Seq<Option<[u8; 32]>>,
    headers: Seq<EthHeader>,
    infos: Seq<EntryModel>,
    payer: ScriptModel,
    plan: TxPlanModel<NoProof>,
)
    requires
        light_client_plan(c, cell, chain, known, headers, infos, payer) == Ok::<
            TxPlanModel<NoProof>,
            ErrorModel,
        >(plan),
    ensures
        plan.inputs == seq![cell.out_point@],
        plan.outputs.len() == 1,
        plan.outputs[0].lock == cell.lock@,
        plan.outputs[0].type_ == option_script(cell.type_),
{
}

/// Headers that follow the newest known block leave a stored chain that is
/// within its limit, with what is to be stored of them at its end.
pub proof fn law_update_stores_within_limit(
    c: DeployedContracts,
    cell: LightClientCell,
    chain: ChainModel,
    known: Seq<Option<[u8; 32]>>,
    headers: Seq<EthHeader>,
    infos: Seq<EntryModel>,
    payer: ScriptModel,
    plan: TxPlanModel<NoProof>,
)
    requires
        headers.len() == infos.len(),
        update_accepted(chain, known, first_parent(headers), headers.len() as int),
        is_block(known.last(), first_parent(headers)),
        light_client_plan(c, cell, chain, known, headers, infos, payer) == Ok::<
            TxPlanModel<NoProof>,
            ErrorModel,
        >(plan),
    ensures
        plan.outputs[0].data is Headers,
        plan.outputs[0].data->main.len() <= MAIN_HEADER_CACHE_LIMIT,
        raws(infos).is_suffix_of(plan.outputs[0].data->main),
        plan.outputs[0].data->Headers_uncle == chain.uncle,
{
    let parent = first_parent(headers);
    let count = headers.len() as int;
    let after = updated_chain(chain, known, parent, count, infos)->Ok_0;
    law_extension_within_limits(chain, known, parent, infos, after);
    law_extension_keeps_order(chain, known, parent, count, infos, after);
    law_new_headers_come_last(chain, known, parent, count, infos, after);
}

/// Headers on a branch leave a stored chain, if it was within its limits, that
/// ends with the header they follow and what is to be stored of them. What they
/// pass over is stored beside it, behind what was there before, as far as the
/// limit allows.
pub proof fn law_update_stores_the_branch(
    c: DeployedContracts,
    cell: LightClientCell,
    chain: ChainModel,
    known: Seq<Option<[u8; 32]>>,
    headers: Seq<EthHeader>,
    infos: Seq<EntryModel>,
    payer: ScriptModel,
    plan: TxPlanModel<NoProof>,
)
    requires
        update_accepted(chain, known, first_parent(headers), headers.len() as int),
        !is_block(known.last(), first_parent(headers)),
        chain.unconfirmed.len() <= CONFIRM,
        chain.uncle.len() <= UNCLE_HEADER_CACHE_LIMIT,
        chain.confirmed.len() + chain.unconfirmed.len() + infos.len() <= MAIN_HEADER_CACHE_LIMIT,
        light_client_plan(c, cell, chain, known, headers, infos, payer) == Ok::<
            TxPlanModel<NoProof>,
            ErrorModel,
        >(plan),
    ensures
        plan.outputs[0].data is Headers,
        ({
            let k = fork_index(known, first_parent(headers));
            let all = chain.unconfirmed.take(k) + infos;
            let demoted = if all.len() > CONFIRM {
                all.len() - CONFIRM
            } else {
                0
            };
            let uncles = chain.uncle + raws(chain.unconfirmed.skip(k));
            let over = uncles.len() - UNCLE_HEADER_CACHE_LIMIT;
            &&& plan.outputs[0].data->main == chain.confirmed + hashes(all.take(demoted)) + raws(
                all.skip(demoted),
            )
            &&& plan.outputs[0].data->Headers_uncle == uncles.skip(
                if over > 0 {
                    over
                } else {
                    0
                },
            )
        }),
{
    let parent = first_parent(headers);
    let count = headers.len() as int;
    let after = updated_chain(chain, known, parent, count, infos)->Ok_0;
    law_branch_replaces_the_end(chain, known, parent, count, infos, after);
    law_branch_records_what_it_passes_over(chain, known, parent, count, infos, after);
}

/// Light clients that were started with different first inputs have different
/// type scripts.
pub proof fn law_light_client_type_unique(
    a: OutPoint,
    b: OutPoint,
    typescript_a: ScriptModel,
    typescript_b: ScriptModel,
    lock_a: ScriptModel,
    lock_b: ScriptModel,
)
    requires
        a@ != b@,
    ensures
        started_light_client(a, typescript_a, lock_a).type_ != started_light_client(
            b,
            typescript_b,
            lock_b,
        ).type_,
{
    let s = started_light_client(a, typescript_a, lock_a).type_->0;
    let t = started_light_client(b, typescript_b, lock_b).type_->0;
    if s == t {
        assert(s.args == t.args);
        law_out_point_encoding_injective(a@, b@);
    }
}

/// The witness of a proof points at the light client's cell, and at no other
/// cell dep.
pub proof fn law_spv_points_at_light_client<P>(
    c: DeployedContracts,
    light_client: OutPoint,
    lock_args: Seq<u8>,
    eth_proof: EthSpvProof<P>,
    bridge: BridgeCell,
    payer: ScriptModel,
    plan: TxPlanModel<P>,
)
    requires
        spv_plan(c, Lookup::Found(light_client), lock_args, eth_proof, bridge, payer) == Ok::<
            TxPlanModel<P>,
            ErrorModel,
        >(plan),
    ensures
        plan.witness is Some,
        witness_indices(plan.witness->0).len() == 1,
        plan.cell_deps[witness_indices(plan.witness->0)[0] as int] == (CellDepModel {
            out_point: light_client@,
            dep_type: DepType::Code,
        }),
{
}

/// The proof that the witness shows is the one that says what is handed out.
pub proof fn law_spv_shows_its_proof<P>(
    c: DeployedContracts,
    light_client: Lookup<OutPoint>,
    lock_args: Seq<u8>,
    eth_proof: EthSpvProof<P>,
    bridge: BridgeCell,
    payer: ScriptModel,
    plan: TxPlanModel<P>,
)
    requires
        spv_plan(c, light_client, lock_args, eth_proof, bridge, payer) == Ok::<
            TxPlanModel<P>,
            ErrorModel,
        >(plan),
    ensures
        plan.witness is Some,
        plan.witness->0 is SpvProof,
        plan.witness->0->spv_proof == eth_proof.spv_proof,
        plan.outputs == spv_outputs(plan.outputs[0].type_->0, eth_proof, bridge, payer),
{
}

proof fn lemma_token_output_amount(
    amount: nat,
    extra: Seq<u8>,
    token: ScriptModel,
    lock: ScriptModel,
)
    requires
        amount <= u128::MAX,
    ensures
        output_tokens(token_output(amount, extra, token, lock), token) == amount,
{
    lemma_le_bytes_len(amount, 16);
    lemma_le_capacity_16();
    law_le_bytes_read_back(amount, 16);
    assert((le_bytes(amount, 16) + extra).take(16) =~= le_bytes(amount, 16));
}

/// Exactly what was locked is handed out: besides what the bridge cell itself
/// holds, the outputs have as many tokens, and the recipient has what the fee
/// leaves.
pub proof fn law_spv_hands_out_what_was_locked<P>(
    token: ScriptModel,
    eth_proof: EthSpvProof<P>,
    bridge: BridgeCell,
    payer: ScriptModel,
)
    requires
        can_pay_out(eth_proof),
    ensures
        ({
            let outputs = spv_outputs(token, eth_proof, bridge, payer);
            &&& outputs_tokens(outputs, token) == eth_proof.lock_amount + output_tokens(
                outputs.last(),
                token,
            )
            &&& output_tokens(outputs[0], token) == eth_proof.lock_amount
                - eth_proof.bridge_fee
        }),
{
    let outputs = spv_outputs(token, eth_proof, bridge, payer);
    let paid = (eth_proof.lock_amount - eth_proof.bridge_fee) as nat;
    let fee = eth_proof.bridge_fee as nat;
    let recipient = script_of(eth_proof.recipient_lockscript@);
    lemma_token_output_amount(paid, eth_proof.sudt_extra_data@, token, recipient);
    lemma_token_output_amount(fee, Seq::empty(), token, payer);
    let front = outputs.drop_last();
    if fee == 0 {
        assert(front =~= seq![outputs[0]]);
        assert(front.drop_last() =~= Seq::empty());
        assert(outputs_tokens(front.drop_last(), token) == 0);
        assert(outputs_tokens(front, token) == paid);
    } else {
        assert(front =~= seq![outputs[0], outputs[1]]);
        let first = front.drop_last();
        assert(first =~= seq![outputs[0]]);
        assert(first.drop_last() =~= Seq::empty());
        assert(outputs_tokens(first.drop_last(), token) == 0);
        assert(outputs_tokens(first, token) == paid);
        assert(outputs_tokens(front, token) == paid + fee);
    }
}

/// The one cell that a proof uses up is the one that the proof names, so that
/// proofs which name different cells use up different cells.
pub proof fn law_spv_uses_up_the_named_cell<P>(
    c: DeployedContracts,
    light_client: Lookup<OutPoint>,
    lock_args: Seq<u8>,
    eth_proof: EthSpvProof<P>,
    bridge: BridgeCell,
    payer: ScriptModel,
    plan: TxPlanModel<P>,
)
    requires
        spv_accepted(c, light_client, lock_args, eth_proof, bridge, payer),
        spv_plan(c, light_client, lock_args, eth_proof, bridge, payer) == Ok::<
            TxPlanModel<P>,
            ErrorModel,
        >(plan),
    ensures
        plan.inputs.len() == 1,
        out_point_encoding(plan.inputs[0]) == eth_proof.replay_resist_outpoint@,
{
    law_out_point_written_back(eth_proof.replay_resist_outpoint@);
}

/// The bridge cell that a proof uses up is there again as the last output,
/// with its capacity, its scripts and its data.
pub proof fn law_spv_keeps_bridge_cell<P>(
    token: ScriptModel,
    eth_proof: EthSpvProof<P>,
    bridge: BridgeCell,
    payer: ScriptModel,
)
    ensures
        ({
            let last = spv_outputs(token, eth_proof, bridge, payer).last();
            &&& last.capacity == PlannedCapacity::Shannons(bridge.output.capacity)
            &&& last.lock == bridge.output.lock@
            &&& last.type_ == option_script(bridge.output.type_)
            &&& last.data == CellDataModel::Raw(bridge.data@)
        }),
{
}

/// A bridge cell that was made for one owner is refused to every other payer,
/// and is not refused to its owner.
pub proof fn law_bridge_cell_serves_its_owner<P>(
    c: DeployedContracts,
    light_client: Lookup<OutPoint>,
    lock_args: Seq<u8>,
    eth_proof: EthSpvProof<P>,
    bridge: BridgeCell,
    payer: ScriptModel,
    owner: ScriptModel,
    capacity: u64,
    typescript: ScriptModel,
    lockscript: ScriptModel,
    fee: u128,
)
    requires
        script_encodable(payer),
        script_encodable(owner),
        bridge_output(capacity, owner, typescript, lockscript, fee).data == (
        CellDataModel::Bridge { owner_lock_script: bridge.owner_lock_script@, fee }),
        spv_deps(c, light_client) is Ok,
        spv_lockscript(c, lock_args) is Ok,
    ensures
        spv_plan(c, light_client, lock_args, eth_proof, bridge, payer) == Err::<
            TxPlanModel<P>,
            ErrorModel,
        >(ErrorModel::ForeignBridgeCell) <==> payer != owner,
{
    if script_encoding(payer) == script_encoding(owner) {
        law_script_encoding_injective(payer, owner);
    }
}

/// Burning, transferring and counting tokens are about the same token, if they
/// name the same token of the same contract.
pub proof fn law_token_queries_agree(
    c: DeployedContracts,
    token_addr: Seq<u8>,
    lock_contract_addr: Seq<u8>,
)
    ensures
        burn_token(c, token_addr, lock_contract_addr) == transfer_token(
            c,
            lock_contract_addr,
            token_addr,
        ),
        burn_token(c, token_addr, lock_contract_addr) == balance_token(
            c,
            token_addr,
            lock_contract_addr,
        ),
{
}

/// Tokens that differ in their address or in their contract's are told apart.
pub proof fn law_token_queries_differ(
    c: DeployedContracts,
    token_a: Seq<u8>,
    contract_a: Seq<u8>,
    token_b: Seq<u8>,
    contract_b: Seq<u8>,
)
    requires
        token_a != token_b || contract_a != contract_b,
    ensures
        token_query(c, token_a, contract_a) != token_query(c, token_b, contract_b),
{
}

/// What a burn records is about the token that it burns.
pub proof fn law_burn_records_its_token(
    c: DeployedContracts,
    unlock_fee: u128,
    burn_sudt_amount: u128,
    token_addr: Seq<u8>,
    lock_contract_addr: Seq<u8>,
    eth_receiver_addr: Seq<u8>,
    recorded: EthRecipientModel,
)
    requires
        recipient_data(
            c,
            unlock_fee,
            burn_sudt_amount,
            token_addr,
            lock_contract_addr,
            eth_receiver_addr,
        ) == Ok::<EthRecipientModel, ErrorModel>(recorded),
    ensures
        ({
            let token = burn_token(c, token_addr, lock_contract_addr);
            &&& recorded.eth_token_address == token.token_addr
            &&& recorded.eth_lock_contract_address == token.lock_contract_addr
            &&& hex_decoded(encode_utf8(token.bridge_lock_code_hash)) == Ok::<
                Seq<u8>,
                HexError,
            >(recorded.eth_bridge_lock_hash)
        }),
{
}

/// A transfer brings in exactly the tokens that its outputs have.
pub proof fn law_transfer_is_balanced(
    c: DeployedContracts,
    payer: ScriptModel,
    to: ScriptModel,
    token: ScriptModel,
    sudt_amount: u128,
    ckb_amount: u64,
    tx_fee: u64,
    plan: TxPlanModel<NoProof>,
)
    requires
        transfer_plan(c, payer, to, token, sudt_amount, ckb_amount, tx_fee) == Ok::<
            TxPlanModel<NoProof>,
            ErrorModel,
        >(plan),
    ensures
        plan.tokens is Some,
        plan.tokens->0.typescript == token,
        outputs_tokens(plan.outputs, token) == plan.tokens->0.amount,
        plan.tokens->0.amount == sudt_amount,
{
    let output = plan.outputs[0];
    lemma_token_output_amount(sudt_amount as nat, Seq::empty(), token, to);
    let data = le_bytes(sudt_amount as nat, 16);
    assert(data + Seq::<u8>::empty() =~= data);
    assert(plan.outputs.drop_last() =~= Seq::empty());
    assert(outputs_tokens(plan.outputs.drop_last(), token) == 0);
    assert(output_tokens(output, token) == sudt_amount);
}

/// A burn brings in exactly the tokens that it records, and none of its
/// outputs has any.
pub proof fn law_burn_destroys_what_it_records(
    c: DeployedContracts,
    tx_fee: u64,
    payer: ScriptModel,
    recorded: EthRecipientModel,
    token: ScriptModel,
    plan: TxPlanModel<NoProof>,
)
    requires
        burn_plan(c, tx_fee, payer, Ok(recorded), token) == Ok::<
            TxPlanModel<NoProof>,
            ErrorModel,
        >(plan),
    ensures
        plan.tokens is Some,
        plan.tokens->0.typescript == token,
        plan.tokens->0.amount == recorded.token_amount,
        plan.outputs.len() == 1,
        plan.outputs[0].data == CellDataModel::EthRecipient(recorded),
        outputs_tokens(plan.outputs, token) == 0,
{
    assert(plan.outputs.drop_last() =~= Seq::empty());
    assert(outputs_tokens(plan.outputs.drop_last(), token) == 0);
}

} // verus!
