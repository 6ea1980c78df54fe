//! What every planned transaction holds, part by part, and when none is planned.
use crate::bridge::{
    bridge_outpoints, bridge_output, create_bridge_plan, spv_accepted, spv_lockscript,
    spv_outpoints, spv_outputs, spv_plan, BridgeCell, EthSpvProof,
};
use crate::bytes::{
    law_le_bytes_read_back, le_bytes, le_value, lemma_le_bytes_len, lemma_le_capacity_16,
    lemma_le_capacity_4,
};
use crate::chain::{updated_chain, ChainModel, EntryModel};
use crate::chain_results::law_main_chain_items;
use crate::ckb::ckb_hash;
use crate::config::{conf_models, resolved_all};
use crate::error::ErrorModel;
use crate::hexadecimal::{hex_decoded, HexError};
use crate::light_client::{
    cell_output_models, headers_bytes, init_accepted, init_plan, light_client_outpoints,
    light_client_plan, started_light_client, EthBlock, EthHeader, LightClientCell,
};
use crate::molecule::{
    law_is_script, law_out_point_written_back, law_script_read_back, out_point_encoding,
    script_encodable, script_encoding, ScriptModel,
};
use crate::plan::{
    CellData, CellDataModel, EthRecipientModel, NoProof, PlannedCapacity, PlannedOutputModel,
    PlannedWitness, TxPlan, TxPlanModel,
};
use crate::terms::{
    all_named, are_deps, is_data_script, is_first_reason, is_reason,
    law_cell_deps_are_what_is_configured, law_hash_is_what_the_text_says,
    law_script_is_what_is_configured, names_hash,
};
use crate::tokens::{
    burn_accepted, burn_outpoints, burn_plan, recipient_data, token_query, transfer_outpoints,
    transfer_plan,
};
use crate::types::{
    CellOutput, CellOutputModel, DepType, DeployedContracts, Lookup, OutPoint, OutpointConf, Script,
};
use vstd::prelude::*;
use vstd::utf8::encode_utf8;

verus! {

/// Whether a model is that of a script: the same code, found in the same way, on
/// the same arguments.
pub open spec fn is_script_model(s: ScriptModel, script: Script) -> bool {
    &&& s.code_hash == script.code_hash@
    &&& s.hash_type == script.hash_type
    &&& s.args == script.args@
}

/// Whether an optional model is that of an optional script.
pub open spec fn is_script_option(s: Option<ScriptModel>, script: Option<Script>) -> bool {
    match script {
        Some(script) => s is Some && is_script_model(s->0, script),
        None => s is None,
    }
}

/// Whether a serialization is the hexadecimal form of these bytes.
pub open spec fn is_rlp_of(rlp: Result<String, String>, data: Seq<u8>) -> bool {
    rlp is Ok && hex_decoded(encode_utf8(rlp->Ok_0@)) == Ok::<Seq<u8>, HexError>(data)
}

/// Whether a serialization is the hexadecimal form of some bytes.
pub open spec fn is_rlp(rlp: Result<String, String>) -> bool {
    rlp is Ok && hex_decoded(encode_utf8(rlp->Ok_0@)) is Ok
}

/// Whether `e` says why a serialization gives no bytes: there is none, or it is
/// not hexadecimal.
pub open spec fn is_rlp_reason(rlp: Result<String, String>, e: ErrorModel) -> bool {
    match rlp {
        Err(s) => e == ErrorModel::HeaderRlp(s@),
        Ok(text) => match hex_decoded(encode_utf8(text@)) {
            Err(h) => e == ErrorModel::HeaderHex(h),
            Ok(_) => false,
        },
    }
}

/// Whether `e` says why the first header without bytes has none.
pub open spec fn is_first_rlp_reason(headers: Seq<EthHeader>, e: ErrorModel) -> bool {
    exists|i: int|
        0 <= i < headers.len() && is_rlp_reason((#[trigger] headers[i]).rlp, e) && forall|j: int|
            0 <= j < i ==> is_rlp((#[trigger] headers[j]).rlp)
}

/// Whether a plan is refused for the first configured cell dep that names no
/// transaction.
pub open spec fn is_dep_refusal<P>(
    r: Result<TxPlanModel<P>, ErrorModel>,
    confs: Seq<OutpointConf>,
) -> bool {
    r is Err && r->Err_0 is Outpoint && is_first_reason(confs, r->Err_0->Outpoint_0)
}

/// Whether something is refused because a text is no code hash.
pub open spec fn is_code_refusal<T>(r: Result<T, ErrorModel>, text: Seq<char>) -> bool {
    r is Err && r->Err_0 is CodeHash && is_reason(text, r->Err_0->CodeHash_0)
}

/// Whether an output holds this many tokens of a type under a lock, in no more
/// capacity than it takes up, with these bytes behind the amount.
pub open spec fn holds_tokens(
    output: PlannedOutputModel,
    amount: int,
    extra: Seq<u8>,
    token: ScriptModel,
    lock: ScriptModel,
) -> bool {
    &&& output.capacity == PlannedCapacity::Occupied
    &&& output.lock == lock
    &&& output.type_ == Some(token)
    &&& output.data is Raw
    &&& output.data->Raw_0.len() == 16 + extra.len()
    &&& le_value(output.data->Raw_0.take(16)) == amount
    &&& output.data->Raw_0.skip(16) == extra
}

/// The cells that a transaction on a light client depends on.
pub open spec fn light_client_cells(c: DeployedContracts) -> Seq<OutpointConf> {
    seq![
        c.dag_merkle_roots,
        c.light_client_lockscript.outpoint,
        c.light_client_typescript.outpoint,
    ]
}

/// The deployed cells that handing out tokens depends on.
pub open spec fn spv_cells(c: DeployedContracts) -> Seq<OutpointConf> {
    seq![c.bridge_lockscript.outpoint, c.bridge_typescript.outpoint, c.sudt.outpoint]
}

/// The cells that making bridge cells depends on.
pub open spec fn bridge_cells(c: DeployedContracts) -> Seq<OutpointConf> {
    seq![c.bridge_lockscript.outpoint, c.bridge_typescript.outpoint]
}

/// The cells that a burn depends on.
pub open spec fn burn_cells(c: DeployedContracts) -> Seq<OutpointConf> {
    seq![c.bridge_lockscript.outpoint, c.recipient_typescript.outpoint, c.sudt.outpoint]
        + c.pw_locks.inner@
}

/// The cells that a transfer depends on.
pub open spec fn transfer_cells(c: DeployedContracts) -> Seq<OutpointConf> {
    seq![c.bridge_lockscript.outpoint, c.sudt.outpoint]
}

proof fn lemma_amount(amount: nat, extra: Seq<u8>)
    requires
        amount <= u128::MAX,
    ensures
        (le_bytes(amount, 16) + extra).len() == 16 + extra.len(),
        le_value((le_bytes(amount, 16) + extra).take(16)) == amount,
        (le_bytes(amount, 16) + extra).skip(16) == extra,
{
    lemma_le_bytes_len(amount, 16);
    lemma_le_capacity_16();
    law_le_bytes_read_back(amount, 16);
    assert((le_bytes(amount, 16) + extra).take(16) =~= le_bytes(amount, 16));
    assert((le_bytes(amount, 16) + extra).skip(16) =~= extra);
}

proof fn lemma_headers_bytes(headers: Seq<EthHeader>)
    ensures
        headers_bytes(headers) is Ok <==> (forall|i: int|
            0 <= i < headers.len() ==> is_rlp((#[trigger] headers[i]).rlp)),
        headers_bytes(headers) is Ok ==> headers_bytes(headers)->Ok_0.len() == headers.len(),
        headers_bytes(headers) is Ok ==> forall|i: int|
            0 <= i < headers.len() ==> is_rlp_of(
                headers[i].rlp,
                #[trigger] headers_bytes(headers)->Ok_0[i],
            ),
        headers_bytes(headers) is Err ==> is_first_rlp_reason(
            headers,
            headers_bytes(headers)->Err_0,
        ),
    decreases headers.len(),
{
    if headers.len() > 0 {
        let front = headers.drop_last();
        let last = headers.len() - 1;
        lemma_headers_bytes(front);
        assert(forall|i: int| 0 <= i < last ==> front[i] == #[trigger] headers[i]);
        if headers_bytes(headers) is Ok {
            let all = headers_bytes(headers)->Ok_0;
            let before = headers_bytes(front)->Ok_0;
            assert forall|i: int| 0 <= i < headers.len() implies is_rlp_of(
                headers[i].rlp,
                #[trigger] all[i],
            ) by {
                if i < last {
                    assert(is_rlp_of(front[i].rlp, before[i]));
                }
            }
            assert forall|i: int| 0 <= i < headers.len() implies is_rlp(
                (#[trigger] headers[i]).rlp,
            ) by {
                assert(is_rlp_of(headers[i].rlp, all[i]));
            }
        } else if headers_bytes(front) is Err {
            let e = headers_bytes(front)->Err_0;
            let i = choose|i: int|
                0 <= i < front.len() && is_rlp_reason((#[trigger] front[i]).rlp, e)
                    && forall|j: int| 0 <= j < i ==> is_rlp((#[trigger] front[j]).rlp);
            assert(headers[i] == front[i]);
            assert forall|j: int| 0 <= j < i implies is_rlp((#[trigger] headers[j]).rlp) by {
                assert(front[j] == headers[j]);
            }
            assert(!is_rlp(headers[i].rlp));
        } else {
            assert forall|j: int| 0 <= j < last implies is_rlp((#[trigger] headers[j]).rlp) by {
                assert(front[j] == headers[j]);
            }
            assert(is_rlp_reason(headers[last].rlp, headers_bytes(headers)->Err_0));
            assert(!is_rlp(headers[last].rlp));
        }
    }
}

/// What starts a light client at a block. It depends on the Merkle roots and the
/// light client's own code. Its one output has the light client's capacity, no
/// scripts yet, and the block's header, total difficulty and hash. The witness
/// shows that header and points at the Merkle roots. The payer pays the fee, and
/// no tokens are moved.
pub open spec fn starts_light_client(
    plan: TxPlanModel<NoProof>,
    c: DeployedContracts,
    block: EthBlock,
    payer: ScriptModel,
) -> bool {
    &&& are_deps(plan.cell_deps, light_client_cells(c))
    &&& plan.inputs.len() == 0
    &&& plan.outputs.len() == 1
    &&& plan.outputs[0].capacity == PlannedCapacity::Shannons(6_100_000_000_000)
    &&& plan.outputs[0].lock.code_hash.len() == 32
    &&& forall|i: int| 0 <= i < 32 ==> #[trigger] plan.outputs[0].lock.code_hash[i] == 0
    &&& plan.outputs[0].lock.hash_type == 0
    &&& plan.outputs[0].lock.args.len() == 0
    &&& plan.outputs[0].type_ is None
    &&& plan.outputs[0].data is FirstHeader
    &&& is_rlp_of(block.header_rlp, plan.outputs[0].data->header)
    &&& block.hash is Some ==> plan.outputs[0].data->hash == block.hash->0@
    &&& has_low_difficulty(block) ==> plan.outputs[0].data->total_difficulty
        == limbs_value(block.total_difficulty->0)
    &&& plan.witness is Some
    &&& plan.witness->0 is LightClient
    &&& plan.witness->0->headers == seq![plan.outputs[0].data->header]
    &&& plan.witness->0->LightClient_cell_dep_index_list == seq![0u8]
    &&& plan.tokens is None
    &&& plan.payer == payer
    &&& plan.tx_fee == 500_000
}

/// Whether a block has a total difficulty of no more than 64 bits.
pub open spec fn has_low_difficulty(block: EthBlock) -> bool {
    &&& block.total_difficulty is Some
    &&& block.total_difficulty->0@[1] == 0
    &&& block.total_difficulty->0@[2] == 0
    &&& block.total_difficulty->0@[3] == 0
}

/// The number that four limbs stand for, the lowest first.
pub open spec fn limbs_value(limbs: [u64; 4]) -> int {
    let base = 0x1_0000_0000_0000_0000int;
    limbs@[0] + base * (limbs@[1] + base * (limbs@[2] + base * limbs@[3]))
}

/// What comes of starting a light client. It is refused for the first cell dep
/// that names no transaction; else for a header that cannot be read; else for
/// nothing.
pub open spec fn is_init_outcome(
    r: Result<TxPlanModel<NoProof>, ErrorModel>,
    c: DeployedContracts,
    block: EthBlock,
    payer: ScriptModel,
) -> bool {
    let deps = all_named(light_client_cells(c));
    &&& !deps ==> is_dep_refusal(r, light_client_cells(c))
    &&& deps && !is_rlp(block.header_rlp) ==> r is Err && is_rlp_reason(
        block.header_rlp,
        r->Err_0,
    )
    &&& deps && is_rlp(block.header_rlp) ==> r is Ok
    &&& r is Ok ==> starts_light_client(r->Ok_0, c, block, payer)
}

/// Whether a start can be planned or refused: if nothing else is wrong, the block
/// has a hash and a total difficulty of no more than 64 bits.
pub open spec fn can_start(c: DeployedContracts, block: EthBlock) -> bool {
    all_named(light_client_cells(c)) && is_rlp(block.header_rlp) ==> block.hash is Some
        && has_low_difficulty(block)
}

/// Starting a light client at a block gives what starts it, or says what is wrong.
pub proof fn law_init_contents(c: DeployedContracts, block: EthBlock, payer: ScriptModel)
    ensures
        is_init_outcome(init_plan(c, block, payer), c, block, payer),
        init_accepted(c, block) <==> can_start(c, block),
{
    assert(light_client_outpoints(c) =~= conf_models(light_client_cells(c)));
    law_cell_deps_are_what_is_configured(light_client_cells(c));
}

/// The cell of a light client that was just started: the light client's capacity,
/// the given lock, and the given type script with the first input's transaction
/// and index as its arguments.
pub open spec fn is_started_cell(
    cell: CellOutputModel,
    first_input: OutPoint,
    typescript: ScriptModel,
    lockscript: ScriptModel,
) -> bool {
    &&& cell.capacity == 6_100_000_000_000
    &&& cell.lock == lockscript
    &&& cell.type_ is Some
    &&& cell.type_->0.code_hash == typescript.code_hash
    &&& cell.type_->0.hash_type == typescript.hash_type
    &&& cell.type_->0.args.len() == 36
    &&& cell.type_->0.args.take(32) == first_input.tx_hash@
    &&& le_value(cell.type_->0.args.skip(32)) == first_input.index
}

/// A light client's cell is finished with its capacity, its lock, and a type
/// script that its first input makes its own.
pub proof fn law_started_light_client_contents(
    first_input: OutPoint,
    typescript: ScriptModel,
    lockscript: ScriptModel,
)
    ensures
        is_started_cell(
            started_light_client(first_input, typescript, lockscript),
            first_input,
            typescript,
            lockscript,
        ),
{
    let index = first_input.index as nat;
    lemma_le_bytes_len(index, 4);
    lemma_le_capacity_4();
    law_le_bytes_read_back(index, 4);
    let args = out_point_encoding(first_input@);
    assert(args.take(32) =~= first_input.tx_hash@);
    assert(args.skip(32) =~= le_bytes(index, 4));
}

/// What works headers into a light client. It depends on the Merkle roots and
/// the light client's own code, and uses up the light client's cell. Its one
/// output has that cell's scripts and the chain with the headers worked in. The
/// witness shows every header, in order, and points at the Merkle roots. The
/// payer pays the fee, and no tokens are moved.
pub open spec fn updates_light_client(
    plan: TxPlanModel<NoProof>,
    c: DeployedContracts,
    cell: LightClientCell,
    after: ChainModel,
    headers: Seq<EthHeader>,
    payer: ScriptModel,
) -> bool {
    &&& are_deps(plan.cell_deps, light_client_cells(c))
    &&& plan.inputs.len() == 1
    &&& plan.inputs[0].tx_hash == cell.out_point.tx_hash@
    &&& plan.inputs[0].index == cell.out_point.index
    &&& plan.outputs.len() == 1
    &&& plan.outputs[0].capacity == PlannedCapacity::Occupied
    &&& is_script_model(plan.outputs[0].lock, cell.lock)
    &&& is_script_option(plan.outputs[0].type_, cell.type_)
    &&& plan.outputs[0].data is Headers
    &&& plan.outputs[0].data->main.len() == after.confirmed.len() + after.unconfirmed.len()
    &&& forall|i: int|
        0 <= i < after.confirmed.len() + after.unconfirmed.len()
            ==> #[trigger] plan.outputs[0].data->main[i] == (if i < after.confirmed.len() {
            after.confirmed[i]
        } else {
            after.unconfirmed[i - after.confirmed.len()].raw
        })
    &&& plan.outputs[0].data->Headers_uncle == after.uncle
    &&& plan.witness is Some
    &&& plan.witness->0 is LightClient
    &&& plan.witness->0->headers.len() == headers.len()
    &&& forall|i: int|
        0 <= i < headers.len() ==> is_rlp_of(
            headers[i].rlp,
            #[trigger] plan.witness->0->headers[i],
        )
    &&& plan.witness->0->LightClient_cell_dep_index_list == seq![0u8]
    &&& plan.tokens is None
    &&& plan.payer == payer
    &&& plan.tx_fee == 500_000
}

/// What comes of working headers into a light client, where `after` is the chain
/// with the headers worked in, or why there is none. It is refused for the first
/// cell dep that names no transaction; else if there is no such chain; else for
/// the first header that cannot be read; else for nothing.
pub open spec fn is_update_outcome(
    r: Result<TxPlanModel<NoProof>, ErrorModel>,
    c: DeployedContracts,
    cell: LightClientCell,
    after: Result<ChainModel, ErrorModel>,
    headers: Seq<EthHeader>,
    payer: ScriptModel,
) -> bool {
    let deps = all_named(light_client_cells(c));
    let readable = forall|i: int|
        0 <= i < headers.len() ==> is_rlp((#[trigger] headers[i]).rlp);
    &&& !deps ==> is_dep_refusal(r, light_client_cells(c))
    &&& deps && after is Err ==> r is Err && r->Err_0 == after->Err_0
    &&& deps && after is Ok && !readable ==> r is Err && is_first_rlp_reason(headers, r->Err_0)
    &&& deps && after is Ok && readable ==> r is Ok
    &&& r is Ok ==> after is Ok && updates_light_client(
        r->Ok_0,
        c,
        cell,
        after->Ok_0,
        headers,
        payer,
    )
}

/// Working headers into a light client gives what stores the chain with the
/// headers behind the block that the first of them follows, or says what is wrong.
pub proof fn law_update_contents(
    c: DeployedContracts,
    cell: LightClientCell,
    chain: ChainModel,
    known: Seq<Option<[u8; 32]>>,
    headers: Seq<EthHeader>,
    infos: Seq<EntryModel>,
    payer: ScriptModel,
)
    ensures
        is_update_outcome(
            light_client_plan(c, cell, chain, known, headers, infos, payer),
            c,
            cell,
            updated_chain(
                chain,
                known,
                headers[0].parent_hash@,
                headers.len() as int,
                infos,
            ),
            headers,
            payer,
        ),
{
    assert(light_client_outpoints(c) =~= conf_models(light_client_cells(c)));
    law_cell_deps_are_what_is_configured(light_client_cells(c));
    lemma_headers_bytes(headers);
    let after = updated_chain(
        chain,
        known,
        headers[0].parent_hash@,
        headers.len() as int,
        infos,
    );
    if after is Ok {
        law_main_chain_items(after->Ok_0);
    }
}

/// The outputs that hand out tokens. The recipient gets what was locked less the
/// fee, with the proof's extra bytes behind the amount. If there is a fee, the
/// payer gets it. Last comes the bridge cell, with its capacity, scripts and data.
pub open spec fn hand_out<P>(
    outputs: Seq<PlannedOutputModel>,
    token: ScriptModel,
    eth_proof: EthSpvProof<P>,
    bridge: BridgeCell,
    payer: ScriptModel,
    recipient: ScriptModel,
) -> bool {
    let count: int = if eth_proof.bridge_fee == 0 {
        2
    } else {
        3
    };
    &&& outputs.len() == count
    &&& holds_tokens(
        outputs[0],
        eth_proof.lock_amount - eth_proof.bridge_fee,
        eth_proof.sudt_extra_data@,
        token,
        recipient,
    )
    &&& eth_proof.bridge_fee != 0 ==> holds_tokens(
        outputs[1],
        eth_proof.bridge_fee as int,
        Seq::empty(),
        token,
        payer,
    )
    &&& outputs[count - 1].capacity == PlannedCapacity::Shannons(bridge.output.capacity)
    &&& is_script_model(outputs[count - 1].lock, bridge.output.lock)
    &&& is_script_option(outputs[count - 1].type_, bridge.output.type_)
    &&& outputs[count - 1].data == CellDataModel::Raw(bridge.data@)
}

/// Whether a proof names this recipient: the bytes are those of the lock.
pub open spec fn names_recipient<P>(eth_proof: EthSpvProof<P>, recipient: ScriptModel) -> bool {
    script_encodable(recipient) && script_encoding(recipient) == eth_proof.recipient_lockscript@
}

/// What was locked is handed out to the recipient whom the proof names.
pub proof fn law_spv_outputs_contents<P>(
    token: ScriptModel,
    eth_proof: EthSpvProof<P>,
    bridge: BridgeCell,
    payer: ScriptModel,
    recipient: ScriptModel,
)
    requires
        names_recipient(eth_proof, recipient),
        eth_proof.bridge_fee <= eth_proof.lock_amount,
    ensures
        hand_out(
            spv_outputs(token, eth_proof, bridge, payer),
            token,
            eth_proof,
            bridge,
            payer,
            recipient,
        ),
{
    law_script_read_back(recipient);
    let paid = (eth_proof.lock_amount - eth_proof.bridge_fee) as nat;
    lemma_amount(paid, eth_proof.sudt_extra_data@);
    lemma_amount(eth_proof.bridge_fee as nat, Seq::empty());
}

/// Whether a type script is that of the configured token which the bridge lock
/// with these arguments may issue: its arguments are the hash of that lock.
pub open spec fn is_issued_token(
    token: ScriptModel,
    c: DeployedContracts,
    lock_args: Seq<u8>,
) -> bool {
    exists|lock: ScriptModel|
        is_data_script(lock, c.bridge_lockscript.code_hash@, lock_args) && is_data_script(
            token,
            c.sudt.code_hash@,
            #[trigger] ckb_hash(script_encoding(lock)),
        )
}

/// What hands out tokens. It depends on the light client's cell and on the
/// deployed code, and uses up the cell that the proof names, which is the
/// payer's. The tokens are those that the bridge lock with these arguments may
/// issue. The witness shows the proof and points at the light client's cell. The
/// payer pays the fee of half a CKB, and brings in no tokens.
pub open spec fn pays_out<P>(
    plan: TxPlanModel<P>,
    c: DeployedContracts,
    light_client: Lookup<OutPoint>,
    lock_args: Seq<u8>,
    eth_proof: EthSpvProof<P>,
    bridge: BridgeCell,
    payer: ScriptModel,
) -> bool {
    &&& light_client is Found
    &&& plan.cell_deps.len() == 4
    &&& plan.cell_deps[0].out_point.tx_hash == light_client->Found_0.tx_hash@
    &&& plan.cell_deps[0].out_point.index == light_client->Found_0.index
    &&& plan.cell_deps[0].dep_type == DepType::Code
    &&& are_deps(plan.cell_deps.skip(1), spv_cells(c))
    &&& bridge.owner_lock_script@ == script_encoding(payer)
    &&& plan.inputs.len() == 1
    &&& eth_proof.replay_resist_outpoint@.len() == 36 ==> out_point_encoding(plan.inputs[0])
        == eth_proof.replay_resist_outpoint@
    &&& plan.outputs.len() >= 2
    &&& plan.outputs[0].type_ is Some
    &&& is_issued_token(plan.outputs[0].type_->0, c, lock_args)
    &&& eth_proof.bridge_fee <= eth_proof.lock_amount ==> forall|recipient: ScriptModel|
        #[trigger] names_recipient(eth_proof, recipient) ==> hand_out(
            plan.outputs,
            plan.outputs[0].type_->0,
            eth_proof,
            bridge,
            payer,
            recipient,
        )
    &&& plan.witness is Some
    &&& plan.witness->0 is SpvProof
    &&& plan.witness->0->SpvProof_cell_dep_index_list == seq![0u8]
    &&& plan.witness->0->spv_proof == eth_proof.spv_proof
    &&& plan.tokens is None
    &&& plan.payer == payer
    &&& plan.tx_fee == 50_000_000
}

/// What comes of handing out tokens. It is refused if the light client's cell was
/// not found; else for the first deployed cell that names no transaction; else
/// for the bridge lock's code hash; else to everyone but the bridge cell's owner;
/// else for the token's code hash; else for nothing.
pub open spec fn is_spv_outcome<P>(
    r: Result<TxPlanModel<P>, ErrorModel>,
    c: DeployedContracts,
    light_client: Lookup<OutPoint>,
    lock_args: Seq<u8>,
    eth_proof: EthSpvProof<P>,
    bridge: BridgeCell,
    payer: ScriptModel,
) -> bool {
    let deps = light_client is Found && all_named(spv_cells(c));
    let lock = deps && names_hash(c.bridge_lockscript.code_hash@);
    let own = lock && bridge.owner_lock_script@ == script_encoding(payer);
    &&& light_client is Failed ==> r is Err && r->Err_0 == ErrorModel::Rpc(
        light_client->Failed_0@,
    )
    &&& light_client is Missing ==> r is Err && r->Err_0 == ErrorModel::CellDepMissing
    &&& light_client is Found && !deps ==> is_dep_refusal(r, spv_cells(c))
    &&& deps && !lock ==> is_code_refusal(r, c.bridge_lockscript.code_hash@)
    &&& lock && !own ==> r is Err && r->Err_0 == ErrorModel::ForeignBridgeCell
    &&& own && !names_hash(c.sudt.code_hash@) ==> is_code_refusal(r, c.sudt.code_hash@)
    &&& own && names_hash(c.sudt.code_hash@) ==> r is Ok
    &&& r is Ok ==> pays_out(r->Ok_0, c, light_client, lock_args, eth_proof, bridge, payer)
}

/// Whether handing out tokens can be planned or refused: if nothing else is wrong
/// before, the proof names an out point, a recipient, and a fee that is part of
/// what was locked.
pub open spec fn can_hand_out<P>(
    c: DeployedContracts,
    light_client: Lookup<OutPoint>,
    eth_proof: EthSpvProof<P>,
    bridge: BridgeCell,
    payer: ScriptModel,
) -> bool {
    let deps = light_client is Found && all_named(spv_cells(c));
    let lock = deps && names_hash(c.bridge_lockscript.code_hash@);
    let own = lock && bridge.owner_lock_script@ == script_encoding(payer);
    &&& lock ==> eth_proof.replay_resist_outpoint@.len() == 36
    &&& own ==> exists|s: ScriptModel|
        script_encodable(s) && #[trigger] script_encoding(s)
            == eth_proof.recipient_lockscript@
    &&& own && names_hash(c.sudt.code_hash@) ==> eth_proof.bridge_fee <= eth_proof.lock_amount
}

/// A proof that tokens were locked gives what hands them out, or says what is
/// wrong.
pub proof fn law_spv_contents<P>(
    c: DeployedContracts,
    light_client: Lookup<OutPoint>,
    lock_args: Seq<u8>,
    eth_proof: EthSpvProof<P>,
    bridge: BridgeCell,
    payer: ScriptModel,
)
    ensures
        is_spv_outcome(
            spv_plan(c, light_client, lock_args, eth_proof, bridge, payer),
            c,
            light_client,
            lock_args,
            eth_proof,
            bridge,
            payer,
        ),
        spv_accepted(c, light_client, lock_args, eth_proof, bridge, payer) <==> can_hand_out(
            c,
            light_client,
            eth_proof,
            bridge,
            payer,
        ),
{
    let confs = spv_cells(c);
    assert(spv_outpoints(c) =~= conf_models(confs));
    law_cell_deps_are_what_is_configured(confs);
    law_script_is_what_is_configured(c.bridge_lockscript.code_hash@, lock_args);
    let lock = spv_lockscript(c, lock_args)->Ok_0;
    let hash = ckb_hash(script_encoding(lock));
    law_script_is_what_is_configured(c.sudt.code_hash@, hash);
    law_hash_is_what_the_text_says(c.sudt.code_hash@);
    law_is_script(eth_proof.recipient_lockscript@);
    let r = spv_plan(c, light_client, lock_args, eth_proof, bridge, payer);
    if r is Ok {
        let plan = r->Ok_0;
        let token = plan.outputs[0].type_->0;
        if eth_proof.replay_resist_outpoint@.len() == 36 {
            law_out_point_written_back(eth_proof.replay_resist_outpoint@);
        }
        let deps = resolved_all(conf_models(confs))->Ok_0;
        assert(plan.cell_deps.skip(1) =~= deps);
        assert(is_data_script(lock, c.bridge_lockscript.code_hash@, lock_args));
        assert(is_data_script(token, c.sudt.code_hash@, hash));
        assert(is_issued_token(token, c, lock_args));
        if eth_proof.bridge_fee <= eth_proof.lock_amount {
            assert forall|recipient: ScriptModel| #[trigger]
                names_recipient(eth_proof, recipient) implies hand_out(
                plan.outputs,
                token,
                eth_proof,
                bridge,
                payer,
                recipient,
            ) by {
                law_spv_outputs_contents(token, eth_proof, bridge, payer, recipient);
            }
        }
        assert(pays_out(plan, c, light_client, lock_args, eth_proof, bridge, payer));
    }
}

/// What comes of making bridge cells. It depends on the bridge's code. It has as
/// many outputs as cells are asked for, each with the given capacity and scripts,
/// and with the owner and the fee in its data. The owner pays the given fee.
/// Nothing else is in it. It is refused exactly for a cell dep that names no
/// transaction.
pub open spec fn is_bridge_outcome(
    r: Result<TxPlanModel<NoProof>, ErrorModel>,
    c: DeployedContracts,
    tx_fee: u64,
    capacity: u64,
    owner: ScriptModel,
    typescript: ScriptModel,
    lockscript: ScriptModel,
    bridge_fee: u128,
    cell_num: nat,
) -> bool {
    &&& !all_named(bridge_cells(c)) ==> is_dep_refusal(r, bridge_cells(c))
    &&& all_named(bridge_cells(c)) ==> r is Ok
    &&& r matches Ok(plan) ==> {
        &&& are_deps(plan.cell_deps, bridge_cells(c))
        &&& plan.inputs.len() == 0
        &&& plan.outputs.len() == cell_num
        &&& forall|i: int|
            0 <= i < cell_num ==> {
                &&& (#[trigger] plan.outputs[i]).capacity == PlannedCapacity::Shannons(capacity)
                &&& plan.outputs[i].lock == lockscript
                &&& plan.outputs[i].type_ == Some(typescript)
                &&& plan.outputs[i].data is Bridge
                &&& plan.outputs[i].data->owner_lock_script == script_encoding(owner)
                &&& plan.outputs[i].data->fee == bridge_fee
            }
        &&& plan.witness is None
        &&& plan.tokens is None
        &&& plan.payer == owner
        &&& plan.tx_fee == tx_fee
    }
}

/// Bridge cells are made as they are asked for, or it is said what is wrong.
pub proof fn law_create_bridge_contents(
    c: DeployedContracts,
    tx_fee: u64,
    capacity: u64,
    owner: ScriptModel,
    typescript: ScriptModel,
    lockscript: ScriptModel,
    bridge_fee: u128,
    cell_num: nat,
)
    ensures
        is_bridge_outcome(
            create_bridge_plan(
                c,
                tx_fee,
                bridge_output(capacity, owner, typescript, lockscript, bridge_fee),
                cell_num,
                owner,
            ),
            c,
            tx_fee,
            capacity,
            owner,
            typescript,
            lockscript,
            bridge_fee,
            cell_num,
        ),
{
    assert(bridge_outpoints(c) =~= conf_models(bridge_cells(c)));
    law_cell_deps_are_what_is_configured(bridge_cells(c));
}

/// What is recorded of a burn: who gets how many of which token on Ethereum, for
/// which fee, under which bridge lock.
pub open spec fn records_burn(
    recorded: EthRecipientModel,
    c: DeployedContracts,
    unlock_fee: u128,
    burn_sudt_amount: u128,
    token_addr: Seq<u8>,
    lock_contract_addr: Seq<u8>,
    eth_receiver_addr: Seq<u8>,
) -> bool {
    &&& recorded.token_amount == burn_sudt_amount
    &&& recorded.fee == unlock_fee
    &&& recorded.eth_recipient_address == eth_receiver_addr
    &&& recorded.eth_token_address == token_addr
    &&& recorded.eth_lock_contract_address == lock_contract_addr
    &&& hex_decoded(encode_utf8(c.bridge_lockscript.code_hash@)) == Ok::<Seq<u8>, HexError>(
        recorded.eth_bridge_lock_hash,
    )
}

/// What comes of recording a burn. It is refused exactly if the bridge lock's code
/// hash is not hexadecimal.
pub open spec fn is_record_outcome(
    r: Result<EthRecipientModel, ErrorModel>,
    c: DeployedContracts,
    unlock_fee: u128,
    burn_sudt_amount: u128,
    token_addr: Seq<u8>,
    lock_contract_addr: Seq<u8>,
    eth_receiver_addr: Seq<u8>,
) -> bool {
    let hash = hex_decoded(encode_utf8(c.bridge_lockscript.code_hash@));
    &&& r is Ok <==> hash is Ok
    &&& r is Ok ==> records_burn(
        r->Ok_0,
        c,
        unlock_fee,
        burn_sudt_amount,
        token_addr,
        lock_contract_addr,
        eth_receiver_addr,
    )
    &&& hash is Err ==> is_code_refusal(r, c.bridge_lockscript.code_hash@)
}

/// Whether a burn can be planned or refused: if its cell deps are valid, the
/// bridge lock's code hash, if it is hexadecimal, is a hash.
pub open spec fn can_be_burnt(c: DeployedContracts) -> bool {
    all_named(burn_cells(c)) && hex_decoded(
        encode_utf8(c.bridge_lockscript.code_hash@),
    ) is Ok ==> names_hash(c.bridge_lockscript.code_hash@)
}

/// What is recorded of a burn is what was asked for, or it is said what is wrong.
pub proof fn law_recipient_data_contents(
    c: DeployedContracts,
    unlock_fee: u128,
    burn_sudt_amount: u128,
    token_addr: Seq<u8>,
    lock_contract_addr: Seq<u8>,
    eth_receiver_addr: Seq<u8>,
)
    ensures
        is_record_outcome(
            recipient_data(
                c,
                unlock_fee,
                burn_sudt_amount,
                token_addr,
                lock_contract_addr,
                eth_receiver_addr,
            ),
            c,
            unlock_fee,
            burn_sudt_amount,
            token_addr,
            lock_contract_addr,
            eth_receiver_addr,
        ),
        burn_accepted(c) <==> can_be_burnt(c),
{
    assert(burn_outpoints(c) =~= conf_models(burn_cells(c)));
    law_cell_deps_are_what_is_configured(burn_cells(c));
}

/// What comes of burning tokens. It depends on the bridge's and the token's code
/// and on the wallet locks. The payer brings in exactly as many tokens of the
/// given type as are to be burnt, and the one output, under the payer's lock and
/// the recipient's type script, only records who gets them on Ethereum. The payer
/// pays the given fee. It is refused for a cell dep that names no transaction;
/// else for the bridge lock's code hash; else for that of the recipient's type
/// script; else for nothing.
pub open spec fn is_burn_outcome(
    r: Result<TxPlanModel<NoProof>, ErrorModel>,
    c: DeployedContracts,
    tx_fee: u64,
    payer: ScriptModel,
    unlock_fee: u128,
    burn_sudt_amount: u128,
    token_addr: Seq<u8>,
    lock_contract_addr: Seq<u8>,
    eth_receiver_addr: Seq<u8>,
    token: ScriptModel,
) -> bool {
    let deps = all_named(burn_cells(c));
    let hash = hex_decoded(encode_utf8(c.bridge_lockscript.code_hash@)) is Ok;
    let code = names_hash(c.recipient_typescript.code_hash@);
    &&& !deps ==> is_dep_refusal(r, burn_cells(c))
    &&& deps && !hash ==> is_code_refusal(r, c.bridge_lockscript.code_hash@)
    &&& deps && hash && !code ==> is_code_refusal(r, c.recipient_typescript.code_hash@)
    &&& deps && hash && code ==> r is Ok
    &&& r matches Ok(plan) ==> {
        &&& are_deps(plan.cell_deps, burn_cells(c))
        &&& plan.inputs.len() == 0
        &&& plan.outputs.len() == 1
        &&& plan.outputs[0].capacity == PlannedCapacity::Occupied
        &&& plan.outputs[0].lock == payer
        &&& plan.outputs[0].type_ is Some
        &&& is_data_script(
            plan.outputs[0].type_->0,
            c.recipient_typescript.code_hash@,
            Seq::empty(),
        )
        &&& plan.outputs[0].data is EthRecipient
        &&& records_burn(
            plan.outputs[0].data->EthRecipient_0,
            c,
            unlock_fee,
            burn_sudt_amount,
            token_addr,
            lock_contract_addr,
            eth_receiver_addr,
        )
        &&& plan.witness is None
        &&& plan.tokens is Some
        &&& plan.tokens->0.amount == burn_sudt_amount
        &&& plan.tokens->0.typescript == token
        &&& plan.payer == payer
        &&& plan.tx_fee == tx_fee
    }
}

/// Exactly the tokens that are to be burnt are burnt and recorded, or it is said
/// what is wrong.
pub proof fn law_burn_contents(
    c: DeployedContracts,
    tx_fee: u64,
    payer: ScriptModel,
    unlock_fee: u128,
    burn_sudt_amount: u128,
    token_addr: Seq<u8>,
    lock_contract_addr: Seq<u8>,
    eth_receiver_addr: Seq<u8>,
    token: ScriptModel,
)
    ensures
        is_burn_outcome(
            burn_plan(
                c,
                tx_fee,
                payer,
                recipient_data(
                    c,
                    unlock_fee,
                    burn_sudt_amount,
                    token_addr,
                    lock_contract_addr,
                    eth_receiver_addr,
                ),
                token,
            ),
            c,
            tx_fee,
            payer,
            unlock_fee,
            burn_sudt_amount,
            token_addr,
            lock_contract_addr,
            eth_receiver_addr,
            token,
        ),
{
    assert(burn_outpoints(c) =~= conf_models(burn_cells(c)));
    law_cell_deps_are_what_is_configured(burn_cells(c));
    law_recipient_data_contents(
        c,
        unlock_fee,
        burn_sudt_amount,
        token_addr,
        lock_contract_addr,
        eth_receiver_addr,
    );
    law_script_is_what_is_configured(c.recipient_typescript.code_hash@, Seq::empty());
}

/// What comes of transferring tokens. It depends on the bridge's and the token's
/// code. Its one output has the given capacity, the receiver's lock, the token's
/// type and exactly the amount in its data; the payer brings in as many and pays
/// the given fee. It is refused exactly for a cell dep that names no transaction.
pub open spec fn is_transfer_outcome(
    r: Result<TxPlanModel<NoProof>, ErrorModel>,
    c: DeployedContracts,
    payer: ScriptModel,
    to: ScriptModel,
    token: ScriptModel,
    sudt_amount: u128,
    ckb_amount: u64,
    tx_fee: u64,
) -> bool {
    &&& !all_named(transfer_cells(c)) ==> is_dep_refusal(r, transfer_cells(c))
    &&& all_named(transfer_cells(c)) ==> r is Ok
    &&& r matches Ok(plan) ==> {
        &&& are_deps(plan.cell_deps, transfer_cells(c))
        &&& plan.inputs.len() == 0
        &&& plan.outputs.len() == 1
        &&& plan.outputs[0].capacity == PlannedCapacity::Shannons(ckb_amount)
        &&& plan.outputs[0].lock == to
        &&& plan.outputs[0].type_ == Some(token)
        &&& plan.outputs[0].data is Raw
        &&& plan.outputs[0].data->Raw_0.len() == 16
        &&& le_value(plan.outputs[0].data->Raw_0) == sudt_amount
        &&& plan.witness is None
        &&& plan.tokens is Some
        &&& plan.tokens->0.amount == sudt_amount
        &&& plan.tokens->0.typescript == token
        &&& plan.payer == payer
        &&& plan.tx_fee == tx_fee
    }
}

/// Exactly the given tokens go to the receiver, in a cell with the given
/// capacity, or it is said what is wrong.
pub proof fn law_transfer_contents(
    c: DeployedContracts,
    payer: ScriptModel,
    to: ScriptModel,
    token: ScriptModel,
    sudt_amount: u128,
    ckb_amount: u64,
    tx_fee: u64,
)
    ensures
        is_transfer_outcome(
            transfer_plan(c, payer, to, token, sudt_amount, ckb_amount, tx_fee),
            c,
            payer,
            to,
            token,
            sudt_amount,
            ckb_amount,
            tx_fee,
        ),
{
    assert(transfer_outpoints(c) =~= conf_models(transfer_cells(c)));
    law_cell_deps_are_what_is_configured(transfer_cells(c));
    let amount = sudt_amount as nat;
    lemma_le_bytes_len(amount, 16);
    lemma_le_capacity_16();
    law_le_bytes_read_back(amount, 16);
}

/// Whether the data of an output are those of a model.
pub open spec fn is_data_model(m: CellDataModel, data: CellData) -> bool {
    match data {
        CellData::Raw(bytes) => m == CellDataModel::Raw(bytes@),
        CellData::FirstHeader(info) => m is FirstHeader && m->header == info.header@
            && m->total_difficulty == info.total_difficulty && m->hash == info.hash@,
        CellData::Headers { main, uncle } => {
            &&& m is Headers
            &&& m->main.len() == main@.len()
            &&& m->Headers_uncle.len() == uncle@.len()
            &&& forall|i: int| 0 <= i < main@.len() ==> #[trigger] m->main[i] == main@[i]@
            &&& forall|i: int|
                0 <= i < uncle@.len() ==> #[trigger] m->Headers_uncle[i] == uncle@[i]@
        },
        CellData::Bridge { owner_lock_script, fee } => m is Bridge && m->owner_lock_script
            == owner_lock_script@ && m->fee == fee,
        CellData::EthRecipient(data) => {
            &&& m is EthRecipient
            &&& m->EthRecipient_0.eth_recipient_address == data.eth_recipient_address@
            &&& m->EthRecipient_0.eth_token_address == data.eth_token_address@
            &&& m->EthRecipient_0.eth_lock_contract_address == data.eth_lock_contract_address@
            &&& m->EthRecipient_0.eth_bridge_lock_hash == data.eth_bridge_lock_hash@
            &&& m->EthRecipient_0.token_amount == data.token_amount
            &&& m->EthRecipient_0.fee == data.fee
        },
    }
}

/// The model of a planned transaction leaves nothing out: every cell dep, input,
/// output, witness, token demand, the payer and the fee are those of the plan.
pub proof fn law_plan_model_is_complete<P>(plan: TxPlan<P>)
    ensures
        plan@.cell_deps.len() == plan.cell_deps@.len(),
        forall|i: int|
            0 <= i < plan.cell_deps@.len() ==> {
                let dep = plan.cell_deps@[i];
                &&& (#[trigger] plan@.cell_deps[i]).out_point.tx_hash == dep.out_point.tx_hash@
                &&& plan@.cell_deps[i].out_point.index == dep.out_point.index
                &&& plan@.cell_deps[i].dep_type == dep.dep_type
            },
        plan@.inputs.len() == plan.inputs@.len(),
        forall|i: int|
            0 <= i < plan.inputs@.len() ==> (#[trigger] plan@.inputs[i]).tx_hash
                == plan.inputs@[i].tx_hash@ && plan@.inputs[i].index == plan.inputs@[i].index,
        plan@.outputs.len() == plan.outputs@.len(),
        forall|i: int|
            0 <= i < plan.outputs@.len() ==> {
                let output = plan.outputs@[i];
                &&& (#[trigger] plan@.outputs[i]).capacity == output.capacity
                &&& is_script_model(plan@.outputs[i].lock, output.lock)
                &&& is_script_option(plan@.outputs[i].type_, output.type_)
                &&& is_data_model(plan@.outputs[i].data, output.data)
            },
        match plan.witness {
            None => plan@.witness is None,
            Some(PlannedWitness::LightClient { headers, cell_dep_index_list }) => {
                &&& plan@.witness is Some
                &&& plan@.witness->0 is LightClient
                &&& plan@.witness->0->LightClient_cell_dep_index_list == cell_dep_index_list@
                &&& plan@.witness->0->headers.len() == headers@.len()
                &&& forall|i: int|
                    0 <= i < headers@.len() ==> #[trigger] plan@.witness->0->headers[i]
                        == headers@[i]@
            },
            Some(PlannedWitness::SpvProof { cell_dep_index_list, spv_proof }) => {
                &&& plan@.witness is Some
                &&& plan@.witness->0 is SpvProof
                &&& plan@.witness->0->SpvProof_cell_dep_index_list == cell_dep_index_list@
                &&& plan@.witness->0->spv_proof == spv_proof
            },
        },
        match plan.tokens {
            None => plan@.tokens is None,
            Some(tokens) => plan@.tokens is Some && plan@.tokens->0.amount == tokens.amount
                && is_script_model(plan@.tokens->0.typescript, tokens.typescript),
        },
        is_script_model(plan@.payer, plan.payer),
        plan@.tx_fee == plan.tx_fee,
{
}

/// The models of outputs leave nothing out: each has its capacity and its scripts.
pub proof fn law_output_models_are_complete(outputs: Seq<CellOutput>)
    ensures
        cell_output_models(outputs).len() == outputs.len(),
        forall|i: int|
            0 <= i < outputs.len() ==> {
                &&& (#[trigger] cell_output_models(outputs)[i]).capacity == outputs[i].capacity
                &&& is_script_model(cell_output_models(outputs)[i].lock, outputs[i].lock)
                &&& is_script_option(cell_output_models(outputs)[i].type_, outputs[i].type_)
            },
{
}

/// A token is decided by the configured code of the bridge lock and of the token,
/// by its own address and by that of the contract that locks it.
pub proof fn law_token_query_contents(
    c: DeployedContracts,
    token_addr: Seq<u8>,
    lock_contract_addr: Seq<u8>,
)
    ensures
        ({
            let q = token_query(c, token_addr, lock_contract_addr);
            &&& q.bridge_lock_code_hash == c.bridge_lockscript.code_hash@
            &&& q.sudt_code_hash == c.sudt.code_hash@
            &&& q.token_addr == token_addr
            &&& q.lock_contract_addr == lock_contract_addr
        }),
{
}

} // verus!
