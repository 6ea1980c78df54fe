//! What every call of the library gives back, in terms of what it is given.
use crate::bridge::{spv_outpoints, BridgeCell, EthBridgeLockArgs, EthSpvProof};
use crate::bytes::{
    amount_bytes, copy_bytes, decimal, law_le_bytes_read_back, le_value, lemma_le_bytes_len,
    lemma_le_capacity_16, lemma_le_capacity_4, lemma_le_value_fits, same_bytes,
};
use crate::chain::{
    byte_strings, can_update, entry_models, find_fork, find_tail, store_chain, update_chain,
    HeaderChain, HeaderEntry, CONFIRM,
};
use crate::chain_results::{
    all_readable, branches_at, has_hash, is_branch_result, is_extension_result,
    is_first_unreadable, larger, law_branch_refused, law_branch_result,
    law_chain_model_is_complete, law_extension_refused, law_extension_result,
    law_fork_is_behind_the_parent, law_main_chain_items, law_update_accepted, smaller,
};
use crate::config::{conf_models, make_data_script, parse_hash, resolve_cell_deps, resolved_all};
use crate::error::{field_text, result_model, Error, ErrorModel, FieldError};
use crate::generator::{found_headers, law_headers_are_what_was_found, Generator, SendOutcome};
use crate::hexadecimal::{hex_decoded, hex_text, law_hex_read_back, HexError};
use crate::light_client::{
    cell_output_models, light_client_outpoints, EthBlock, EthHeader, LightClientCell,
};
use crate::molecule::{
    law_header_vec_read_back, law_out_point_written_back, law_witness_read_back,
    out_point_encoding,
};
use crate::plan::{
    cell_dep_models, output_models, EthRecipientData, NoProof, PlannedOutput, TxPlan,
};
use crate::plan_contents::{
    burn_cells, can_be_burnt, can_hand_out, can_start, hand_out, is_bridge_outcome,
    is_burn_outcome, is_init_outcome, is_record_outcome, is_spv_outcome, is_started_cell,
    is_transfer_outcome, is_update_outcome, law_burn_contents, law_create_bridge_contents,
    law_init_contents, law_recipient_data_contents, law_spv_contents, law_spv_outputs_contents,
    law_started_light_client_contents, law_transfer_contents, law_update_contents,
    light_client_cells, names_recipient, spv_cells, transfer_cells,
};
use crate::terms::{
    all_named, are_deps, is_data_script, is_first_reason, is_hash_text, is_reason,
    law_cell_deps_are_what_is_configured, law_hash_is_what_the_text_says,
    law_script_is_what_is_configured, names_hash,
};
use crate::tokens::{burn_outpoints, transfer_outpoints, TokenQuery};
use crate::types::{
    CellDep, CellOutput, DepType, DeployedContracts, Lookup, OutPoint, OutpointConf, Script,
};
use vstd::prelude::*;

verus! {

/// Whether a list of cell deps is what comes of configured ones: all of them in
/// their order, or the reason why the first that names no transaction does not.
pub open spec fn is_deps_outcome(
    r: Result<Vec<CellDep>, Error>,
    confs: Seq<OutpointConf>,
) -> bool {
    &&& r is Ok <==> all_named(confs)
    &&& r is Ok ==> are_deps(cell_dep_models(r->Ok_0@), confs)
    &&& r is Err ==> r->Err_0@ is Outpoint && is_first_reason(confs, r->Err_0@->Outpoint_0)
}

/// Whether a script is what comes of a configured code hash and some arguments.
pub open spec fn is_script_outcome(
    r: Result<Script, Error>,
    code_hash: Seq<char>,
    args: Seq<u8>,
) -> bool {
    &&& r is Ok <==> names_hash(code_hash)
    &&& r is Ok ==> is_data_script(r->Ok_0@, code_hash, args)
    &&& r is Err ==> r->Err_0@ is CodeHash && is_reason(code_hash, r->Err_0@->CodeHash_0)
}

/// Every token amount is stored in 16 bytes that stand for it.
pub proof fn law_amount_call(amount: u128, r: Vec<u8>)
    requires
        call_ensures(amount_bytes, (amount,), r),
    ensures
        r@.len() == 16,
        le_value(r@) == amount,
{
    lemma_le_bytes_len(amount as nat, 16);
    lemma_le_capacity_16();
    law_le_bytes_read_back(amount as nat, 16);
}

/// Byte strings are copied whole, and compared from end to end.
pub proof fn law_bytes_calls(a: &[u8], b: &[u8], copy: Vec<u8>, same: bool)
    requires
        call_ensures(copy_bytes, (a,), copy),
        call_ensures(same_bytes, (a, b), same),
    ensures
        copy@ == a@,
        same <==> a@ == b@,
{
}

/// A configured hash is read as its text says, or refused with the reason.
pub proof fn law_hash_call(text: &String, r: Result<[u8; 32], FieldError>)
    requires
        call_ensures(parse_hash, (text,), r),
    ensures
        r is Ok <==> names_hash(text@),
        r is Ok ==> is_hash_text(text@, r->Ok_0@),
        r is Err ==> is_reason(text@, r->Err_0),
{
    law_hash_is_what_the_text_says(text@);
}

/// A script is made of the configured code and the given arguments.
pub proof fn law_script_call(code_hash: &String, args: Vec<u8>, r: Result<Script, Error>)
    requires
        call_ensures(make_data_script, (code_hash, args), r),
    ensures
        is_script_outcome(r, code_hash@, args@),
{
    law_script_is_what_is_configured(code_hash@, args@);
}

/// Cell deps are those that are configured.
pub proof fn law_deps_call(outpoints: Vec<OutpointConf>, r: Result<Vec<CellDep>, Error>)
    requires
        call_ensures(resolve_cell_deps, (outpoints,), r),
    ensures
        is_deps_outcome(r, outpoints@),
{
    law_cell_deps_are_what_is_configured(outpoints@);
}

/// The cell deps of every kind of transaction are the cells that it depends on.
pub proof fn law_deps_calls<G>(
    g: &Generator<G>,
    light_client: Result<Vec<CellDep>, Error>,
    burn: Result<Vec<CellDep>, Error>,
    transfer: Result<Vec<CellDep>, Error>,
)
    requires
        call_ensures(Generator::<G>::light_client_cell_deps, (g,), light_client),
        call_ensures(Generator::<G>::burn_cell_deps, (g,), burn),
        call_ensures(Generator::<G>::transfer_cell_deps, (g,), transfer),
    ensures
        is_deps_outcome(light_client, light_client_cells(g.deployed_contracts)),
        is_deps_outcome(burn, burn_cells(g.deployed_contracts)),
        is_deps_outcome(transfer, transfer_cells(g.deployed_contracts)),
{
    let c = g.deployed_contracts;
    law_cell_deps_are_what_is_configured(light_client_cells(c));
    law_cell_deps_are_what_is_configured(burn_cells(c));
    law_cell_deps_are_what_is_configured(transfer_cells(c));
    assert(light_client_outpoints(c) =~= conf_models(light_client_cells(c)));
    assert(burn_outpoints(c) =~= conf_models(burn_cells(c)));
    assert(transfer_outpoints(c) =~= conf_models(transfer_cells(c)));
}

/// A generator keeps what was read and the configuration, or says why nothing was
/// read.
pub proof fn law_new_call<G>(
    genesis: Lookup<Result<G, String>>,
    settings: DeployedContracts,
    r: Result<Generator<G>, Error>,
)
    requires
        call_ensures(Generator::<G>::new, (genesis, settings), r),
    ensures
        match genesis {
            Lookup::Failed(e) => r is Err && r->Err_0@ == ErrorModel::Rpc(e@),
            Lookup::Missing => r is Err && r->Err_0@ == ErrorModel::GenesisBlockMissing,
            Lookup::Found(Err(e)) => r is Err && r->Err_0@ == ErrorModel::GenesisInfo(e@),
            Lookup::Found(Ok(info)) => r is Ok && r->Ok_0.genesis_info == info
                && r->Ok_0.deployed_contracts == settings,
        },
{
}

/// A cell that was found is handed on whole, output and data.
pub proof fn law_cell_call<G>(
    g: &Generator<G>,
    cell: Lookup<(CellOutput, Vec<u8>)>,
    r: Result<(CellOutput, Vec<u8>), Error>,
)
    requires
        call_ensures(Generator::<G>::get_ckb_cell, (g, cell), r),
    ensures
        match cell {
            Lookup::Failed(e) => r is Err && r->Err_0@ == ErrorModel::Rpc(e@),
            Lookup::Missing => r is Err && r->Err_0@ == ErrorModel::CellNotFound,
            Lookup::Found(found) => r is Ok && r->Ok_0.0 == found.0 && r->Ok_0.1@ == found.1@,
        },
{
}

/// Headers are delivered exactly if all were found: how many, and then each in
/// its order. Else the first that was not found says why.
pub proof fn law_headers_call<G>(
    g: &Generator<G>,
    lookups: Vec<Lookup<[u8; 208]>>,
    r: Result<Vec<u8>, Error>,
)
    requires
        lookups@.len() <= u32::MAX,
        call_ensures(Generator::<G>::get_ckb_headers, (g, lookups), r),
    ensures
        r is Ok <==> (forall|i: int|
            0 <= i < lookups@.len() ==> (#[trigger] lookups@[i]) is Found),
        r is Ok && lookups@.len() > 0 ==> {
            &&& r->Ok_0@.len() == 4 + 208 * lookups@.len()
            &&& le_value(r->Ok_0@.take(4)) == lookups@.len()
            &&& forall|i: int|
                0 <= i < lookups@.len() ==> r->Ok_0@.subrange(4 + 208 * i, 4 + 208 * (i + 1))
                    == (#[trigger] lookups@[i])->Found_0@
        },
        r is Err ==> exists|i: int|
            {
                &&& 0 <= i < lookups@.len()
                &&& forall|j: int| 0 <= j < i ==> (#[trigger] lookups@[j]) is Found
                &&& match #[trigger] lookups@[i] {
                    Lookup::Failed(e) => r->Err_0@ == ErrorModel::HeaderFetch(e@),
                    Lookup::Missing => r->Err_0@ == ErrorModel::HeaderMissing,
                    Lookup::Found(_) => false,
                }
            },
{
    law_headers_are_what_was_found(lookups@);
    if r is Ok && lookups@.len() > 0 {
        let headers = found_headers(lookups@)->Ok_0;
        assert forall|j: int| 0 <= j < headers.len() implies (#[trigger] headers[j]).len()
            == 208 by {
            assert(headers[j] == lookups@[j]->Found_0@);
        }
        law_header_vec_read_back(headers, 0);
        assert forall|i: int| 0 <= i < lookups@.len() implies r->Ok_0@.subrange(
            4 + 208 * i,
            4 + 208 * (i + 1),
        ) == (#[trigger] lookups@[i])->Found_0@ by {
            law_header_vec_read_back(headers, i);
            assert(headers[i] == lookups@[i]->Found_0@);
        }
    }
}

/// A transaction that was sent is known by the hexadecimal text that stands for
/// its hash; else it is said whether it was not signed or not sent, and why.
pub proof fn law_send_call<G>(
    g: &Generator<G>,
    outcome: SendOutcome,
    tx_hash: &[u8; 32],
    r: Result<String, Error>,
    id: String,
)
    requires
        call_ensures(Generator::<G>::sign_and_send_transaction, (g, outcome), r),
        call_ensures(Generator::<G>::transaction_id, (g, tx_hash), id),
    ensures
        hex_decoded(id@.map_values(|c: char| c as u8)) == Ok::<Seq<u8>, HexError>(tx_hash@),
        id@.len() == 64,
        match outcome {
            SendOutcome::NotSigned(e) => r is Err && r->Err_0@ == ErrorModel::Signing(e@),
            SendOutcome::NotSent(e) => r is Err && r->Err_0@ == ErrorModel::Rpc(e@),
            SendOutcome::Sent(hash) => r is Ok && hex_decoded(
                r->Ok_0@.map_values(|c: char| c as u8),
            ) == Ok::<Seq<u8>, HexError>(hash@) && (hash@ == tx_hash@ ==> r->Ok_0@ == id@),
        },
{
    law_hex_read_back(tx_hash@);
    if outcome is Sent {
        law_hex_read_back(outcome->Sent_0@);
    }
}

/// A balance is the number of tokens that were counted.
pub proof fn law_balance_call<G>(
    g: &Generator<G>,
    amount: Result<u128, String>,
    r: Result<u128, Error>,
)
    requires
        call_ensures(Generator::<G>::get_sudt_balance, (g, amount), r),
    ensures
        match amount {
            Ok(n) => r is Ok && r->Ok_0 == n,
            Err(e) => r is Err && r->Err_0@ == ErrorModel::Rpc(e@),
        },
{
}

/// A burn, a transfer and a balance ask for the token that they are given, each in
/// its own order of arguments.
pub proof fn law_token_calls<G>(
    g: &Generator<G>,
    token_addr: &[u8; 20],
    lock_contract_addr: &[u8; 20],
    burnt: TokenQuery,
    transferred: TokenQuery,
    counted: TokenQuery,
)
    requires
        call_ensures(Generator::<G>::burn_token, (g, token_addr, lock_contract_addr), burnt),
        call_ensures(
            Generator::<G>::transfer_token,
            (g, lock_contract_addr, token_addr),
            transferred,
        ),
        call_ensures(Generator::<G>::balance_token, (g, token_addr, lock_contract_addr), counted),
    ensures
        burnt.bridge_lock_code_hash@ == g.deployed_contracts.bridge_lockscript.code_hash@,
        burnt.sudt_code_hash@ == g.deployed_contracts.sudt.code_hash@,
        burnt.token_addr@ == token_addr@,
        burnt.lock_contract_addr@ == lock_contract_addr@,
        transferred@ == burnt@,
        counted@ == burnt@,
{
}

/// The light client's script is what is configured, once the contracts are
/// deployed.
pub proof fn law_light_client_script_call<G>(
    g: &Generator<G>,
    configured: Option<String>,
    r: Result<String, Error>,
)
    requires
        call_ensures(Generator::<G>::spv_light_client_script, (g, configured), r),
    ensures
        match configured {
            Some(text) => r is Ok && r->Ok_0@ == text@,
            None => r is Err && r->Err_0@ == ErrorModel::NotDeployed,
        },
{
}

/// The first cell that handing out tokens depends on is the light client's, and
/// then come the deployed ones.
pub proof fn law_spv_deps_call<G>(
    g: &Generator<G>,
    light_client: &Lookup<OutPoint>,
    r: Result<Vec<CellDep>, Error>,
)
    requires
        call_ensures(Generator::<G>::spv_cell_deps, (g, light_client), r),
    ensures
        r is Ok <==> *light_client is Found && all_named(spv_cells(g.deployed_contracts)),
        r is Ok ==> {
            let deps = cell_dep_models(r->Ok_0@);
            &&& deps.len() == 4
            &&& deps[0].out_point.tx_hash == light_client->Found_0.tx_hash@
            &&& deps[0].out_point.index == light_client->Found_0.index
            &&& deps[0].dep_type == DepType::Code
            &&& are_deps(deps.skip(1), spv_cells(g.deployed_contracts))
        },
        match *light_client {
            Lookup::Failed(e) => r is Err && r->Err_0@ == ErrorModel::Rpc(e@),
            Lookup::Missing => r is Err && r->Err_0@ == ErrorModel::CellDepMissing,
            Lookup::Found(_) => r is Err ==> r->Err_0@ is Outpoint && is_first_reason(
                spv_cells(g.deployed_contracts),
                r->Err_0@->Outpoint_0,
            ),
        },
{
    let confs = spv_cells(g.deployed_contracts);
    law_cell_deps_are_what_is_configured(confs);
    assert(spv_outpoints(g.deployed_contracts) =~= conf_models(confs));
    if r is Ok {
        assert(cell_dep_models(r->Ok_0@).skip(1) =~= resolved_all(
            conf_models(confs),
        )->Ok_0);
    }
}

/// A bridge lock's arguments name the proof's token and its contract.
pub proof fn law_lock_args_call<G, P>(
    g: &Generator<G>,
    eth_proof: &EthSpvProof<P>,
    r: EthBridgeLockArgs,
)
    requires
        call_ensures(Generator::<G>::spv_lock_args::<P>, (g, eth_proof), r),
    ensures
        r.eth_token_address@ == eth_proof.token@,
        r.eth_contract_address@ == eth_proof.eth_address@,
{
}

/// The bridge lock has the given arguments, and a token's type script those of
/// the lock that issues it.
pub proof fn law_spv_script_calls<G>(
    g: &Generator<G>,
    lock_args: &Vec<u8>,
    lock: Result<Script, Error>,
    lock_hash: &[u8; 32],
    token: Result<Script, Error>,
)
    requires
        call_ensures(Generator::<G>::spv_lockscript, (g, lock_args), lock),
        call_ensures(Generator::<G>::token_typescript, (g, lock_hash), token),
    ensures
        is_script_outcome(lock, g.deployed_contracts.bridge_lockscript.code_hash@, lock_args@),
        is_script_outcome(token, g.deployed_contracts.sudt.code_hash@, lock_hash@),
{
    law_script_is_what_is_configured(
        g.deployed_contracts.bridge_lockscript.code_hash@,
        lock_args@,
    );
    law_script_is_what_is_configured(g.deployed_contracts.sudt.code_hash@, lock_hash@);
}

/// The cell that a proof uses up is the one whose bytes it holds.
pub proof fn law_spv_input_call<G, P>(
    g: &Generator<G>,
    eth_proof: &EthSpvProof<P>,
    r: OutPoint,
)
    requires
        eth_proof.replay_resist_outpoint@.len() == 36,
        call_ensures(Generator::<G>::spv_input::<P>, (g, eth_proof), r),
    ensures
        out_point_encoding(r@) == eth_proof.replay_resist_outpoint@,
        r.tx_hash@ == eth_proof.replay_resist_outpoint@.take(32),
        le_value(eth_proof.replay_resist_outpoint@.skip(32)) == r.index,
{
    let data = eth_proof.replay_resist_outpoint@;
    law_out_point_written_back(data);
    lemma_le_value_fits(data.skip(32));
    lemma_le_capacity_4();
}

/// What was locked is handed out to the recipient whom the proof names.
pub proof fn law_spv_outputs_call<G, P>(
    g: &Generator<G>,
    token: &Script,
    eth_proof: &EthSpvProof<P>,
    bridge: BridgeCell,
    from_lockscript: &Script,
    recipient: Script,
    r: Vec<PlannedOutput>,
)
    requires
        names_recipient(*eth_proof, recipient@),
        eth_proof.bridge_fee <= eth_proof.lock_amount,
        call_ensures(
            Generator::<G>::spv_outputs::<P>,
            (g, token, eth_proof, bridge, from_lockscript),
            r,
        ),
    ensures
        hand_out(
            output_models(r@),
            token@,
            *eth_proof,
            bridge,
            from_lockscript@,
            recipient@,
        ),
{
    law_spv_outputs_contents(token@, *eth_proof, bridge, from_lockscript@, recipient@);
}

/// A proof that tokens were locked gives what hands them out, paid for by whoever
/// asks, or says what is wrong; and it is known beforehand whether it can be asked.
pub proof fn law_spv_call<G, P>(
    g: &Generator<G>,
    light_client: &Lookup<OutPoint>,
    lock_args: &Vec<u8>,
    eth_proof: EthSpvProof<P>,
    bridge: BridgeCell,
    from_lockscript: Script,
    can: bool,
    r: Result<TxPlan<P>, Error>,
)
    requires
        call_ensures(
            Generator::<G>::can_generate_eth_spv_tx::<P>,
            (g, light_client, lock_args, &eth_proof, &bridge, &from_lockscript),
            can,
        ),
        call_ensures(
            Generator::<G>::generate_eth_spv_tx::<P>,
            (g, light_client, lock_args, eth_proof, bridge, from_lockscript),
            r,
        ),
    ensures
        can <==> can_hand_out(
            g.deployed_contracts,
            *light_client,
            eth_proof,
            bridge,
            from_lockscript@,
        ),
        is_spv_outcome(
            result_model(r),
            g.deployed_contracts,
            *light_client,
            lock_args@,
            eth_proof,
            bridge,
            from_lockscript@,
        ),
{
    law_spv_contents(
        g.deployed_contracts,
        *light_client,
        lock_args@,
        eth_proof,
        bridge,
        from_lockscript@,
    );
}

/// Bridge cells are made as they are asked for, owned and paid for by whoever
/// asks.
pub proof fn law_create_bridge_call<G>(
    g: &Generator<G>,
    tx_fee: u64,
    capacity: u64,
    from_lockscript: Script,
    bridge_typescript: Script,
    bridge_lockscript: Script,
    bridge_fee: u128,
    cell_num: usize,
    r: Result<TxPlan<NoProof>, Error>,
)
    requires
        call_ensures(
            Generator::<G>::create_bridge_cell,
            (
                g,
                tx_fee,
                capacity,
                from_lockscript,
                bridge_typescript,
                bridge_lockscript,
                bridge_fee,
                cell_num,
            ),
            r,
        ),
    ensures
        is_bridge_outcome(
            result_model(r),
            g.deployed_contracts,
            tx_fee,
            capacity,
            from_lockscript@,
            bridge_typescript@,
            bridge_lockscript@,
            bridge_fee,
            cell_num as nat,
        ),
{
    law_create_bridge_contents(
        g.deployed_contracts,
        tx_fee,
        capacity,
        from_lockscript@,
        bridge_typescript@,
        bridge_lockscript@,
        bridge_fee,
        cell_num as nat,
    );
}

/// A light client is started at the given block, paid for by whoever asks, or it
/// is said what is wrong; and it is known beforehand whether it can be asked.
pub proof fn law_init_call<G>(
    g: &Generator<G>,
    block: EthBlock,
    from_lockscript: Script,
    can: bool,
    r: Result<TxPlan<NoProof>, Error>,
)
    requires
        call_ensures(Generator::<G>::can_init, (g, &block), can),
        call_ensures(Generator::<G>::init_light_client_tx, (g, block, from_lockscript), r),
    ensures
        can <==> can_start(g.deployed_contracts, block),
        is_init_outcome(result_model(r), g.deployed_contracts, block, from_lockscript@),
{
    law_init_contents(g.deployed_contracts, block, from_lockscript@);
}

/// Once it is funded, a started light client's cell gets its scripts, and all
/// other outputs stay as they are.
pub proof fn law_finish_init_call<G>(
    g: &Generator<G>,
    inputs: &Vec<OutPoint>,
    outputs: Vec<CellOutput>,
    typescript: Script,
    lockscript: Script,
    r: Vec<CellOutput>,
)
    requires
        inputs@.len() > 0,
        outputs@.len() > 0,
        call_ensures(
            Generator::<G>::finish_init_light_client_tx,
            (g, inputs, outputs, typescript, lockscript),
            r,
        ),
    ensures
        r@.len() == outputs@.len(),
        is_started_cell(r@[0]@, inputs@[0], typescript@, lockscript@),
        forall|i: int| 1 <= i < outputs@.len() ==> #[trigger] r@[i]@ == outputs@[i]@,
{
    law_started_light_client_contents(inputs@[0], typescript@, lockscript@);
    let before = cell_output_models(outputs@);
    let after = cell_output_models(r@);
    assert(after.len() == before.len());
    assert(after[0] == r@[0]@);
    assert forall|i: int| 1 <= i < outputs@.len() implies #[trigger] r@[i]@ == outputs@[i]@ by {
        assert(after[i] == r@[i]@);
        assert(before[i] == outputs@[i]@);
    }
}

/// A witness is wrapped whole.
pub proof fn law_witness_call<G>(g: &Generator<G>, encoded: &Vec<u8>, r: Vec<u8>)
    requires
        20 + encoded@.len() <= u32::MAX,
        call_ensures(Generator::<G>::light_client_witness_args, (g, encoded), r),
    ensures
        r@.len() == 20 + encoded@.len(),
        le_value(r@.take(4)) == r@.len(),
        le_value(r@.subrange(16, 20)) == encoded@.len(),
        r@.skip(20) == encoded@,
{
    law_witness_read_back(encoded@);
}

/// What is stored of a light client is the chain with the given headers worked
/// in behind the block that the first of them follows.
pub proof fn law_update_call<G>(
    g: &Generator<G>,
    headers: &Vec<EthHeader>,
    cell: LightClientCell,
    chain: HeaderChain,
    known: &Vec<Option<[u8; 32]>>,
    infos: Vec<HeaderEntry>,
    from_lockscript: Script,
    r: Result<TxPlan<NoProof>, Error>,
    after: Result<HeaderChain, Error>,
)
    requires
        headers@.len() > 0,
        headers@.len() <= usize::MAX,
        call_ensures(
            Generator::<G>::generate_eth_light_client_tx,
            (g, headers, cell, chain, known, infos, from_lockscript),
            r,
        ),
        call_ensures(
            update_chain,
            (chain, known, &headers@[0].parent_hash, headers@.len() as usize, infos),
            after,
        ),
    ensures
        is_update_outcome(
            result_model(r),
            g.deployed_contracts,
            cell,
            result_model(after),
            headers@,
            from_lockscript@,
        ),
{
    law_update_contents(
        g.deployed_contracts,
        cell,
        chain@,
        known@,
        headers@,
        entry_models(infos@),
        from_lockscript@,
    );
}

/// A chain is updated, and its tail found, right behind the newest known block or
/// on a branch, as its headers and the new ones say; and it is known beforehand
/// whether it can be asked.
pub proof fn law_chain_calls(
    chain: HeaderChain,
    known: &Vec<Option<[u8; 32]>>,
    parent: &[u8; 32],
    new_count: usize,
    infos: Vec<HeaderEntry>,
    can: bool,
    tail: Result<Vec<u8>, Error>,
    r: Result<HeaderChain, Error>,
)
    requires
        known@.len() > 0,
        call_ensures(can_update, (&chain, known, parent, new_count), can),
        call_ensures(find_tail, (&chain, known, parent, new_count), tail),
        call_ensures(update_chain, (chain, known, parent, new_count, infos), r),
    ensures
        has_hash(known@.last(), parent@) ==> ({
            let u = chain@.unconfirmed;
            let due = smaller(
                u.len() as int,
                larger(0, u.len() + new_count - CONFIRM),
            );
            &&& can <==> !all_readable(u, due) || u.len() > 0 && new_count < CONFIRM
            &&& r is Ok <==> all_readable(u, due)
            &&& tail is Ok <==> all_readable(u, due)
            &&& r is Err ==> is_first_unreadable(u, due, r->Err_0@)
            &&& tail is Err ==> is_first_unreadable(u, due, tail->Err_0@)
            &&& tail is Ok ==> tail->Ok_0@ == u[u.len() - 1].raw
            &&& r is Ok && u.len() > 0 && new_count < CONFIRM ==> is_extension_result(
                r->Ok_0@,
                chain@,
                new_count as int,
                entry_models(infos@),
            )
        }),
        forall|k: int| #[trigger]
            branches_at(known@, parent@, k) ==> {
                let all = chain@.unconfirmed.take(k) + entry_models(infos@);
                let due = all.len() - smaller(all.len() as int, larger(k, CONFIRM as int));
                &&& can <==> k <= chain@.unconfirmed.len() && forall|j: int|
                    k - 1 <= j < known@.len() ==> (#[trigger] known@[j]) is Some
                &&& k <= chain@.unconfirmed.len() ==> {
                    &&& tail is Ok && tail->Ok_0@ == chain@.unconfirmed[k - 1].raw
                    &&& r is Ok <==> all_readable(all, due)
                    &&& r is Err ==> is_first_unreadable(all, due, r->Err_0@)
                    &&& r is Ok ==> is_branch_result(
                        r->Ok_0@,
                        chain@,
                        k,
                        entry_models(infos@),
                    )
                }
            },
        (forall|j: int| 0 <= j < known@.len() ==> !has_hash(#[trigger] known@[j], parent@))
            ==> !can,
{
    let news = entry_models(infos@);
    let n = new_count as int;
    law_update_accepted(chain@, known@, parent@, n);
    if has_hash(known@.last(), parent@) {
        law_extension_refused(chain@, known@, parent@, n, news);
        if r is Ok && chain@.unconfirmed.len() > 0 && n < CONFIRM {
            law_extension_result(chain@, known@, parent@, n, news, r->Ok_0@);
        }
    }
    assert forall|k: int| #[trigger] branches_at(known@, parent@, k) && k
        <= chain@.unconfirmed.len() implies {
        let all = chain@.unconfirmed.take(k) + news;
        let due = all.len() - smaller(all.len() as int, larger(k, CONFIRM as int));
        &&& tail is Ok && tail->Ok_0@ == chain@.unconfirmed[k - 1].raw
        &&& r is Ok <==> all_readable(all, due)
        &&& r is Err ==> is_first_unreadable(all, due, r->Err_0@)
        &&& r is Ok ==> is_branch_result(r->Ok_0@, chain@, k, news)
    } by {
        law_branch_refused(chain@, known@, parent@, k, n, news);
        if r is Ok {
            law_branch_result(chain@, known@, parent@, k, n, news, r->Ok_0@);
        }
    }
}

/// The header that new ones follow is the tail behind the block that the first of
/// them follows.
pub proof fn law_tail_call<G>(
    g: &Generator<G>,
    chain: &HeaderChain,
    known: &Vec<Option<[u8; 32]>>,
    headers: &Vec<EthHeader>,
    r: Result<Vec<u8>, Error>,
    tail: Result<Vec<u8>, Error>,
)
    requires
        headers@.len() > 0,
        headers@.len() <= usize::MAX,
        call_ensures(Generator::<G>::light_client_tail, (g, chain, known, headers), r),
        call_ensures(
            find_tail,
            (chain, known, &headers@[0].parent_hash, headers@.len() as usize),
            tail,
        ),
    ensures
        result_model(r) == result_model(tail),
{
}

/// A fork is found behind the last known block that has the parent's hash; if none
/// but the newest has it, at the first.
pub proof fn law_fork_call(known: &Vec<Option<[u8; 32]>>, parent: &[u8; 32], r: usize)
    requires
        known@.len() > 0,
        call_ensures(find_fork, (known, parent), r),
    ensures
        forall|k: int| #[trigger] branches_at(known@, parent@, k) ==> r == k,
        (forall|j: int| 0 <= j < known@.len() - 1 ==> !has_hash(#[trigger] known@[j], parent@))
            ==> r == 0,
{
    law_fork_is_behind_the_parent(known@, parent@);
}

/// A chain is stored as its hashes, then its whole headers; beside it stand the
/// passed-over headers.
pub proof fn law_store_call(chain: HeaderChain, r: (Vec<Vec<u8>>, Vec<Vec<u8>>))
    requires
        call_ensures(store_chain, (chain,), r),
    ensures
        r.0@.len() == chain.confirmed@.len() + chain.unconfirmed@.len(),
        forall|i: int|
            0 <= i < r.0@.len() ==> (#[trigger] r.0@[i])@ == (if i < chain.confirmed@.len() {
                chain.confirmed@[i]@
            } else {
                chain.unconfirmed@[i - chain.confirmed@.len()].raw@
            }),
        r.1@.len() == chain.uncle@.len(),
        forall|i: int| 0 <= i < r.1@.len() ==> (#[trigger] r.1@[i])@ == chain.uncle@[i]@,
{
    let main = byte_strings(r.0@);
    let uncle = byte_strings(r.1@);
    law_main_chain_items(chain@);
    law_chain_model_is_complete(chain);
    assert(main.len() == r.0@.len() && uncle.len() == r.1@.len());
    assert forall|i: int| 0 <= i < r.0@.len() implies (#[trigger] r.0@[i])@ == (if i
        < chain.confirmed@.len() {
        chain.confirmed@[i]@
    } else {
        chain.unconfirmed@[i - chain.confirmed@.len()].raw@
    }) by {
        assert(main[i] == r.0@[i]@);
        if i < chain.confirmed@.len() {
            assert(main[i] == chain@.confirmed[i]);
        } else {
            assert(main[i] == chain@.unconfirmed[i - chain.confirmed@.len()].raw);
        }
    }
    assert forall|i: int| 0 <= i < r.1@.len() implies (#[trigger] r.1@[i])@
        == chain.uncle@[i]@ by {
        assert(uncle[i] == r.1@[i]@);
        assert(uncle[i] == chain@.uncle[i]);
    }
}

/// Exactly the tokens that are to be burnt are burnt and recorded, paid for by
/// whoever asks; and it is known beforehand whether it can be asked.
pub proof fn law_burn_call<G>(
    g: &Generator<G>,
    tx_fee: u64,
    from_lockscript: Script,
    unlock_fee: u128,
    burn_sudt_amount: u128,
    token_addr: &[u8; 20],
    lock_contract_addr: &[u8; 20],
    eth_receiver_addr: &[u8; 20],
    sudt_typescript: Script,
    can: bool,
    recorded: Result<EthRecipientData, Error>,
    r: Result<TxPlan<NoProof>, Error>,
)
    requires
        call_ensures(Generator::<G>::can_burn, (g,), can),
        call_ensures(
            Generator::<G>::burn_recipient_data,
            (
                g,
                unlock_fee,
                burn_sudt_amount,
                token_addr,
                lock_contract_addr,
                eth_receiver_addr,
            ),
            recorded,
        ),
        call_ensures(
            Generator::<G>::burn,
            (
                g,
                tx_fee,
                from_lockscript,
                unlock_fee,
                burn_sudt_amount,
                token_addr,
                lock_contract_addr,
                eth_receiver_addr,
                sudt_typescript,
            ),
            r,
        ),
    ensures
        can <==> can_be_burnt(g.deployed_contracts),
        is_record_outcome(
            result_model(recorded),
            g.deployed_contracts,
            unlock_fee,
            burn_sudt_amount,
            token_addr@,
            lock_contract_addr@,
            eth_receiver_addr@,
        ),
        is_burn_outcome(
            result_model(r),
            g.deployed_contracts,
            tx_fee,
            from_lockscript@,
            unlock_fee,
            burn_sudt_amount,
            token_addr@,
            lock_contract_addr@,
            eth_receiver_addr@,
            sudt_typescript@,
        ),
{
    law_recipient_data_contents(
        g.deployed_contracts,
        unlock_fee,
        burn_sudt_amount,
        token_addr@,
        lock_contract_addr@,
        eth_receiver_addr@,
    );
    law_burn_contents(
        g.deployed_contracts,
        tx_fee,
        from_lockscript@,
        unlock_fee,
        burn_sudt_amount,
        token_addr@,
        lock_contract_addr@,
        eth_receiver_addr@,
        sudt_typescript@,
    );
}

/// Exactly the given tokens go to the receiver in a cell with the given capacity,
/// paid for by whoever asks.
pub proof fn law_transfer_call<G>(
    g: &Generator<G>,
    sudt_typescript: Script,
    from_lockscript: Script,
    to_lockscript: Script,
    sudt_amount: u128,
    ckb_amount: u64,
    tx_fee: u64,
    r: Result<TxPlan<NoProof>, Error>,
)
    requires
        call_ensures(
            Generator::<G>::transfer_sudt,
            (
                g,
                sudt_typescript,
                from_lockscript,
                to_lockscript,
                sudt_amount,
                ckb_amount,
                tx_fee,
            ),
            r,
        ),
    ensures
        is_transfer_outcome(
            result_model(r),
            g.deployed_contracts,
            from_lockscript@,
            to_lockscript@,
            sudt_typescript@,
            sudt_amount,
            ckb_amount,
            tx_fee,
        ),
{
    law_transfer_contents(
        g.deployed_contracts,
        from_lockscript@,
        to_lockscript@,
        sudt_typescript@,
        sudt_amount,
        ckb_amount,
        tx_fee,
    );
}

/// An error says what is wrong: in a fixed text, or in what a node or another part
/// said, which is kept to its end.
pub proof fn law_message_call(e: &Error, r: String)
    requires
        call_ensures(Error::message, (e,), r),
    ensures
        match *e {
            Error::Outpoint(f) => field_text(f).is_suffix_of(r@) && r@
                == "invalid OutpointConf config. err: "@ + field_text(f),
            Error::CodeHash(f) => r@ == field_text(f),
            Error::HeaderHex(h) => r@ == hex_text(h),
            Error::HeaderRlp(s) => r@ == s@,
            Error::MalformedHeader(s) => r@ == s@,
            Error::Rpc(s) => r@ == s@,
            Error::GenesisBlockMissing => r@ == "Can not get genesis block?"@,
            Error::GenesisInfo(s) => r@ == s@,
            Error::CellDepMissing => r@ == "no cell found for cell dep"@,
            Error::CellNotFound => r@ == "cell not found"@,
            Error::HeaderFetch(s) => s@.is_suffix_of(r@) && r@ == "failed to get header: "@ + s@,
            Error::HeaderMissing => r@ == "failed to get header which is none"@,
            Error::ForeignBridgeCell => r@
                == "only support use bridge cell we created as lock outpoint"@,
            Error::NotDeployed => r@ == "contracts should be deployed"@,
            Error::Signing(s) => s@.is_suffix_of(r@) && r@ == "failed to sign tx : "@ + s@,
        },
{
    let prefix = match *e {
        Error::Outpoint(_) => "invalid OutpointConf config. err: "@,
        Error::HeaderFetch(_) => "failed to get header: "@,
        _ => "failed to sign tx : "@,
    };
    let said = match *e {
        Error::Outpoint(f) => field_text(f),
        Error::HeaderFetch(s) => s@,
        Error::Signing(s) => s@,
        _ => Seq::empty(),
    };
    assert((prefix + said).subrange(prefix.len() as int, (prefix + said).len() as int) =~= said);
}

/// Why a hash is none is said as the text's own fault, or with both sizes.
pub proof fn law_field_message_call(e: &FieldError, r: String)
    requires
        call_ensures(FieldError::message, (e,), r),
    ensures
        match *e {
            FieldError::Hex(h) => r@ == hex_text(h),
            FieldError::Size { expected, actual } => r@
                == "Byte32Reader total size doesn't match, expect "@ + decimal(expected as nat)
                + ", actual "@ + decimal(actual as nat),
        },
{
}

} // verus!
