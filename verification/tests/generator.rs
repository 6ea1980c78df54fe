use ckb_tx_generator::bridge::{BridgeCell, EthSpvProof, ONE_CKB, SPV_TX_FEE};
use ckb_tx_generator::chain::{HeaderChain, HeaderEntry};
use ckb_tx_generator::config::parse_hash;
use ckb_tx_generator::error::{Error, FieldError};
use ckb_tx_generator::generator::{Generator, SendOutcome};
use ckb_tx_generator::hexadecimal::HexError;
use ckb_tx_generator::light_client::{
    EthBlock, EthHeader, LightClientCell, LIGHT_CLIENT_CAPACITY, LIGHT_CLIENT_TX_FEE,
    MIN_SECP_CELL_CAPACITY,
};
use ckb_tx_generator::plan::{
    CellData, EthRecipientData, HeaderInfo, PlannedCapacity, PlannedOutput, PlannedWitness,
    TokenDemand,
};
use ckb_tx_generator::types::{
    CellDep, CellOutput, DepType, DeployedContracts, Lookup, OutPoint, OutpointConf, PwLocks,
    Script, ScriptConf,
};
use ckb_types::packed;
use ckb_types::prelude::{Builder, Entity, Pack};

fn outpoint(n: u8) -> OutpointConf {
    OutpointConf {
        tx_hash: format!("{:02x}", n).repeat(32),
        index: n as u32,
        dep_type: DepType::Code,
    }
}

fn script_conf(n: u8) -> ScriptConf {
    ScriptConf {
        code_hash: format!("{:02x}", 0x80 + n).repeat(32),
        outpoint: outpoint(n),
    }
}

fn contracts() -> DeployedContracts {
    DeployedContracts {
        light_client_typescript: script_conf(1),
        light_client_lockscript: script_conf(2),
        bridge_lockscript: script_conf(3),
        bridge_typescript: script_conf(4),
        recipient_typescript: script_conf(5),
        sudt: script_conf(6),
        dag_merkle_roots: outpoint(7),
        pw_locks: PwLocks { inner: vec![outpoint(8), outpoint(9)] },
    }
}

fn generator() -> Generator<u8> {
    Generator::new(Lookup::Found(Ok(42)), contracts()).unwrap()
}

fn generator_with(change: fn(&mut DeployedContracts)) -> Generator<u8> {
    let mut settings = contracts();
    change(&mut settings);
    Generator::new(Lookup::Found(Ok(42)), settings).unwrap()
}

fn dep(n: u8) -> CellDep {
    CellDep {
        out_point: OutPoint { tx_hash: [n; 32], index: n as u32 },
        dep_type: DepType::Code,
    }
}

fn script(n: u8) -> Script {
    Script { code_hash: [n; 32], hash_type: 1, args: vec![n, n] }
}

fn packed_script(s: &Script) -> packed::Script {
    packed::Script::new_builder()
        .code_hash(s.code_hash.pack())
        .hash_type(packed::Byte::new(s.hash_type))
        .args(s.args.as_slice().pack())
        .build()
}

fn script_bytes(s: &Script) -> Vec<u8> {
    packed_script(s).as_slice().to_vec()
}

fn out_point_bytes(n: u8) -> Vec<u8> {
    let mut v = vec![n; 32];
    v.extend([n, 0, 0, 0]);
    v
}

#[test]
fn generator_keeps_what_it_is_made_from() {
    let g = generator();
    assert_eq!(g.genesis_info, 42);
    assert_eq!(g.deployed_contracts.dag_merkle_roots.index, 7);
}

#[test]
fn generator_needs_a_genesis_block() {
    let made = |genesis: Lookup<Result<u8, String>>| Generator::new(genesis, contracts());
    match made(Lookup::Failed("down".to_string())) {
        Err(Error::Rpc(e)) => assert_eq!(e, "down"),
        other => panic!("{:?}", other),
    }
    assert!(matches!(made(Lookup::Missing), Err(Error::GenesisBlockMissing)));
    match made(Lookup::Found(Err("odd".to_string()))) {
        Err(Error::GenesisInfo(e)) => assert_eq!(e, "odd"),
        other => panic!("{:?}", other),
    }
}

#[test]
fn cell_is_passed_on_or_missed() {
    let g = generator();
    let cell = || CellOutput { capacity: 5, lock: script(1), type_: None };
    assert_eq!(
        g.get_ckb_cell(Lookup::Found((cell(), vec![1]))).unwrap(),
        (cell(), vec![1])
    );
    assert!(matches!(g.get_ckb_cell(Lookup::Missing), Err(Error::CellNotFound)));
    match g.get_ckb_cell(Lookup::Failed("down".to_string())) {
        Err(Error::Rpc(e)) => assert_eq!(e, "down"),
        other => panic!("{:?}", other),
    }
}

#[test]
fn headers_are_packed_one_after_another() {
    let g = generator();
    let packed = g
        .get_ckb_headers(vec![Lookup::Found([1; 208]), Lookup::Found([2; 208])])
        .unwrap();
    assert_eq!(packed.len(), 4 + 2 * 208);
    assert_eq!(packed[..4], [2, 0, 0, 0]);
    assert_eq!(packed[4..212], [1; 208]);
    assert_eq!(packed[212..], [2; 208]);
    assert_eq!(g.get_ckb_headers(Vec::new()).unwrap(), vec![0, 0, 0, 0]);
    assert!(packed::HeaderVec::from_slice(&packed).is_ok());
}

#[test]
fn first_header_that_is_not_there_is_reported() {
    let g = generator();
    let lookups = vec![
        Lookup::Found([1; 208]),
        Lookup::Missing,
        Lookup::Failed("down".to_string()),
    ];
    assert!(matches!(g.get_ckb_headers(lookups), Err(Error::HeaderMissing)));
    match g.get_ckb_headers(vec![Lookup::Failed("down".to_string()), Lookup::Missing]) {
        Err(Error::HeaderFetch(e)) => assert_eq!(e, "down"),
        other => panic!("{:?}", other),
    }
}

#[test]
fn transaction_is_known_by_its_hash() {
    let mut hash = [0u8; 32];
    hash[0] = 0xab;
    hash[31] = 0x0f;
    assert_eq!(
        generator().transaction_id(&hash),
        format!("ab{}0f", "00".repeat(30))
    );
}

#[test]
fn transaction_hash_is_read_back_from_its_text() {
    let mut hash = [0u8; 32];
    for (i, byte) in hash.iter_mut().enumerate() {
        *byte = (i * 37 + 200) as u8;
    }
    assert_eq!(parse_hash(&generator().transaction_id(&hash)), Ok(hash));
}

#[test]
fn sending_tells_what_came_of_it() {
    let g = generator();
    let hash = [0x1a; 32];
    assert_eq!(
        g.sign_and_send_transaction(SendOutcome::Sent(hash)).unwrap(),
        "1a".repeat(32)
    );
    let message = |outcome: SendOutcome| g.sign_and_send_transaction(outcome).unwrap_err().message();
    assert_eq!(message(SendOutcome::NotSigned("no key".to_string())), "failed to sign tx : no key");
    assert_eq!(message(SendOutcome::NotSent("down".to_string())), "down");
}

#[test]
fn token_is_named_in_either_order() {
    let g = generator();
    let (token, contract) = ([1; 20], [2; 20]);
    let burnt = g.burn_token(&token, &contract);
    assert_eq!(burnt.bridge_lock_code_hash, "83".repeat(32));
    assert_eq!(burnt.sudt_code_hash, "86".repeat(32));
    assert_eq!(burnt.token_addr, token);
    assert_eq!(burnt.lock_contract_addr, contract);
    assert_eq!(burnt, g.transfer_token(&contract, &token));
    assert_eq!(burnt, g.balance_token(&token, &contract));
    assert_eq!(burnt, g.token_query(&token, &contract));
    assert_ne!(burnt, g.token_query(&contract, &token));
}

#[test]
fn balance_is_passed_on() {
    let g = generator();
    assert_eq!(g.get_sudt_balance(Ok(7)).unwrap(), 7);
    match g.get_sudt_balance(Err("down".to_string())) {
        Err(Error::Rpc(e)) => assert_eq!(e, "down"),
        other => panic!("{:?}", other),
    }
}

#[test]
fn burns_that_cannot_be_planned_are_told_apart() {
    assert!(generator().can_burn());
    assert!(!generator_with(|c| c.bridge_lockscript.code_hash = "11".to_string()).can_burn());
    assert!(generator_with(|c| c.bridge_lockscript.code_hash = "1".to_string()).can_burn());
    let bad = generator_with(|c| {
        c.bridge_lockscript.code_hash = "11".to_string();
        c.sudt.outpoint.tx_hash = "1".to_string();
    });
    assert!(bad.can_burn());
}

#[test]
fn light_client_script_is_there_once_deployed() {
    let g = generator();
    assert_eq!(g.spv_light_client_script(Some("00".to_string())).unwrap(), "00");
    let missing = g.spv_light_client_script(None);
    assert!(matches!(missing, Err(Error::NotDeployed)));
    assert_eq!(missing.unwrap_err().message(), "contracts should be deployed");
}

#[test]
fn constants_are_those_of_the_chain() {
    assert_eq!(ONE_CKB, ckb_sdk::constants::ONE_CKB);
    assert_eq!(MIN_SECP_CELL_CAPACITY, ckb_sdk::constants::MIN_SECP_CELL_CAPACITY);
    assert_eq!(LIGHT_CLIENT_CAPACITY, 1000 * MIN_SECP_CELL_CAPACITY);
    assert_eq!(SPV_TX_FEE, ONE_CKB / 2);
    assert_eq!(LIGHT_CLIENT_TX_FEE, 500_000);
}

fn block(rlp: Result<&str, &str>) -> EthBlock {
    EthBlock {
        header_rlp: rlp.map(String::from).map_err(String::from),
        total_difficulty: Some([77, 0, 0, 0]),
        hash: Some([5; 32]),
    }
}

#[test]
fn light_client_is_started() {
    let plan = generator().init_light_client_tx(block(Ok("c0ff")), script(1)).unwrap();
    assert_eq!(plan.cell_deps, vec![dep(7), dep(2), dep(1)]);
    assert!(plan.inputs.is_empty());
    assert_eq!(
        plan.outputs,
        vec![PlannedOutput {
            capacity: PlannedCapacity::Shannons(6_100_000_000_000),
            lock: Script { code_hash: [0; 32], hash_type: 0, args: Vec::new() },
            type_: None,
            data: CellData::FirstHeader(HeaderInfo {
                header: vec![0xc0, 0xff],
                total_difficulty: 77,
                hash: [5; 32],
            }),
        }]
    );
    // Index 0 is that of the Merkle roots.
    assert_eq!(
        plan.witness,
        Some(PlannedWitness::LightClient {
            headers: vec![vec![0xc0, 0xff]],
            cell_dep_index_list: vec![0],
        })
    );
    assert_eq!(plan.tokens, None);
    assert_eq!(plan.payer, script(1));
    assert_eq!(plan.tx_fee, 500_000);
}

#[test]
fn light_client_is_not_started_on_bad_input() {
    let g = generator_with(|c| c.light_client_typescript.outpoint.tx_hash = "1".to_string());
    match g.init_light_client_tx(block(Err("no rlp")), script(1)) {
        Err(Error::Outpoint(e)) => assert_eq!(e, FieldError::Hex(HexError::OddLength)),
        other => panic!("{:?}", other),
    }
    match generator().init_light_client_tx(block(Err("no rlp")), script(1)) {
        Err(Error::HeaderRlp(e)) => assert_eq!(e, "no rlp"),
        other => panic!("{:?}", other),
    }
    match generator().init_light_client_tx(block(Ok("0g")), script(1)) {
        Err(Error::HeaderHex(e)) => {
            assert_eq!(e, HexError::InvalidHexCharacter { c: 'g', index: 1 })
        }
        other => panic!("{:?}", other),
    }
}

#[test]
fn started_light_client_is_typed_by_its_first_input() {
    let g = generator();
    let inputs = vec![
        OutPoint { tx_hash: [3; 32], index: 0x0102 },
        OutPoint { tx_hash: [4; 32], index: 0 },
    ];
    let change = || CellOutput { capacity: 9, lock: script(8), type_: None };
    let outputs = vec![
        CellOutput { capacity: 1, lock: script(9), type_: None },
        change(),
    ];
    let r = g.finish_init_light_client_tx(&inputs, outputs, script(1), script(2));
    let mut args = vec![3u8; 32];
    args.extend([2, 1, 0, 0]);
    let packed = packed::OutPoint::from_slice(&args).unwrap();
    let index: u32 = packed.index().into();
    assert_eq!(index, 0x0102);
    assert_eq!(
        r,
        vec![
            CellOutput {
                capacity: 6_100_000_000_000,
                lock: script(2),
                type_: Some(Script { code_hash: [1; 32], hash_type: 1, args }),
            },
            change(),
        ]
    );
}

#[test]
fn light_clients_with_different_first_inputs_have_different_types() {
    let started = |index: u32| {
        let inputs = vec![OutPoint { tx_hash: [3; 32], index }];
        let outputs = vec![CellOutput { capacity: 1, lock: script(9), type_: None }];
        generator().finish_init_light_client_tx(&inputs, outputs, script(1), script(2))
    };
    assert_ne!(started(1)[0].type_, started(256)[0].type_);
    assert_eq!(started(1), started(1));
}

#[test]
fn light_client_witness_is_wrapped() {
    let wrapped = generator().light_client_witness_args(&vec![1, 2, 3]);
    let args = packed::WitnessArgs::from_slice(&wrapped).unwrap();
    assert_eq!(args.input_type().to_opt().unwrap().raw_data().to_vec(), vec![1, 2, 3]);
    assert!(args.lock().to_opt().is_none());
    assert!(args.output_type().to_opt().is_none());
    assert_eq!(
        wrapped,
        vec![23, 0, 0, 0, 16, 0, 0, 0, 16, 0, 0, 0, 23, 0, 0, 0, 3, 0, 0, 0, 1, 2, 3]
    );
}

fn header(parent: u8, rlp: Result<&str, &str>) -> EthHeader {
    EthHeader {
        parent_hash: [parent; 32],
        rlp: rlp.map(String::from).map_err(String::from),
    }
}

fn stored(n: u8) -> HeaderEntry {
    HeaderEntry { raw: vec![n], hash: Ok(vec![n, n]) }
}

fn light_client_cell() -> LightClientCell {
    LightClientCell {
        out_point: OutPoint { tx_hash: [6; 32], index: 1 },
        lock: script(4),
        type_: Some(script(5)),
    }
}

#[test]
fn headers_are_worked_into_a_light_client() {
    let g = generator();
    let chain = HeaderChain {
        confirmed: vec![vec![100]],
        unconfirmed: (1..=9).map(stored).collect(),
        uncle: vec![vec![200]],
    };
    let known = vec![Some([9u8; 32])];
    let headers = vec![header(9, Ok("0a")), header(10, Ok("0b"))];
    assert_eq!(g.light_client_tail(&chain, &known, &headers).unwrap(), vec![9]);
    let plan = g
        .generate_eth_light_client_tx(
            &headers,
            light_client_cell(),
            chain,
            &known,
            vec![stored(10), stored(11)],
            script(1),
        )
        .unwrap();
    assert_eq!(plan.cell_deps, vec![dep(7), dep(2), dep(1)]);
    assert_eq!(plan.inputs, vec![OutPoint { tx_hash: [6; 32], index: 1 }]);
    let mut main = vec![vec![100], vec![1, 1]];
    main.extend((2..=11).map(|n| vec![n]));
    assert_eq!(
        plan.outputs,
        vec![PlannedOutput {
            capacity: PlannedCapacity::Occupied,
            lock: script(4),
            type_: Some(script(5)),
            data: CellData::Headers { main, uncle: vec![vec![200]] },
        }]
    );
    assert_eq!(
        plan.witness,
        Some(PlannedWitness::LightClient {
            headers: vec![vec![0x0a], vec![0x0b]],
            cell_dep_index_list: vec![0],
        })
    );
    assert_eq!(plan.tx_fee, 500_000);
}

#[test]
fn branch_is_worked_into_a_light_client() {
    let g = generator();
    let chain = || HeaderChain {
        confirmed: Vec::new(),
        unconfirmed: (0..10).map(stored).collect(),
        uncle: Vec::new(),
    };
    let known: Vec<Option<[u8; 32]>> = (0..10).map(|n| Some([n; 32])).collect();
    let headers = vec![header(8, Ok("0b"))];
    assert_eq!(g.light_client_tail(&chain(), &known, &headers).unwrap(), vec![8]);
    let plan = g
        .generate_eth_light_client_tx(
            &headers,
            light_client_cell(),
            chain(),
            &known,
            vec![stored(50)],
            script(1),
        )
        .unwrap();
    let mut main: Vec<Vec<u8>> = (0..9).map(|n| vec![n]).collect();
    main.push(vec![50]);
    assert_eq!(
        plan.outputs[0].data,
        CellData::Headers { main, uncle: vec![vec![9]] }
    );
    assert_eq!(
        plan.witness,
        Some(PlannedWitness::LightClient {
            headers: vec![vec![0x0b]],
            cell_dep_index_list: vec![0],
        })
    );
}

#[test]
fn first_failure_of_an_update_is_reported() {
    let known = vec![Some([9u8; 32])];
    let update = |g: Generator<u8>, first: HeaderEntry, headers: Vec<EthHeader>| {
        let mut unconfirmed: Vec<HeaderEntry> = vec![first];
        unconfirmed.extend((2..=10).map(stored));
        let chain = HeaderChain { confirmed: Vec::new(), unconfirmed, uncle: Vec::new() };
        g.generate_eth_light_client_tx(
            &headers,
            light_client_cell(),
            chain,
            &known,
            vec![stored(11)],
            script(1),
        )
    };
    let broken = || HeaderEntry { raw: vec![1], hash: Err("broken".to_string()) };
    let bad_conf = generator_with(|c| c.dag_merkle_roots.tx_hash = "00".to_string());
    match update(bad_conf, broken(), vec![header(9, Err("no rlp"))]) {
        Err(Error::Outpoint(e)) => {
            assert_eq!(e, FieldError::Size { expected: 32, actual: 1 })
        }
        other => panic!("{:?}", other),
    }
    match update(generator(), broken(), vec![header(9, Err("no rlp"))]) {
        Err(Error::MalformedHeader(e)) => assert_eq!(e, "broken"),
        other => panic!("{:?}", other),
    }
    match update(generator(), stored(1), vec![header(9, Ok("0")), header(9, Err("no rlp"))]) {
        Err(Error::HeaderHex(e)) => assert_eq!(e, HexError::OddLength),
        other => panic!("{:?}", other),
    }
    match update(generator(), stored(1), vec![header(9, Err("no rlp")), header(9, Ok("0"))]) {
        Err(Error::HeaderRlp(e)) => assert_eq!(e, "no rlp"),
        other => panic!("{:?}", other),
    }
}

fn spv_proof(lock_amount: u128, bridge_fee: u128) -> EthSpvProof<&'static str> {
    EthSpvProof {
        token: [1; 20],
        eth_address: [2; 20],
        lock_amount,
        bridge_fee,
        recipient_lockscript: script_bytes(&script(7)),
        replay_resist_outpoint: out_point_bytes(9),
        sudt_extra_data: vec![0xee],
        spv_proof: "branches",
    }
}

fn bridge_cell(owner: &Script) -> BridgeCell {
    BridgeCell {
        output: CellOutput { capacity: 300, lock: script(20), type_: Some(script(21)) },
        data: vec![1, 2, 3],
        owner_lock_script: script_bytes(owner),
    }
}

fn light_client_found() -> Lookup<OutPoint> {
    Lookup::Found(OutPoint { tx_hash: [0x55; 32], index: 3 })
}

fn expected_token(lock_args: &[u8]) -> Script {
    let lock = Script { code_hash: [0x83; 32], hash_type: 0, args: lock_args.to_vec() };
    Script {
        code_hash: [0x86; 32],
        hash_type: 0,
        args: packed_script(&lock).calc_script_hash().as_slice().to_vec(),
    }
}

fn amount_and(amount: u128, extra: &[u8]) -> CellData {
    let mut data = amount.to_le_bytes().to_vec();
    data.extend(extra);
    CellData::Raw(data)
}

#[test]
fn locked_tokens_are_handed_out() {
    let plan = generator()
        .generate_eth_spv_tx(
            &light_client_found(),
            &vec![0xaa; 40],
            spv_proof(1000, 30),
            bridge_cell(&script(1)),
            script(1),
        )
        .unwrap();
    let light_client = CellDep {
        out_point: OutPoint { tx_hash: [0x55; 32], index: 3 },
        dep_type: DepType::Code,
    };
    assert_eq!(plan.cell_deps, vec![light_client, dep(3), dep(4), dep(6)]);
    assert_eq!(plan.inputs, vec![OutPoint { tx_hash: [9; 32], index: 9 }]);
    let token = expected_token(&[0xaa; 40]);
    assert_eq!(
        plan.outputs,
        vec![
            PlannedOutput {
                capacity: PlannedCapacity::Occupied,
                lock: script(7),
                type_: Some(token.clone()),
                data: amount_and(970, &[0xee]),
            },
            PlannedOutput {
                capacity: PlannedCapacity::Occupied,
                lock: script(1),
                type_: Some(token),
                data: amount_and(30, &[]),
            },
            PlannedOutput {
                capacity: PlannedCapacity::Shannons(300),
                lock: script(20),
                type_: Some(script(21)),
                data: CellData::Raw(vec![1, 2, 3]),
            },
        ]
    );
    assert_eq!(
        plan.witness,
        Some(PlannedWitness::SpvProof {
            cell_dep_index_list: vec![0],
            spv_proof: "branches",
        })
    );
    assert_eq!(plan.tx_fee, 50_000_000);
}

#[test]
fn no_fee_is_no_output() {
    let plan = generator()
        .generate_eth_spv_tx(
            &light_client_found(),
            &Vec::new(),
            spv_proof(u128::MAX, 0),
            bridge_cell(&script(1)),
            script(1),
        )
        .unwrap();
    assert_eq!(plan.outputs.len(), 2);
    assert_eq!(plan.outputs[0].data, amount_and(u128::MAX, &[0xee]));
}

#[test]
fn lock_arguments_name_the_token() {
    let args = generator().spv_lock_args(&spv_proof(1, 0));
    assert_eq!(args.eth_token_address, [1; 20]);
    assert_eq!(args.eth_contract_address, [2; 20]);
}

#[test]
fn foreign_bridge_cell_is_refused() {
    let r = generator().generate_eth_spv_tx(
        &light_client_found(),
        &Vec::new(),
        spv_proof(1000, 30),
        bridge_cell(&script(2)),
        script(1),
    );
    assert!(matches!(r, Err(Error::ForeignBridgeCell)));
}

#[test]
fn first_failure_of_a_pay_out_is_reported() {
    let pay = |g: Generator<u8>, light_client: Lookup<OutPoint>, owner: u8| {
        g.generate_eth_spv_tx(
            &light_client,
            &Vec::new(),
            spv_proof(1000, 30),
            bridge_cell(&script(owner)),
            script(1),
        )
    };
    match pay(generator(), Lookup::Failed("down".to_string()), 2) {
        Err(Error::Rpc(e)) => assert_eq!(e, "down"),
        other => panic!("{:?}", other),
    }
    assert!(matches!(
        pay(generator(), Lookup::Missing, 2),
        Err(Error::CellDepMissing)
    ));
    let bad = generator_with(|c| {
        c.sudt.outpoint.tx_hash = "0".to_string();
        c.bridge_lockscript.code_hash = "1".to_string();
    });
    assert!(matches!(pay(bad, light_client_found(), 2), Err(Error::Outpoint(_))));
    let bad = generator_with(|c| {
        c.bridge_lockscript.code_hash = "1".to_string();
        c.sudt.code_hash = "11".to_string();
    });
    assert!(matches!(
        pay(bad, light_client_found(), 2),
        Err(Error::CodeHash(FieldError::Hex(HexError::OddLength)))
    ));
    let bad = || generator_with(|c| c.sudt.code_hash = "11".to_string());
    assert!(matches!(
        pay(bad(), light_client_found(), 2),
        Err(Error::ForeignBridgeCell)
    ));
    assert!(matches!(
        pay(bad(), light_client_found(), 1),
        Err(Error::CodeHash(FieldError::Size { expected: 32, actual: 1 }))
    ));
}

#[test]
fn proofs_that_cannot_be_paid_out_are_told_apart() {
    let accepted = |g: &Generator<u8>, p: &EthSpvProof<&'static str>, owner: u8| {
        g.can_generate_eth_spv_tx(
            &light_client_found(),
            &Vec::new(),
            p,
            &bridge_cell(&script(owner)),
            &script(1),
        )
    };
    let g = generator();
    assert!(accepted(&g, &spv_proof(5, 5), 1));
    assert!(!accepted(&g, &spv_proof(4, 5), 1));
    // The payer of someone else's bridge cell is turned away before that.
    assert!(accepted(&g, &spv_proof(4, 5), 2));
    let bad = generator_with(|c| c.sudt.code_hash = "11".to_string());
    assert!(accepted(&bad, &spv_proof(4, 5), 1));
    let mut p = spv_proof(5, 5);
    p.recipient_lockscript.push(0);
    assert!(!accepted(&g, &p, 1));
    p.recipient_lockscript = Vec::new();
    assert!(!accepted(&g, &p, 1));
    assert!(!accepted(&bad, &p, 1));
    let mut p = spv_proof(5, 5);
    p.recipient_lockscript[8] = 47;
    assert!(!accepted(&g, &p, 1));
    let mut p = spv_proof(5, 5);
    p.replay_resist_outpoint.pop();
    assert!(!accepted(&g, &p, 2));
    let bad = generator_with(|c| c.bridge_lockscript.code_hash = "1".to_string());
    assert!(accepted(&bad, &p, 2));
}

#[test]
fn input_is_the_out_point_of_the_proof() {
    let mut p = spv_proof(5, 5);
    let mut bytes = vec![0x0fu8; 32];
    bytes.extend([4, 3, 2, 1]);
    p.replay_resist_outpoint = bytes.clone();
    let input = generator().spv_input(&p);
    assert_eq!(input, OutPoint { tx_hash: [0x0f; 32], index: 0x0102_0304 });
    let packed = packed::OutPoint::from_slice(&bytes).unwrap();
    let index: u32 = packed.index().into();
    assert_eq!(index, input.index);
}

#[test]
fn code_is_found_by_the_hash_of_its_data() {
    let data: packed::Byte = ckb_types::core::ScriptHashType::Data.into();
    let lock = generator().spv_lockscript(&vec![7]).unwrap();
    assert_eq!(lock.hash_type, u8::from(data));
    assert_eq!(lock.code_hash, [0x83; 32]);
    assert_eq!(lock.args, vec![7]);
    let token = generator().token_typescript(&[5; 32]).unwrap();
    assert_eq!(token.code_hash, [0x86; 32]);
    assert_eq!(token.args, vec![5; 32]);
}

#[test]
fn blocks_that_cannot_start_a_light_client_are_told_apart() {
    let g = generator();
    assert!(g.can_init(&block(Ok("c0ff"))));
    let mut b = block(Ok("c0ff"));
    b.hash = None;
    assert!(!g.can_init(&b));
    let mut b = block(Ok("c0ff"));
    b.total_difficulty = None;
    assert!(!g.can_init(&b));
    b.total_difficulty = Some([0, 1, 0, 0]);
    assert!(!g.can_init(&b));
    b.total_difficulty = Some([0, 0, 0, 1]);
    assert!(!g.can_init(&b));
    // What is wrong before that is reported.
    b.header_rlp = Ok("0".to_string());
    assert!(g.can_init(&b));
    b.header_rlp = Err("no rlp".to_string());
    assert!(g.can_init(&b));
}

#[test]
fn bridge_cells_are_made_all_alike() {
    let plan = generator()
        .create_bridge_cell(11, 300, script(1), script(2), script(3), 44, 3)
        .unwrap();
    assert_eq!(plan.cell_deps, vec![dep(3), dep(4)]);
    assert_eq!(plan.outputs.len(), 3);
    for output in &plan.outputs {
        assert_eq!(
            *output,
            PlannedOutput {
                capacity: PlannedCapacity::Shannons(300),
                lock: script(3),
                type_: Some(script(2)),
                data: CellData::Bridge {
                    owner_lock_script: script_bytes(&script(1)),
                    fee: 44,
                },
            }
        );
    }
    assert!(plan.inputs.is_empty());
    assert_eq!((plan.witness, plan.tokens), (None, None));
    assert_eq!(plan.payer, script(1));
    assert_eq!(plan.tx_fee, 11);
    let bad = generator_with(|c| c.bridge_typescript.outpoint.tx_hash = "zz".to_string());
    assert!(matches!(
        bad.create_bridge_cell(11, 300, script(1), script(2), script(3), 44, 0),
        Err(Error::Outpoint(FieldError::Hex(HexError::InvalidHexCharacter { c: 'z', index: 0 })))
    ));
}

#[test]
fn bridge_cell_serves_the_owner_it_was_made_for() {
    let plan = generator()
        .create_bridge_cell(11, 300, script(1), script(2), script(3), 44, 1)
        .unwrap();
    let owner_lock_script = match &plan.outputs[0].data {
        CellData::Bridge { owner_lock_script, .. } => owner_lock_script.clone(),
        other => panic!("{:?}", other),
    };
    let pay = |payer: u8| {
        let mut bridge = bridge_cell(&script(99));
        bridge.owner_lock_script = owner_lock_script.clone();
        generator().generate_eth_spv_tx(
            &light_client_found(),
            &Vec::new(),
            spv_proof(1000, 30),
            bridge,
            script(payer),
        )
    };
    assert!(pay(1).is_ok());
    assert!(matches!(pay(2), Err(Error::ForeignBridgeCell)));
}

#[test]
fn tokens_are_burnt() {
    let plan = generator()
        .burn(11, script(1), 5, 1000, &[1; 20], &[2; 20], &[3; 20], script(6))
        .unwrap();
    assert_eq!(plan.cell_deps, vec![dep(3), dep(5), dep(6), dep(8), dep(9)]);
    assert_eq!(
        plan.outputs,
        vec![PlannedOutput {
            capacity: PlannedCapacity::Occupied,
            lock: script(1),
            type_: Some(Script { code_hash: [0x85; 32], hash_type: 0, args: Vec::new() }),
            data: CellData::EthRecipient(EthRecipientData {
                eth_recipient_address: [3; 20],
                eth_token_address: [1; 20],
                eth_lock_contract_address: [2; 20],
                eth_bridge_lock_hash: [0x83; 32],
                token_amount: 1000,
                fee: 5,
            }),
        }]
    );
    assert_eq!(
        plan.tokens,
        Some(TokenDemand { amount: 1000, typescript: script(6) })
    );
    assert_eq!(plan.witness, None);
    assert_eq!(plan.tx_fee, 11);
}

#[test]
fn first_failure_of_a_burn_is_reported() {
    let burn = |change: fn(&mut DeployedContracts)| {
        generator_with(change).burn(
            11,
            script(1),
            5,
            1000,
            &[1; 20],
            &[2; 20],
            &[3; 20],
            script(6),
        )
    };
    let r = burn(|c| {
        c.pw_locks.inner[1].tx_hash = "0".to_string();
        c.bridge_lockscript.code_hash = "00".to_string();
    });
    assert!(matches!(r, Err(Error::Outpoint(_))));
    let r = burn(|c| {
        c.bridge_lockscript.code_hash = "zz".to_string();
        c.recipient_typescript.code_hash = "1".to_string();
    });
    assert!(matches!(
        r,
        Err(Error::CodeHash(FieldError::Hex(HexError::InvalidHexCharacter { c: 'z', index: 0 })))
    ));
    let r = burn(|c| c.recipient_typescript.code_hash = "1122".to_string());
    assert!(matches!(
        r,
        Err(Error::CodeHash(FieldError::Size { expected: 32, actual: 2 }))
    ));
}

#[test]
fn tokens_are_transferred() {
    let plan = generator()
        .transfer_sudt(script(6), script(1), script(2), 1000, 200, 11)
        .unwrap();
    assert_eq!(plan.cell_deps, vec![dep(3), dep(6)]);
    assert_eq!(
        plan.outputs,
        vec![PlannedOutput {
            capacity: PlannedCapacity::Shannons(200),
            lock: script(2),
            type_: Some(script(6)),
            data: amount_and(1000, &[]),
        }]
    );
    assert_eq!(
        plan.tokens,
        Some(TokenDemand { amount: 1000, typescript: script(6) })
    );
    assert_eq!(plan.payer, script(1));
    assert_eq!(plan.tx_fee, 11);
    let bad = generator_with(|c| c.sudt.outpoint.tx_hash = "0".to_string());
    assert!(matches!(
        bad.transfer_sudt(script(6), script(1), script(2), 1, 1, 1),
        Err(Error::Outpoint(_))
    ));
}
