use ckb_tx_generator::bytes::{amount_bytes, copy_bytes, same_bytes};
use ckb_tx_generator::config::{add_cell_deps, make_data_script, parse_hash, resolve_cell_deps};
use ckb_tx_generator::error::{Error, FieldError};
use ckb_tx_generator::hexadecimal::HexError;
use ckb_tx_generator::types::{CellDep, DepType, OutPoint, OutpointConf};
use ckb_types::packed;
use ckb_types::prelude::Entity;

fn conf(tx_hash: &str, index: u32) -> OutpointConf {
    OutpointConf {
        tx_hash: tx_hash.to_string(),
        index,
        dep_type: DepType::DepGroup,
    }
}

#[test]
fn amounts_are_little_endian() {
    for amount in [0u128, 1, 255, 256, 0x0102_0304, u128::MAX] {
        assert_eq!(amount_bytes(amount), amount.to_le_bytes().to_vec());
    }
}

#[test]
fn byte_strings_are_compared_and_copied() {
    assert!(same_bytes(&[1, 2], &[1, 2]));
    assert!(!same_bytes(&[1, 2], &[1, 3]));
    assert!(!same_bytes(&[1, 2], &[1]));
    assert_eq!(copy_bytes(&[1, 2, 3]), vec![1, 2, 3]);
}

#[test]
fn hash_is_read_in_either_case() {
    assert_eq!(parse_hash(&"aB".repeat(32)), Ok([0xab; 32]));
    let mut expected = [0u8; 32];
    expected[0] = 0x01;
    expected[31] = 0xf0;
    assert_eq!(parse_hash(&format!("01{}f0", "00".repeat(30))), Ok(expected));
}

#[test]
fn invalid_hash_is_refused() {
    assert_eq!(
        parse_hash(&"abc".to_string()),
        Err(FieldError::Hex(HexError::OddLength))
    );
    assert_eq!(
        parse_hash(&"0x12".to_string()),
        Err(FieldError::Hex(HexError::InvalidHexCharacter { c: 'x', index: 1 }))
    );
    // The place is counted in bytes, and the first bad byte is named.
    assert_eq!(
        parse_hash(&"00\u{e9}z1".replace('1', "")),
        Err(FieldError::Hex(HexError::OddLength))
    );
    assert_eq!(
        parse_hash(&"00\u{e9}".to_string()),
        Err(FieldError::Hex(HexError::InvalidHexCharacter { c: '\u{c3}', index: 2 }))
    );
    assert_eq!(
        parse_hash(&"00".repeat(31)),
        Err(FieldError::Size { expected: 32, actual: 31 })
    );
}

#[test]
fn cell_deps_are_appended_in_order() {
    let first = CellDep {
        out_point: OutPoint { tx_hash: [9; 32], index: 4 },
        dep_type: DepType::Code,
    };
    let mut deps = vec![first];
    add_cell_deps(&mut deps, vec![conf(&"11".repeat(32), 1), conf(&"22".repeat(32), 2)]).unwrap();
    assert_eq!(deps.len(), 3);
    assert_eq!(deps[0], first);
    assert_eq!(deps[1].out_point, OutPoint { tx_hash: [0x11; 32], index: 1 });
    assert_eq!(deps[2].out_point, OutPoint { tx_hash: [0x22; 32], index: 2 });
    assert_eq!(deps[2].dep_type, DepType::DepGroup);
}

#[test]
fn cell_deps_are_appended_all_or_none() {
    let mut deps: Vec<CellDep> = Vec::new();
    let confs = vec![conf(&"11".repeat(32), 1), conf("1", 2), conf("zz", 3)];
    match add_cell_deps(&mut deps, confs) {
        Err(Error::Outpoint(e)) => assert_eq!(e, FieldError::Hex(HexError::OddLength)),
        other => panic!("{:?}", other),
    }
    assert!(deps.is_empty());
}

#[test]
fn cell_deps_in_two_steps_are_those_in_one() {
    let confs = || vec![conf(&"11".repeat(32), 1), conf(&"22".repeat(32), 2)];
    let mut steps: Vec<CellDep> = Vec::new();
    for c in confs() {
        add_cell_deps(&mut steps, vec![c]).unwrap();
    }
    assert_eq!(steps, resolve_cell_deps(confs()).unwrap());
}

#[test]
fn errors_say_what_went_wrong() {
    let odd = hex::decode("1").unwrap_err().to_string();
    assert_eq!(odd, "Odd number of digits");
    let size = |n: usize| packed::Byte32::from_slice(&vec![0; n]).unwrap_err().to_string();
    assert_eq!(
        size(120),
        "Byte32Reader total size doesn't match, expect 32, actual 120"
    );
    for text in ["1", "0x", "zz\u{e9}", "00\u{7f}0", "0\n", "0'", "00"] {
        let expected = match hex::decode(text) {
            Err(e) => e.to_string(),
            Ok(bytes) => size(bytes.len()),
        };
        let error = parse_hash(&text.to_string()).unwrap_err();
        assert_eq!(error.message(), expected);
        assert_eq!(Error::CodeHash(error).message(), expected);
        assert_eq!(
            Error::Outpoint(error).message(),
            format!("invalid OutpointConf config. err: {}", expected)
        );
    }
    let long = FieldError::Size { expected: 32, actual: 120 };
    assert_eq!(long.message(), size(120));
    let hex_error = HexError::InvalidHexCharacter { c: 'g', index: 10 };
    assert_eq!(Error::HeaderHex(hex_error).message(), "Invalid character 'g' at position 10");
    assert_eq!(
        Error::HeaderHex(HexError::InvalidStringLength).message(),
        hex::FromHexError::InvalidStringLength.to_string()
    );
    let text = || "said".to_string();
    assert_eq!(Error::HeaderRlp(text()).message(), "said");
    assert_eq!(Error::MalformedHeader(text()).message(), "said");
    assert_eq!(Error::Rpc(text()).message(), "said");
    assert_eq!(Error::GenesisInfo(text()).message(), "said");
    assert_eq!(Error::HeaderFetch(text()).message(), "failed to get header: said");
    assert_eq!(Error::GenesisBlockMissing.message(), "Can not get genesis block?");
    assert_eq!(Error::CellDepMissing.message(), "no cell found for cell dep");
    assert_eq!(Error::CellNotFound.message(), "cell not found");
    assert_eq!(Error::HeaderMissing.message(), "failed to get header which is none");
    assert_eq!(
        Error::ForeignBridgeCell.message(),
        "only support use bridge cell we created as lock outpoint"
    );
}

#[test]
fn script_is_made_from_a_code_hash() {
    let script = make_data_script(&"0f".repeat(32), vec![1, 2]).unwrap();
    assert_eq!(script.code_hash, [0x0f; 32]);
    assert_eq!(script.hash_type, 0);
    assert_eq!(script.args, vec![1, 2]);
    match make_data_script(&"0f".repeat(33), Vec::new()) {
        Err(Error::CodeHash(e)) => {
            assert_eq!(e, FieldError::Size { expected: 32, actual: 33 })
        }
        other => panic!("{:?}", other),
    }
}
