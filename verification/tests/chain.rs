use ckb_tx_generator::chain::{
    can_update, find_fork, find_tail, store_chain, update_chain, HeaderChain, HeaderEntry,
    CONFIRM, MAIN_HEADER_CACHE_LIMIT, UNCLE_HEADER_CACHE_LIMIT,
};
use ckb_tx_generator::error::Error;

fn block(n: u8) -> [u8; 32] {
    [n; 32]
}

fn entry(n: u16) -> HeaderEntry {
    HeaderEntry {
        raw: vec![1, (n >> 8) as u8, n as u8],
        hash: Ok(hash(n)),
    }
}

fn hash(n: u16) -> Vec<u8> {
    vec![2, (n >> 8) as u8, n as u8]
}

fn raw(n: u16) -> Vec<u8> {
    vec![1, (n >> 8) as u8, n as u8]
}

fn broken(n: u16) -> HeaderEntry {
    HeaderEntry {
        raw: raw(n),
        hash: Err(format!("broken {}", n)),
    }
}

fn chain(confirmed: std::ops::Range<u16>, unconfirmed: std::ops::Range<u16>) -> HeaderChain {
    HeaderChain {
        confirmed: confirmed.map(hash).collect(),
        unconfirmed: unconfirmed.map(entry).collect(),
        uncle: Vec::new(),
    }
}

fn raws(entries: &[HeaderEntry]) -> Vec<Vec<u8>> {
    entries.iter().map(|e| e.raw.clone()).collect()
}

#[test]
fn limits_are_as_deployed() {
    assert_eq!(CONFIRM, 10);
    assert_eq!(MAIN_HEADER_CACHE_LIMIT, 500);
    assert_eq!(UNCLE_HEADER_CACHE_LIMIT, 10);
}

#[test]
fn fork_is_found_behind_the_last_match() {
    let known = vec![Some(block(1)), Some(block(2)), Some(block(3))];
    assert_eq!(find_fork(&known, &block(1)), 1);
    assert_eq!(find_fork(&known, &block(2)), 2);
    assert_eq!(find_fork(&known, &block(9)), 0);
    // The newest block is not looked at.
    assert_eq!(find_fork(&known, &block(3)), 0);
    let twice = vec![Some(block(5)), None, Some(block(5)), Some(block(6))];
    assert_eq!(find_fork(&twice, &block(5)), 3);
}

#[test]
fn short_chain_is_extended_without_confirming() {
    let known = vec![Some(block(1))];
    let after = update_chain(chain(0..0, 0..3), &known, &block(1), 2, vec![entry(3), entry(4)])
        .unwrap();
    assert!(after.confirmed.is_empty());
    assert_eq!(raws(&after.unconfirmed), vec![raw(0), raw(1), raw(2), raw(3), raw(4)]);
}

#[test]
fn full_chain_confirms_its_oldest_headers() {
    let known = vec![Some(block(1))];
    let after = update_chain(
        chain(0..2, 2..12),
        &known,
        &block(1),
        3,
        vec![entry(12), entry(13), entry(14)],
    )
    .unwrap();
    assert_eq!(after.confirmed, vec![hash(0), hash(1), hash(2), hash(3), hash(4)]);
    assert_eq!(raws(&after.unconfirmed), (5..15).map(raw).collect::<Vec<_>>());
    let (main, uncle) = store_chain(after);
    let mut expected: Vec<Vec<u8>> = (0..5).map(hash).collect();
    expected.extend((5..15).map(raw));
    assert_eq!(main, expected);
    assert!(uncle.is_empty());
}

#[test]
fn long_chain_forgets_its_oldest_hashes() {
    let known = vec![Some(block(1))];
    let after = update_chain(chain(0..490, 490..500), &known, &block(1), 1, vec![entry(500)])
        .unwrap();
    assert_eq!(after.confirmed.len(), 490);
    assert_eq!(after.confirmed[0], hash(1));
    assert_eq!(after.confirmed[489], hash(490));
    assert_eq!(after.unconfirmed.len(), 10);
    let too_long = update_chain(chain(0..700, 700..710), &known, &block(1), 1, vec![entry(710)])
        .unwrap();
    assert_eq!(too_long.confirmed.len() + too_long.unconfirmed.len(), 500);
    assert_eq!(too_long.confirmed[489], hash(700));
}

#[test]
fn extension_leaves_uncles_alone() {
    let known = vec![Some(block(1))];
    let mut start = chain(0..0, 0..2);
    start.uncle = vec![raw(70), raw(71)];
    let after = update_chain(start, &known, &block(1), 1, vec![entry(2)]).unwrap();
    assert_eq!(after.uncle, vec![raw(70), raw(71)]);
}

#[test]
fn broken_header_is_reported_when_it_is_due() {
    let known = vec![Some(block(1))];
    let mut start = chain(0..0, 0..10);
    start.unconfirmed[1] = broken(1);
    start.unconfirmed[2] = broken(2);
    match update_chain(start, &known, &block(1), 3, vec![entry(10), entry(11), entry(12)]) {
        Err(Error::MalformedHeader(e)) => assert_eq!(e, "broken 1"),
        other => panic!("{:?}", other),
    }
    let mut start = chain(0..0, 0..10);
    start.unconfirmed[1] = broken(1);
    assert!(update_chain(start, &known, &block(1), 1, vec![entry(10)]).is_ok());
}

#[test]
fn tail_of_an_extension_is_the_newest_header() {
    let known = vec![Some(block(1))];
    let start = chain(0..0, 0..10);
    assert_eq!(find_tail(&start, &known, &block(1), 3).unwrap(), raw(9));
    let mut start = chain(0..0, 0..10);
    start.unconfirmed[0] = broken(0);
    match find_tail(&start, &known, &block(1), 1) {
        Err(Error::MalformedHeader(e)) => assert_eq!(e, "broken 0"),
        other => panic!("{:?}", other),
    }
}

#[test]
fn chain_without_a_tail_is_not_updated() {
    let known = vec![Some(block(1))];
    let start = || {
        let mut start = chain(0..0, 0..10);
        start.unconfirmed[0] = broken(0);
        start
    };
    // As many new headers as are kept whole would drive the tail out.
    for new_count in [1, 5, 10, 12] {
        assert!(can_update(&start(), &known, &block(1), new_count));
        let tail = find_tail(&start(), &known, &block(1), new_count);
        let after = update_chain(start(), &known, &block(1), new_count, Vec::new());
        match (tail, after) {
            (Err(Error::MalformedHeader(a)), Err(Error::MalformedHeader(b))) => {
                assert_eq!(a, "broken 0");
                assert_eq!(a, b);
            }
            other => panic!("{:?}", other),
        }
    }
}

#[test]
fn branch_moves_what_it_leaves_to_the_uncles() {
    let known: Vec<Option<[u8; 32]>> = (0..10).map(|n| Some(block(n))).collect();
    let start = chain(0..0, 0..10);
    assert!(can_update(&start, &known, &block(8), 1));
    assert_eq!(find_tail(&start, &known, &block(8), 1).unwrap(), raw(8));
    let after = update_chain(start, &known, &block(8), 1, vec![entry(50)]).unwrap();
    let (main, uncle) = store_chain(after);
    let mut expected: Vec<Vec<u8>> = (0..9).map(raw).collect();
    expected.push(raw(50));
    assert_eq!(main, expected);
    assert_eq!(uncle, vec![raw(9)]);
}

#[test]
fn branch_follows_the_block_it_starts_after() {
    let known = vec![Some(block(0)), Some(block(1)), Some(block(2)), Some(block(3))];
    for k in 1..4u8 {
        let parent = block(k - 1);
        let mut start = chain(90..92, 10..14);
        start.uncle = vec![raw(80)];
        assert!(can_update(&start, &known, &parent, 2));
        let tail = find_tail(&start, &known, &parent, 2).unwrap();
        assert_eq!(tail, raw(9 + k as u16));
        let after =
            update_chain(start, &known, &parent, 2, vec![entry(50), entry(51)]).unwrap();
        let (main, uncle) = store_chain(after);
        let mut expected = vec![hash(90), hash(91)];
        expected.extend((10..10 + k as u16).map(raw));
        expected.push(raw(50));
        expected.push(raw(51));
        assert_eq!(main[main.len() - 3], tail);
        assert_eq!(main, expected);
        let mut expected = vec![raw(80)];
        expected.extend((10 + k as u16..14).map(raw));
        assert_eq!(uncle, expected);
    }
}

#[test]
fn branch_also_leaves_headers_of_unknown_blocks() {
    let known = vec![Some(block(1)), Some(block(2))];
    let after =
        update_chain(chain(0..0, 10..14), &known, &block(1), 1, vec![entry(50)]).unwrap();
    assert_eq!(raws(&after.unconfirmed), vec![raw(10), raw(50)]);
    assert_eq!(after.uncle, vec![raw(11), raw(12), raw(13)]);
}

#[test]
fn branch_keeps_the_newest_uncles() {
    let known = vec![Some(block(1)), Some(block(2)), Some(block(3))];
    let mut start = chain(0..0, 0..3);
    start.uncle = (50..60).map(raw).collect();
    let after = update_chain(start, &known, &block(1), 1, vec![entry(20)]).unwrap();
    let mut expected: Vec<Vec<u8>> = (52..60).map(raw).collect();
    expected.push(raw(1));
    expected.push(raw(2));
    assert_eq!(after.uncle, expected);
}

#[test]
fn branch_confirms_while_it_grows() {
    let known: Vec<Option<[u8; 32]>> = (0..10).map(|n| Some(block(n))).collect();
    let mut start = chain(0..500, 500..510);
    start.uncle = vec![raw(70)];
    // One header is passed over, so the first new one fills the chain up again.
    let after = update_chain(
        start,
        &known,
        &block(8),
        3,
        vec![entry(600), entry(601), entry(602)],
    )
    .unwrap();
    assert_eq!(after.unconfirmed.len(), 10);
    assert_eq!(after.unconfirmed[6].raw, raw(508));
    assert_eq!(after.unconfirmed[9].raw, raw(602));
    assert_eq!(after.confirmed.len(), 500);
    assert_eq!(after.confirmed[499], hash(501));
    assert_eq!(after.confirmed[0], hash(2));
    assert_eq!(after.uncle, vec![raw(70), raw(509)]);
}

#[test]
fn long_branch_is_kept_by_its_newest_headers() {
    let known = vec![Some(block(1)), Some(block(2))];
    let infos = (20..32).map(entry).collect();
    let after = update_chain(chain(5..6, 6..8), &known, &block(1), 12, infos).unwrap();
    assert_eq!(after.confirmed, vec![hash(5), hash(6), hash(20), hash(21)]);
    assert_eq!(raws(&after.unconfirmed), (22..32).map(raw).collect::<Vec<_>>());
    assert_eq!(after.uncle, vec![raw(7)]);
}

#[test]
fn branch_reports_a_broken_header_when_it_is_due() {
    let known: Vec<Option<[u8; 32]>> = (0..10).map(|n| Some(block(n))).collect();
    let start = |bad: usize| {
        let mut start = chain(0..0, 0..10);
        start.unconfirmed[bad] = broken(bad as u16);
        start
    };
    let infos = || vec![entry(20), entry(21)];
    match update_chain(start(0), &known, &block(8), 2, infos()) {
        Err(Error::MalformedHeader(e)) => assert_eq!(e, "broken 0"),
        other => panic!("{:?}", other),
    }
    assert!(update_chain(start(1), &known, &block(8), 2, infos()).is_ok());
    // A header that the branch leaves is never due.
    let after = update_chain(start(9), &known, &block(8), 2, infos()).unwrap();
    assert_eq!(after.uncle, vec![raw(9)]);
}

#[test]
fn updates_that_cannot_be_made_are_told_apart() {
    let known = vec![Some(block(1)), Some(block(2))];
    // Right behind the newest block.
    assert!(can_update(&chain(0..0, 0..2), &known, &block(2), 9));
    assert!(!can_update(&chain(0..0, 0..2), &known, &block(2), 10));
    assert!(!can_update(&chain(0..0, 0..0), &known, &block(2), 1));
    let mut start = chain(0..0, 0..2);
    start.unconfirmed[1] = broken(1);
    assert!(can_update(&start, &known, &block(2), 10));
    // On a branch.
    assert!(can_update(&chain(0..0, 0..2), &known, &block(1), 50));
    assert!(can_update(&chain(0..0, 0..1), &known, &block(1), 1));
    assert!(!can_update(&chain(0..0, 0..0), &known, &block(1), 1));
    assert!(!can_update(&chain(0..0, 0..9), &known, &block(7), 1));
    let unknown = vec![Some(block(1)), None, Some(block(2))];
    assert!(!can_update(&chain(0..0, 0..9), &unknown, &block(1), 1));
    assert!(!can_update(&chain(0..0, 0..9), &vec![Some(block(1)), None], &block(1), 1));
    assert!(!can_update(&chain(0..0, 0..9), &Vec::new(), &block(1), 1));
}
